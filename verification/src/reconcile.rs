use crate::draft::{Draft, DraftView};
use crate::error::ControlError;
use crate::flags::{analyze_patch, required_actions, Action, UpdateFlags};
use crate::platform::Platform;
use crate::text::copy_strings;
use crate::tun::{status_after_push, switch_failure_text, PushOutcome, TunConfigPush, TunManager, TunStatusView};
use crate::verge::{stage_patch, IVerge, VergeView};
use vstd::prelude::*;

verus! {

/// One side-effecting step of a reconciliation, for the caller to carry out.
#[derive(Debug, Clone, PartialEq, Eq)]
pub enum Command {
    /// Regenerate the runtime configuration and restart the engine.
    RestartCore,
    /// Push the runtime configuration to the engine and tell the interface
    /// that the engine configuration changed. With `sync_tun`, bring the
    /// interface-mode state machine in line afterwards. The step fails
    /// where the push fails and where the synchronisation fails; see
    /// `engine_config_step` and `PatchSession::step_tun_sync`.
    UpdateClashConfig { sync_tun: bool },
    /// Tell the interface that the preferences changed. Cannot fail.
    RefreshVerge,
    /// Bring launch-on-boot in line with the draft.
    UpdateLaunch,
    /// Bring the system proxy in line with the draft.
    UpdateSysProxy,
    /// Register these hotkeys in place of the current ones.
    UpdateHotkeys(Vec<String>),
    /// Rebuild the tray menu.
    UpdateTrayMenu,
    /// Redraw the tray icon.
    UpdateTrayIcon,
    /// Rewrite the tray tooltip.
    UpdateTrayTooltip,
    /// Rebind what a click on the tray icon does.
    UpdateTrayClickBehavior,
    /// Switch automatic lightweight mode on or off. Cannot fail.
    SetLightWeight(bool),
}

/// What a `Command` holds, as mathematical values.
pub ghost enum CommandView {
    RestartCore,
    UpdateClashConfig { sync_tun: bool },
    RefreshVerge,
    UpdateLaunch,
    UpdateSysProxy,
    UpdateHotkeys(Seq<Seq<char>>),
    UpdateTrayMenu,
    UpdateTrayIcon,
    UpdateTrayTooltip,
    UpdateTrayClickBehavior,
    SetLightWeight(bool),
}

impl View for Command {
    type V = CommandView;

    open spec fn view(&self) -> CommandView {
        match self {
            Command::RestartCore => CommandView::RestartCore,
            Command::UpdateClashConfig { sync_tun } => CommandView::UpdateClashConfig {
                sync_tun: *sync_tun,
            },
            Command::RefreshVerge => CommandView::RefreshVerge,
            Command::UpdateLaunch => CommandView::UpdateLaunch,
            Command::UpdateSysProxy => CommandView::UpdateSysProxy,
            Command::UpdateHotkeys(keys) => CommandView::UpdateHotkeys(keys.deep_view()),
            Command::UpdateTrayMenu => CommandView::UpdateTrayMenu,
            Command::UpdateTrayIcon => CommandView::UpdateTrayIcon,
            Command::UpdateTrayTooltip => CommandView::UpdateTrayTooltip,
            Command::UpdateTrayClickBehavior => CommandView::UpdateTrayClickBehavior,
            Command::SetLightWeight(on) => CommandView::SetLightWeight(*on),
        }
    }
}

impl CommandView {
    /// The action that the command carries out.
    pub open spec fn action(self) -> Action {
        match self {
            CommandView::RestartCore => Action::RestartCore,
            CommandView::UpdateClashConfig { .. } => Action::ClashConfig,
            CommandView::RefreshVerge => Action::VergeConfig,
            CommandView::UpdateLaunch => Action::Launch,
            CommandView::UpdateSysProxy => Action::SysProxy,
            CommandView::UpdateHotkeys(_) => Action::Hotkey,
            CommandView::UpdateTrayMenu => Action::SystrayMenu,
            CommandView::UpdateTrayIcon => Action::SystrayIcon,
            CommandView::UpdateTrayTooltip => Action::SystrayTooltip,
            CommandView::UpdateTrayClickBehavior => Action::SystrayClickBehavior,
            CommandView::SetLightWeight(_) => Action::LightWeight,
        }
    }
}

/// The order in which actions are carried out. It is fixed: the flags of
/// a patch decide which actions run, never in which order.
pub open spec fn execution_order() -> Seq<Action> {
    seq![
        Action::RestartCore,
        Action::ClashConfig,
        Action::VergeConfig,
        Action::Launch,
        Action::SysProxy,
        Action::Hotkey,
        Action::SystrayMenu,
        Action::SystrayIcon,
        Action::SystrayTooltip,
        Action::SystrayClickBehavior,
        Action::LightWeight,
    ]
}

/// The command that carries out `action` for `patch`. The hotkey action
/// has one only where the patch holds a hotkey table.
pub open spec fn command_for(action: Action, patch: VergeView) -> Option<CommandView> {
    match action {
        Action::RestartCore => Some(CommandView::RestartCore),
        Action::ClashConfig => Some(
            CommandView::UpdateClashConfig { sync_tun: patch.enable_tun_mode.is_some() },
        ),
        Action::VergeConfig => Some(CommandView::RefreshVerge),
        Action::Launch => Some(CommandView::UpdateLaunch),
        Action::SysProxy => Some(CommandView::UpdateSysProxy),
        Action::Hotkey => match patch.hotkeys {
            Some(keys) => Some(CommandView::UpdateHotkeys(keys)),
            None => None,
        },
        Action::SystrayMenu => Some(CommandView::UpdateTrayMenu),
        Action::SystrayIcon => Some(CommandView::UpdateTrayIcon),
        Action::SystrayTooltip => Some(CommandView::UpdateTrayTooltip),
        Action::SystrayClickBehavior => Some(CommandView::UpdateTrayClickBehavior),
        Action::LightWeight => Some(
            CommandView::SetLightWeight(
                match patch.enable_auto_light_weight_mode {
                    Some(on) => on,
                    None => false,
                },
            ),
        ),
    }
}

/// The commands for the first `upto` actions of the execution order: one
/// for each of them that is in `flags` and has a command.
pub open spec fn planned_upto(flags: Set<Action>, patch: VergeView, upto: int) -> Seq<
    CommandView,
>
    decreases upto,
{
    if upto <= 0 {
        Seq::empty()
    } else {
        let earlier = planned_upto(flags, patch, upto - 1);
        let action = execution_order()[upto - 1];
        match command_for(action, patch) {
            Some(command) if flags.contains(action) => earlier.push(command),
            _ => earlier,
        }
    }
}

/// The commands that carry out `flags` for `patch`, in execution order.
pub open spec fn planned(flags: Set<Action>, patch: VergeView) -> Seq<CommandView> {
    planned_upto(flags, patch, execution_order().len() as int)
}

fn action_at(position: usize) -> (action: Action)
    requires
        position < execution_order().len(),
    ensures
        action == execution_order()[position as int],
{
    if position == 0 {
        Action::RestartCore
    } else if position == 1 {
        Action::ClashConfig
    } else if position == 2 {
        Action::VergeConfig
    } else if position == 3 {
        Action::Launch
    } else if position == 4 {
        Action::SysProxy
    } else if position == 5 {
        Action::Hotkey
    } else if position == 6 {
        Action::SystrayMenu
    } else if position == 7 {
        Action::SystrayIcon
    } else if position == 8 {
        Action::SystrayTooltip
    } else if position == 9 {
        Action::SystrayClickBehavior
    } else {
        Action::LightWeight
    }
}

fn build_command(action: Action, patch: &IVerge) -> (command: Option<Command>)
    ensures
        command.is_some() == command_for(action, patch@).is_some(),
        command.is_some() ==> command.unwrap()@ == command_for(action, patch@).unwrap(),
{
    match action {
        Action::RestartCore => Some(Command::RestartCore),
        Action::ClashConfig => Some(
            Command::UpdateClashConfig { sync_tun: patch.enable_tun_mode.is_some() },
        ),
        Action::VergeConfig => Some(Command::RefreshVerge),
        Action::Launch => Some(Command::UpdateLaunch),
        Action::SysProxy => Some(Command::UpdateSysProxy),
        Action::Hotkey => match &patch.hotkeys {
            Some(keys) => Some(Command::UpdateHotkeys(copy_strings(keys))),
            None => None,
        },
        Action::SystrayMenu => Some(Command::UpdateTrayMenu),
        Action::SystrayIcon => Some(Command::UpdateTrayIcon),
        Action::SystrayTooltip => Some(Command::UpdateTrayTooltip),
        Action::SystrayClickBehavior => Some(Command::UpdateTrayClickBehavior),
        Action::LightWeight => Some(
            Command::SetLightWeight(
                match patch.enable_auto_light_weight_mode {
                    Some(on) => on,
                    None => false,
                },
            ),
        ),
    }
}

/// The views of a list of commands.
pub open spec fn command_views(commands: Seq<Command>) -> Seq<CommandView> {
    commands.map_values(|c: Command| c@)
}

/// Lists the commands that carry out `flags` for `patch`, in the fixed
/// execution order.
pub fn plan_actions(flags: UpdateFlags, patch: &IVerge) -> (commands: Vec<Command>)
    ensures
        command_views(commands@) == planned(flags@, patch@),
{
    let mut commands: Vec<Command> = Vec::new();
    let mut position: usize = 0;
    assert(command_views(commands@) =~= planned_upto(flags@, patch@, 0));
    while position < 11
        invariant
            position <= 11,
            execution_order().len() == 11,
            command_views(commands@) == planned_upto(flags@, patch@, position as int),
        decreases 11 - position,
    {
        let action = action_at(position);
        let ghost before = commands@;
        if flags.contains(UpdateFlags::of(action)) {
            match build_command(action, patch) {
                Some(command) => {
                    commands.push(command);
                    assert(command_views(commands@) =~= command_views(before).push(command@));
                },
                None => {},
            }
        }
        position += 1;
    }
    commands
}

/// Where a reconciliation stands.
#[derive(Clone, Copy, Debug, PartialEq, Eq, Structural)]
pub enum Phase {
    /// A command is with the caller; its result is awaited.
    Running,
    /// Every command succeeded and the draft was committed.
    Committed,
    /// A command failed and the draft was rolled back.
    Discarded,
}

/// What the caller of a reconciliation does next.
#[derive(Debug, Clone, PartialEq, Eq)]
pub enum Progress {
    /// Carry out this command and report its result with `step`.
    Run(Command),
    /// Every command succeeded and the draft is committed. With `persist`,
    /// write the committed preferences to disk.
    Commit { persist: bool },
    /// A command failed with this error. The draft is rolled back and the
    /// remaining commands are not run.
    Abort(ControlError),
    /// The reconciliation had ended before; nothing was done.
    Done,
}

/// Whether a command cannot fail: what the caller reports of it does not
/// count, the reconciliation goes on.
pub open spec fn cannot_fail(command: CommandView) -> bool {
    command is RefreshVerge || command is SetLightWeight
}

/// What counts as the outcome of a command of which the caller reported
/// `reported`.
pub open spec fn command_outcome(command: CommandView, reported: Result<(), ControlError>) -> Result<
    (),
    ControlError,
> {
    if cannot_fail(command) {
        Ok(())
    } else {
        reported
    }
}

/// The outcome of the step that pushes the engine configuration: the
/// error of the push where the push failed, else the error of the
/// synchronisation of the interface mode where one was made and failed,
/// else success.
pub open spec fn engine_config_outcome(
    push: Result<(), ControlError>,
    sync: Option<Result<(), ControlError>>,
) -> Result<(), ControlError> {
    match push {
        Err(error) => Err(error),
        Ok(_) => match sync {
            Some(Err(error)) => Err(error),
            _ => Ok(()),
        },
    }
}

/// Works out the outcome of the step that pushes the engine
/// configuration from the result of the push and, where the interface
/// mode was synchronised afterwards, the result of that. The step fails
/// where either failed.
pub fn engine_config_step(
    push: Result<(), ControlError>,
    sync: Option<Result<(), ControlError>>,
) -> (outcome: Result<(), ControlError>)
    ensures
        outcome == engine_config_outcome(push, sync),
{
    match push {
        Err(error) => Err(error),
        Ok(_) => match sync {
            Some(Err(error)) => Err(error),
            _ => Ok(()),
        },
    }
}

/// One reconciliation of the preferences: the commands of a staged patch,
/// carried out in order until one fails.
pub struct PatchSession {
    commands: Vec<Command>,
    cursor: usize,
    phase: Phase,
    persist: bool,
}

impl PatchSession {
    #[verifier::type_invariant]
    spec fn cursor_in_plan(self) -> bool {
        &&& self.cursor <= self.commands.len()
        &&& self.phase == Phase::Running ==> self.cursor < self.commands.len()
    }

    /// The commands of the reconciliation, in the order in which they run.
    pub closed spec fn plan(self) -> Seq<CommandView> {
        command_views(self.commands@)
    }

    /// How many commands have succeeded.
    pub closed spec fn succeeded(self) -> nat {
        self.cursor as nat
    }

    /// Where the reconciliation stands.
    pub closed spec fn phase(self) -> Phase {
        self.phase
    }

    /// Whether a commit is followed by a write to disk.
    pub closed spec fn persists(self) -> bool {
        self.persist
    }

    /// Where the reconciliation stands.
    pub fn current_phase(&self) -> (phase: Phase)
        ensures
            phase == self.phase(),
    {
        self.phase
    }

    /// The command that is with the caller, while one is.
    pub fn in_flight(&self) -> (command: Option<&Command>)
        ensures
            match command {
                Some(c) => self.phase() == Phase::Running && self.succeeded() < self.plan().len()
                    && c@ == self.plan()[self.succeeded() as int],
                None => self.phase() != Phase::Running,
            },
    {
        proof {
            use_type_invariant(self);
        }
        match self.phase {
            Phase::Running => Some(&self.commands[self.cursor]),
            _ => None,
        }
    }

    /// Reports the result of the command in flight and says what to do
    /// next.
    ///
    /// A failure rolls the draft back and ends the reconciliation with
    /// that error, unless the command is one that cannot fail. A success
    /// moves on to the next command; after the last one the draft is
    /// committed. The committed value of `store` changes in that commit
    /// and at no other time, and the draft changes in no step.
    pub fn step(&mut self, store: &mut Draft<IVerge>, reported: Result<(), ControlError>) -> (next:
        Progress)
        ensures
            stepped(*old(self), old(store)@, reported, *final(self), final(store)@, next),
    {
        proof {
            use_type_invariant(&*self);
        }
        match self.phase {
            Phase::Running => {},
            _ => {
                return Progress::Done;
            },
        }
        let tolerated = match &self.commands[self.cursor] {
            Command::RefreshVerge => true,
            Command::SetLightWeight(_) => true,
            _ => false,
        };
        let outcome = if tolerated {
            Ok(())
        } else {
            reported
        };
        match outcome {
            Err(error) => {
                store.discard();
                self.phase = Phase::Discarded;
                Progress::Abort(error)
            },
            Ok(_) => {
                self.phase = Phase::Committed;
                self.cursor = self.cursor + 1;
                self.dispatch(store)
            },
        }
    }

    /// Ends a switch of the interface mode that the step in flight
    /// started, and reports the step with what came of it.
    ///
    /// `outcome` is what the engine said to `push`. The interface-mode
    /// manager ends the switch: a push that timed out or was refused
    /// leaves it in `Error`. That same failure fails the step, so the
    /// draft is rolled back and the reconciliation ends with the error; a
    /// push that the engine accepted lets the reconciliation go on.
    pub fn step_tun_sync(
        &mut self,
        store: &mut Draft<IVerge>,
        manager: &mut TunManager,
        push: TunConfigPush,
        outcome: PushOutcome,
    ) -> (next: Progress)
        ensures
            final(manager)@ == status_after_push(push, outcome),
            !(outcome is Applied) ==> final(manager)@ == TunStatusView::Error(
                switch_failure_text(push, outcome),
            ),
            !fails_step(*old(self), outcome) ==> stepped(
                *old(self),
                old(store)@,
                Ok(()),
                *final(self),
                final(store)@,
                next,
            ),
            fails_step(*old(self), outcome) ==> {
                &&& next matches Progress::Abort(error)
                &&& error.text() == switch_failure_text(push, outcome)
                &&& error is Timeout <==> outcome is TimedOut
                &&& error is ExternalProcessFailure <==> outcome is Failed
                &&& final(self).phase() == Phase::Discarded
                &&& final(self).succeeded() == old(self).succeeded()
                &&& final(self).plan() == old(self).plan()
                &&& final(self).persists() == old(self).persists()
                &&& final(store)@ == old(store)@.discarded()
            },
    {
        let synced = manager.finish_push(push, outcome);
        self.step(store, synced)
    }

    /// Hands out the command at the cursor, or commits where none is left.
    fn dispatch(&mut self, store: &mut Draft<IVerge>) -> (next: Progress)
        requires
            old(self).phase() != Phase::Running,
        ensures
            final(self).plan() == old(self).plan(),
            final(self).persists() == old(self).persists(),
            final(self).succeeded() == old(self).succeeded(),
            progress_after(*final(self), old(store)@, final(store)@, next),
    {
        proof {
            use_type_invariant(&*self);
        }
        if self.cursor < self.commands.len() {
            let command = copy_command(&self.commands[self.cursor]);
            self.phase = Phase::Running;
            Progress::Run(command)
        } else {
            store.apply();
            self.phase = Phase::Committed;
            Progress::Commit { persist: self.persist }
        }
    }
}

/// Whether a push of the interface-mode setting that ended with `outcome`
/// fails the step in flight: the engine did not accept it, a command is
/// in flight, and that command can fail.
pub open spec fn fails_step(session: PatchSession, outcome: PushOutcome) -> bool {
    &&& !(outcome is Applied)
    &&& session.phase() == Phase::Running
    &&& !cannot_fail(session.plan()[session.succeeded() as int])
}

/// How a reconciliation goes on once `session` has counted its successes:
/// with the next command while one is left, and the store as it was; else
/// with the commit.
pub open spec fn progress_after(
    session: PatchSession,
    before: DraftView<IVerge>,
    after: DraftView<IVerge>,
    next: Progress,
) -> bool {
    if session.succeeded() < session.plan().len() {
        &&& session.phase() == Phase::Running
        &&& next matches Progress::Run(c)
        &&& c@ == session.plan()[session.succeeded() as int]
        &&& after == before
    } else {
        &&& session.phase() == Phase::Committed
        &&& next == (Progress::Commit { persist: session.persists() })
        &&& after == before.applied()
    }
}

/// What a step does, where the caller reported `reported` of the command
/// in flight.
///
/// A reconciliation that has ended answers `Done` and nothing changes.
/// Otherwise what counts is `command_outcome`: an error ends the
/// reconciliation with the draft rolled back, a success counts and the
/// reconciliation goes on as `progress_after` says.
pub open spec fn stepped(
    before: PatchSession,
    store_before: DraftView<IVerge>,
    reported: Result<(), ControlError>,
    after: PatchSession,
    store_after: DraftView<IVerge>,
    next: Progress,
) -> bool {
    &&& after.plan() == before.plan()
    &&& after.persists() == before.persists()
    &&& if before.phase() != Phase::Running {
        next is Done && after == before && store_after == store_before
    } else {
        match command_outcome(before.plan()[before.succeeded() as int], reported) {
            Err(error) => {
                &&& next == Progress::Abort(error)
                &&& after.phase() == Phase::Discarded
                &&& after.succeeded() == before.succeeded()
                &&& store_after == store_before.discarded()
            },
            Ok(_) => {
                &&& after.succeeded() == before.succeeded() + 1
                &&& progress_after(after, store_before, store_after, next)
            },
        }
    }
}

fn copy_command(command: &Command) -> (copy: Command)
    ensures
        copy@ == command@,
{
    match command {
        Command::RestartCore => Command::RestartCore,
        Command::UpdateClashConfig { sync_tun } => Command::UpdateClashConfig {
            sync_tun: *sync_tun,
        },
        Command::RefreshVerge => Command::RefreshVerge,
        Command::UpdateLaunch => Command::UpdateLaunch,
        Command::UpdateSysProxy => Command::UpdateSysProxy,
        Command::UpdateHotkeys(keys) => Command::UpdateHotkeys(copy_strings(keys)),
        Command::UpdateTrayMenu => Command::UpdateTrayMenu,
        Command::UpdateTrayIcon => Command::UpdateTrayIcon,
        Command::UpdateTrayTooltip => Command::UpdateTrayTooltip,
        Command::UpdateTrayClickBehavior => Command::UpdateTrayClickBehavior,
        Command::SetLightWeight(on) => Command::SetLightWeight(*on),
    }
}

/// Starts the reconciliation of a preferences patch.
///
/// The patch is staged in `store`, the actions that it calls for on
/// `platform` are worked out, and the first of their commands is handed
/// out; a patch that calls for none is committed at once. A field that
/// the patch does not hold is left as it was. With `not_save_file` the
/// commit is not followed by a write to disk.
pub fn patch_verge(
    store: &mut Draft<IVerge>,
    patch: IVerge,
    not_save_file: bool,
    platform: Platform,
) -> (started: (PatchSession, Progress))
    ensures
        started.0.plan() == planned(required_actions(patch@, platform), patch@),
        started.0.succeeded() == 0,
        started.0.persists() == !not_save_file,
        started.0.plan().len() == 0 ==> {
            &&& started.0.phase() == Phase::Committed
            &&& started.1 == (Progress::Commit { persist: !not_save_file })
            &&& final(store)@.pending.is_none()
            &&& final(store)@.committed@ == old(store)@.latest()@.merged(patch@)
        },
        started.0.plan().len() > 0 ==> {
            &&& started.0.phase() == Phase::Running
            &&& started.1 matches Progress::Run(first)
            &&& first@ == started.0.plan()[0]
            &&& final(store)@.committed == old(store)@.committed
            &&& final(store)@.pending.is_some()
            &&& final(store)@.latest()@ == old(store)@.latest()@.merged(patch@)
        },
{
    let flags = analyze_patch(&patch, platform);
    let commands = plan_actions(flags, &patch);
    stage_patch(store, patch);
    let mut session = PatchSession {
        commands,
        cursor: 0,
        phase: Phase::Committed,
        persist: !not_save_file,
    };
    let first = session.dispatch(store);
    (session, first)
}

/// The place of an action in the execution order.
pub open spec fn rank(action: Action) -> int {
    match action {
        Action::RestartCore => 0,
        Action::ClashConfig => 1,
        Action::VergeConfig => 2,
        Action::Launch => 3,
        Action::SysProxy => 4,
        Action::Hotkey => 5,
        Action::SystrayMenu => 6,
        Action::SystrayIcon => 7,
        Action::SystrayTooltip => 8,
        Action::SystrayClickBehavior => 9,
        Action::LightWeight => 10,
    }
}

proof fn lemma_planned_upto(flags: Set<Action>, patch: VergeView, upto: int)
    requires
        0 <= upto <= execution_order().len(),
    ensures
        ({
            let plan = planned_upto(flags, patch, upto);
            &&& forall|i: int|
                0 <= i < plan.len() ==> {
                    &&& rank((#[trigger] plan[i]).action()) < upto
                    &&& flags.contains(plan[i].action())
                    &&& command_for(plan[i].action(), patch) == Some(plan[i])
                }
            &&& forall|i: int, j: int|
                0 <= i < j < plan.len() ==> rank((#[trigger] plan[i]).action()) < rank(
                    (#[trigger] plan[j]).action(),
                )
            &&& forall|action: Action|
                flags.contains(action) && rank(action) < upto && command_for(
                    action,
                    patch,
                ).is_some() ==> plan.contains(#[trigger] command_for(action, patch).unwrap())
        }),
    decreases upto,
{
    if upto > 0 {
        lemma_planned_upto(flags, patch, upto - 1);
        let earlier = planned_upto(flags, patch, upto - 1);
        let plan = planned_upto(flags, patch, upto);
        let action = execution_order()[upto - 1];
        assert(rank(action) == upto - 1);
        assert forall|other: Action|
            flags.contains(other) && rank(other) < upto && command_for(
                other,
                patch,
            ).is_some() implies plan.contains(#[trigger] command_for(other, patch).unwrap()) by {
            let command = command_for(other, patch).unwrap();
            if rank(other) < upto - 1 {
                let k = choose|k: int| 0 <= k < earlier.len() && earlier[k] == command;
                assert(plan[k] == command);
            } else {
                assert(other == action);
                assert(plan[plan.len() - 1] == command);
            }
        }
    }
}

/// The commands of a reconciliation come in the fixed execution order,
/// each action at most once; every command carries out an action of the
/// flags, and every action of the flags that has a command is among them.
pub proof fn lemma_plan_follows_execution_order(flags: Set<Action>, patch: VergeView)
    ensures
        forall|i: int, j: int|
            0 <= i < j < planned(flags, patch).len() ==> rank(
                (#[trigger] planned(flags, patch)[i]).action(),
            ) < rank((#[trigger] planned(flags, patch)[j]).action()),
        forall|i: int|
            0 <= i < planned(flags, patch).len() ==> flags.contains(
                (#[trigger] planned(flags, patch)[i]).action(),
            ),
        forall|action: Action|
            flags.contains(action) && command_for(action, patch).is_some() ==> planned(
                flags,
                patch,
            ).contains(#[trigger] command_for(action, patch).unwrap()),
{
    lemma_planned_upto(flags, patch, execution_order().len() as int);
}

} // verus!
