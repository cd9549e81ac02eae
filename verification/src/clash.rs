use crate::draft::{Draft, DraftView};
use crate::error::ControlError;
use crate::reconcile::Phase;
use serde_yaml_ng::Mapping;
use vstd::prelude::*;

verus! {

/// The mapping type of `serde_yaml_ng`: an ordered map from YAML values to
/// YAML values.
#[verifier::external_type_specification]
#[verifier::external_body]
pub struct ExMapping(serde_yaml_ng::Mapping);

/// The entries that a mapping holds under string keys: `s` is in the
/// domain exactly if the mapping holds an entry whose key is the YAML
/// string `s`, and what stands under `s` is the value of that entry, in the
/// text that `{:?}` gives for it. Entries under keys that are no strings
/// are not in it.
pub uninterp spec fn mapping_string_entries(mapping: Mapping) -> Map<Seq<char>, Seq<char>>;

/// The strings that a mapping has as keys.
pub open spec fn mapping_string_keys(mapping: Mapping) -> Set<Seq<char>> {
    mapping_string_entries(mapping).dom()
}

/// Whether the mapping holds an entry under the string `key`.
///
/// Calls `Mapping::get` with a `&str` index, which looks the key up as a
/// YAML string and finds no entry under a key of another kind.
#[verifier::external_body]
fn mapping_has_key(mapping: &Mapping, key: &str) -> (found: bool)
    ensures
        found == mapping_string_entries(*mapping).dom().contains(key@),
{
    mapping.get(key).is_some()
}

/// A copy of the mapping, made by its `Clone` impl. The copy holds the
/// same entries.
#[verifier::external_body]
fn mapping_clone(mapping: &Mapping) -> (copy: Mapping)
    ensures
        mapping_string_entries(copy) == mapping_string_entries(*mapping),
{
    mapping.clone()
}

/// Merges `patch` into `base` with the `Extend` impl of `Mapping`, which
/// inserts the entries of `patch` one by one: an entry under a key that
/// `base` has already replaces the value there, any other entry is added.
/// So afterwards every key of `patch` holds the value of `patch`, and
/// every other key of `base` holds what it held.
#[verifier::external_body]
fn mapping_extend(base: &mut Mapping, patch: Mapping)
    ensures
        mapping_string_entries(*final(base)) == mapping_string_entries(
            *old(base),
        ).union_prefer_right(mapping_string_entries(patch)),
{
    base.extend(patch);
}

/// One step of the reconciliation of an engine-configuration patch.
#[derive(Clone, Copy, Debug, PartialEq, Eq, Structural)]
pub enum ClashStep {
    /// Regenerate the runtime configuration and restart the engine.
    RestartCore,
    /// Rebuild the tray menu and redraw the tray icon. A failure of either
    /// does not fail the reconciliation.
    RefreshTray,
    /// Merge the patch into the draft of the runtime configuration.
    /// Cannot fail.
    PatchRuntimeConfig,
    /// Push the runtime configuration to the running engine.
    UpdateConfig,
    /// Tell the interface that the engine configuration changed. An event
    /// that the queue refuses does not fail the reconciliation.
    NotifyRefresh,
}

/// Whether a patch with these keys needs the engine restarted: it changes
/// the secret or the address of the control API, which a running engine
/// cannot take over.
pub open spec fn needs_restart(keys: Set<Seq<char>>) -> bool {
    keys.contains("secret"@) || keys.contains("external-controller"@)
}

/// The steps of a reconciliation, in order. Where `changes_mode` holds
/// the tray is refreshed first. Then, with `restart`, the engine is
/// restarted; without it the patch is merged into the runtime
/// configuration and pushed to the running engine. Either way the
/// interface is told last.
pub open spec fn route_plan(restart: bool, changes_mode: bool) -> Seq<ClashStep> {
    let tray = if changes_mode {
        seq![ClashStep::RefreshTray]
    } else {
        Seq::empty()
    };
    let engine = if restart {
        seq![ClashStep::RestartCore]
    } else {
        seq![ClashStep::PatchRuntimeConfig, ClashStep::UpdateConfig]
    };
    tray + engine + seq![ClashStep::NotifyRefresh]
}

/// Which steps a route holds: the restart exactly on the restart route,
/// the merge and the push exactly on the other; the tray refresh exactly
/// where the mode changes; the notification always. No step comes twice.
pub proof fn lemma_route_holds_each_step_once(restart: bool, changes_mode: bool)
    ensures
        route_plan(restart, changes_mode).contains(ClashStep::RestartCore) == restart,
        route_plan(restart, changes_mode).contains(ClashStep::UpdateConfig) == !restart,
        route_plan(restart, changes_mode).contains(ClashStep::PatchRuntimeConfig) == !restart,
        route_plan(restart, changes_mode).contains(ClashStep::RefreshTray) == changes_mode,
        route_plan(restart, changes_mode).contains(ClashStep::NotifyRefresh),
        route_plan(restart, changes_mode).no_duplicates(),
{
    let plan = route_plan(restart, changes_mode);
    let tray: Seq<ClashStep> = if changes_mode {
        seq![ClashStep::RefreshTray]
    } else {
        Seq::empty()
    };
    let engine = if restart {
        seq![ClashStep::RestartCore]
    } else {
        seq![ClashStep::PatchRuntimeConfig, ClashStep::UpdateConfig]
    };
    assert(plan == tray + engine + seq![ClashStep::NotifyRefresh]);
    assert(plan[plan.len() - 1] == ClashStep::NotifyRefresh);
    if changes_mode {
        assert(plan[0] == ClashStep::RefreshTray);
    }
    if restart {
        assert(plan[tray.len() as int] == ClashStep::RestartCore);
    } else {
        assert(plan[tray.len() as int] == ClashStep::PatchRuntimeConfig);
        assert(plan[tray.len() as int + 1] == ClashStep::UpdateConfig);
    }
}

/// The steps that reconcile a patch with these keys, in order. The key
/// `mode` is what changes the tray.
pub open spec fn clash_plan(keys: Set<Seq<char>>) -> Seq<ClashStep> {
    route_plan(needs_restart(keys), keys.contains("mode"@))
}

/// Lists the steps of a reconciliation that restarts the engine or not,
/// and changes the proxy mode or not.
pub fn route_steps(restart: bool, changes_mode: bool) -> (steps: Vec<ClashStep>)
    ensures
        steps@ == route_plan(restart, changes_mode),
{
    let mut steps: Vec<ClashStep> = Vec::new();
    if changes_mode {
        steps.push(ClashStep::RefreshTray);
    }
    if restart {
        steps.push(ClashStep::RestartCore);
    } else {
        steps.push(ClashStep::PatchRuntimeConfig);
        steps.push(ClashStep::UpdateConfig);
    }
    steps.push(ClashStep::NotifyRefresh);
    assert(steps@ =~= route_plan(restart, changes_mode));
    steps
}

/// Lists the steps that reconcile `patch`.
pub fn plan_clash_steps(patch: &Mapping) -> (steps: Vec<ClashStep>)
    ensures
        steps@ == clash_plan(mapping_string_keys(*patch)),
{
    let restart = mapping_has_key(patch, "secret") || mapping_has_key(
        patch,
        "external-controller",
    );
    let changes_mode = mapping_has_key(patch, "mode");
    route_steps(restart, changes_mode)
}

/// Stages a patch of the engine configuration: merges it into the draft
/// of `store`, which starts out as a copy of the committed value where no
/// mutation is in flight yet. Under every key of the patch the draft then
/// holds the value of the patch, under every other key what it held. The
/// committed value stays as it is.
pub fn stage_clash_patch(store: &mut Draft<Mapping>, patch: &Mapping)
    ensures
        final(store)@.committed == old(store)@.committed,
        final(store)@.pending.is_some(),
        mapping_string_entries(final(store)@.latest()) == mapping_string_entries(
            old(store)@.latest(),
        ).union_prefer_right(mapping_string_entries(*patch)),
{
    let mut next = match store.discard() {
        Some(draft) => draft,
        None => mapping_clone(store.data_ref()),
    };
    mapping_extend(&mut next, mapping_clone(patch));
    store.stage(next);
}

/// Whether a failure of the step is tolerated: the refresh of the tray and
/// the notification of the interface are, they never fail a
/// reconciliation.
pub open spec fn tolerates_failure(step: ClashStep) -> bool {
    step == ClashStep::RefreshTray || step == ClashStep::NotifyRefresh
}

/// What counts as the outcome of a step of which the caller reported
/// `reported`.
pub open spec fn clash_step_outcome(step: ClashStep, reported: Result<(), ControlError>) -> Result<
    (),
    ControlError,
> {
    if tolerates_failure(step) {
        Ok(())
    } else {
        reported
    }
}

/// Works out what counts as the outcome of a step: success for a step
/// whose failure is tolerated, whatever was reported; for any other step
/// what was reported.
pub fn clash_step_result(step: ClashStep, reported: Result<(), ControlError>) -> (outcome: Result<
    (),
    ControlError,
>)
    ensures
        outcome == clash_step_outcome(step, reported),
{
    match step {
        ClashStep::RefreshTray => Ok(()),
        ClashStep::NotifyRefresh => Ok(()),
        _ => reported,
    }
}

/// What the caller of an engine-configuration reconciliation does next.
#[derive(Debug, Clone, PartialEq, Eq)]
pub enum ClashProgress {
    /// Carry out this step and report its result with `step`.
    Run(ClashStep),
    /// Every step succeeded and the draft is committed: write the
    /// committed configuration to disk.
    Commit,
    /// A step failed with this error. The draft is rolled back and the
    /// remaining steps are not run.
    Abort(ControlError),
    /// The reconciliation had ended before; nothing was done.
    Done,
}

/// One reconciliation of the engine configuration: the steps of a staged
/// patch, carried out in order until one fails.
pub struct ClashSession {
    steps: Vec<ClashStep>,
    cursor: usize,
    phase: Phase,
}

impl ClashSession {
    #[verifier::type_invariant]
    spec fn cursor_in_plan(self) -> bool {
        &&& self.cursor <= self.steps.len()
        &&& self.phase == Phase::Running ==> self.cursor < self.steps.len()
    }

    /// The steps of the reconciliation, in the order in which they run.
    pub closed spec fn plan(self) -> Seq<ClashStep> {
        self.steps@
    }

    /// How many steps have succeeded.
    pub closed spec fn succeeded(self) -> nat {
        self.cursor as nat
    }

    /// Where the reconciliation stands.
    pub closed spec fn phase(self) -> Phase {
        self.phase
    }

    /// Where the reconciliation stands.
    pub fn current_phase(&self) -> (phase: Phase)
        ensures
            phase == self.phase(),
    {
        self.phase
    }

    /// Reports the result of the step in flight and says what to do next.
    ///
    /// A failure rolls the draft back and ends the reconciliation with
    /// that error, unless the step is one whose failure is tolerated. A
    /// success moves on to the next step; after the last one the draft is
    /// committed. The committed value of `store` changes in that commit
    /// and at no other time.
    pub fn step(&mut self, store: &mut Draft<Mapping>, reported: Result<(), ControlError>) -> (next:
        ClashProgress)
        ensures
            final(self).plan() == old(self).plan(),
            old(self).phase() != Phase::Running ==> next is Done && *final(self) == *old(self)
                && final(store)@ == old(store)@,
            old(self).phase() == Phase::Running ==> match clash_step_outcome(
                old(self).plan()[old(self).succeeded() as int],
                reported,
            ) {
                Err(error) => {
                    &&& next == ClashProgress::Abort(error)
                    &&& final(self).phase() == Phase::Discarded
                    &&& final(self).succeeded() == old(self).succeeded()
                    &&& final(store)@ == old(store)@.discarded()
                },
                Ok(_) => {
                    &&& final(self).succeeded() == old(self).succeeded() + 1
                    &&& clash_progress_after(*final(self), old(store)@, final(store)@, next)
                },
            },
    {
        proof {
            use_type_invariant(&*self);
        }
        match self.phase {
            Phase::Running => {},
            _ => {
                return ClashProgress::Done;
            },
        }
        match clash_step_result(self.steps[self.cursor], reported) {
            Err(error) => {
                store.discard();
                self.phase = Phase::Discarded;
                ClashProgress::Abort(error)
            },
            Ok(_) => {
                self.phase = Phase::Committed;
                self.cursor = self.cursor + 1;
                self.dispatch(store)
            },
        }
    }

    /// Hands out the step at the cursor, or commits where none is left.
    fn dispatch(&mut self, store: &mut Draft<Mapping>) -> (next: ClashProgress)
        requires
            old(self).phase() != Phase::Running,
        ensures
            final(self).plan() == old(self).plan(),
            final(self).succeeded() == old(self).succeeded(),
            clash_progress_after(*final(self), old(store)@, final(store)@, next),
    {
        proof {
            use_type_invariant(&*self);
        }
        if self.cursor < self.steps.len() {
            let step = self.steps[self.cursor];
            self.phase = Phase::Running;
            ClashProgress::Run(step)
        } else {
            store.apply();
            self.phase = Phase::Committed;
            ClashProgress::Commit
        }
    }
}

/// How a reconciliation goes on once `session` has counted its successes:
/// with the next step while one is left, and the store untouched; else
/// with the commit.
pub open spec fn clash_progress_after(
    session: ClashSession,
    before: DraftView<Mapping>,
    after: DraftView<Mapping>,
    next: ClashProgress,
) -> bool {
    if session.succeeded() < session.plan().len() {
        &&& session.phase() == Phase::Running
        &&& next == ClashProgress::Run(session.plan()[session.succeeded() as int])
        &&& after == before
    } else {
        &&& session.phase() == Phase::Committed
        &&& next == ClashProgress::Commit
        &&& after == before.applied()
    }
}

/// Starts the reconciliation of an engine-configuration patch.
///
/// The patch is staged in `store` and the first step is handed out. A
/// patch that holds the key `mode` has the tray refreshed first. One that
/// holds the key `secret` or `external-controller` has the engine
/// restarted; any other is pushed to the running engine.
pub fn patch_clash(store: &mut Draft<Mapping>, patch: &Mapping) -> (started: (
    ClashSession,
    ClashProgress,
))
    ensures
        started.0.plan() == clash_plan(mapping_string_keys(*patch)),
        started.0.succeeded() == 0,
        started.0.phase() == Phase::Running,
        started.1 == ClashProgress::Run(started.0.plan()[0]),
        final(store)@.committed == old(store)@.committed,
        final(store)@.pending.is_some(),
        mapping_string_entries(final(store)@.latest()) == mapping_string_entries(
            old(store)@.latest(),
        ).union_prefer_right(mapping_string_entries(*patch)),
{
    let steps = plan_clash_steps(patch);
    stage_clash_patch(store, patch);
    let mut session = ClashSession { steps, cursor: 0, phase: Phase::Committed };
    let first = session.dispatch(store);
    (session, first)
}

} // verus!
