use crate::draft::Draft;
use crate::error::ControlError;
use crate::guard::{CommandChildGuard, GuardView};
use crate::platform::RunningMode;
use crate::tun::PushOutcome;
use vstd::prelude::*;

verus! {

/// Seconds that a push of the runtime configuration to the engine may take.
pub const CONFIG_PUSH_TIMEOUT_SECS: u64 = 10;

/// What the caller does to the engine.
#[derive(Clone, Copy, Debug, PartialEq, Eq, Structural)]
pub enum CoreAction {
    /// Nothing: the engine is already in the state asked for.
    Nothing,
    /// Spawn the engine executable as a child of this application.
    SpawnSidecar,
    /// Wait a short while, then spawn the engine executable again.
    RetrySpawnAfterDelay,
    /// Terminate the child process with this id.
    KillSidecar(u32),
    /// Ask the privileged helper to run the engine.
    StartByService,
    /// Ask the privileged helper to stop the engine.
    StopByService,
}

/// State of the engine controller, as mathematical values.
pub ghost struct CoreView {
    /// Who supervises the engine.
    pub mode: RunningMode,
    /// Whether the engine is taken to be up.
    pub engine_up: bool,
    /// The guard over the child process, in sidecar mode.
    pub child: Option<GuardView>,
    /// Number of starts that failed in a row.
    pub start_failures: nat,
    /// Number of failed starts after which a sidecar is spawned again.
    pub max_spawn_retries: nat,
}

impl CoreView {
    /// What starting the engine asks of the caller.
    pub open spec fn start_action(self) -> CoreAction {
        if self.engine_up {
            CoreAction::Nothing
        } else if self.mode == RunningMode::Service {
            CoreAction::StartByService
        } else {
            CoreAction::SpawnSidecar
        }
    }

    /// What stopping the engine asks of the caller. An engine that is
    /// down already asks for nothing.
    pub open spec fn stop_action(self) -> CoreAction {
        if !self.engine_up {
            CoreAction::Nothing
        } else if self.mode == RunningMode::Service {
            CoreAction::StopByService
        } else {
            match self.child {
                Some(guard) => match guard.kill_target() {
                    Some(pid) => CoreAction::KillSidecar(pid),
                    None => CoreAction::Nothing,
                },
                None => CoreAction::Nothing,
            }
        }
    }

    /// The state after the engine was stopped.
    pub open spec fn stopped(self) -> CoreView {
        if !self.engine_up {
            self
        } else {
            CoreView { engine_up: false, child: None, ..self }
        }
    }

    /// Whether a failed start is followed by another try: only a sidecar
    /// is spawned again, and only while fewer than the allowed number of
    /// starts have failed in a row before this one.
    pub open spec fn retries_after_failure(self) -> bool {
        self.mode == RunningMode::Sidecar && self.start_failures < self.max_spawn_retries
    }
}

/// Owns the running mode of the engine and decides what is done to the
/// engine process; the caller does it.
pub struct CoreManager {
    running_mode: RunningMode,
    engine_up: bool,
    child: Option<CommandChildGuard>,
    start_failures: u32,
    max_spawn_retries: u32,
}

impl View for CoreManager {
    type V = CoreView;

    closed spec fn view(&self) -> CoreView {
        CoreView {
            mode: self.running_mode,
            engine_up: self.engine_up,
            child: match self.child {
                Some(guard) => Some(guard@),
                None => None,
            },
            start_failures: self.start_failures as nat,
            max_spawn_retries: self.max_spawn_retries as nat,
        }
    }
}

impl CoreManager {
    /// A controller for an engine that is down, supervised as `mode` says.
    /// The mode stays as it is until `init` is called again.
    pub fn init(mode: RunningMode, max_spawn_retries: u32) -> (manager: Self)
        ensures
            manager@ == (CoreView {
                mode,
                engine_up: false,
                child: None,
                start_failures: 0,
                max_spawn_retries: max_spawn_retries as nat,
            }),
    {
        CoreManager {
            running_mode: mode,
            engine_up: false,
            child: None,
            start_failures: 0,
            max_spawn_retries,
        }
    }

    /// Who supervises the engine.
    pub fn get_running_mode(&self) -> (mode: RunningMode)
        ensures
            mode == self@.mode,
    {
        self.running_mode
    }

    /// Whether the engine is taken to be up.
    pub fn is_engine_up(&self) -> (up: bool)
        ensures
            up == self@.engine_up,
    {
        self.engine_up
    }

    /// The id of the child process, while this application supervises one.
    pub fn child_pid(&self) -> (pid: Option<u32>)
        ensures
            pid == match self@.child {
                Some(guard) => guard.child,
                None => None,
            },
    {
        match &self.child {
            Some(guard) => guard.pid(),
            None => None,
        }
    }

    /// Says how to start the engine. Nothing changes until the caller
    /// reports the outcome with `start_result`.
    pub fn start_core(&self) -> (action: CoreAction)
        ensures
            action == self@.start_action(),
    {
        if self.engine_up {
            CoreAction::Nothing
        } else {
            match self.running_mode {
                RunningMode::Service => CoreAction::StartByService,
                RunningMode::Sidecar => CoreAction::SpawnSidecar,
            }
        }
    }

    /// Takes in how a start ended.
    ///
    /// A start that worked puts the engine up; `started` holds the id of
    /// the child process where one was spawned. A start that failed is
    /// tried again where `retries_after_failure` holds; otherwise the
    /// failure is final and comes back as an error: the engine is
    /// unavailable, the application goes on.
    pub fn start_result(&mut self, started: Result<Option<u32>, String>) -> (next: Result<
        CoreAction,
        ControlError,
    >)
        ensures
            match started {
                Ok(pid) => {
                    &&& next == Ok::<CoreAction, ControlError>(CoreAction::Nothing)
                    &&& final(self)@ == (CoreView {
                        engine_up: true,
                        child: match pid {
                            Some(id) => Some(GuardView { child: Some(id), terminated: false }),
                            None => None,
                        },
                        start_failures: 0,
                        ..old(self)@
                    })
                },
                Err(reason) => if old(self)@.retries_after_failure() {
                    &&& next == Ok::<CoreAction, ControlError>(CoreAction::RetrySpawnAfterDelay)
                    &&& final(self)@ == (CoreView {
                        start_failures: old(self)@.start_failures + 1,
                        ..old(self)@
                    })
                } else {
                    &&& next == Err::<CoreAction, ControlError>(
                        ControlError::ExternalProcessFailure(reason),
                    )
                    &&& final(self)@ == (CoreView { start_failures: 0, ..old(self)@ })
                },
            },
    {
        match started {
            Ok(pid) => {
                self.start_failures = 0;
                self.engine_up = true;
                self.child = match pid {
                    Some(id) => Some(CommandChildGuard::new(id)),
                    None => None,
                };
                Ok(CoreAction::Nothing)
            },
            Err(reason) => {
                let sidecar = match self.running_mode {
                    RunningMode::Sidecar => true,
                    RunningMode::Service => false,
                };
                if sidecar && self.start_failures < self.max_spawn_retries {
                    self.start_failures = self.start_failures + 1;
                    Ok(CoreAction::RetrySpawnAfterDelay)
                } else {
                    self.start_failures = 0;
                    Err(ControlError::ExternalProcessFailure(reason))
                }
            },
        }
    }

    /// Stops the engine and says what the caller has to do for it. An
    /// engine that is down already is left alone, so the call is safe
    /// during shutdown.
    pub fn stop_core(&mut self) -> (action: CoreAction)
        ensures
            action == old(self)@.stop_action(),
            final(self)@ == old(self)@.stopped(),
    {
        if !self.engine_up {
            return CoreAction::Nothing;
        }
        self.engine_up = false;
        let child = self.child.take();
        match self.running_mode {
            RunningMode::Service => CoreAction::StopByService,
            RunningMode::Sidecar => match child {
                Some(mut guard) => match guard.kill() {
                    Some(pid) => CoreAction::KillSidecar(pid),
                    None => CoreAction::Nothing,
                },
                None => CoreAction::Nothing,
            },
        }
    }

    /// Restarts the engine: stops it, then says how to start it. The
    /// first action is that of `stop_core`, the second that of
    /// `start_core` on the stopped engine.
    pub fn restart_core(&mut self) -> (actions: (CoreAction, CoreAction))
        ensures
            actions.0 == old(self)@.stop_action(),
            actions.1 == old(self)@.stopped().start_action(),
            final(self)@ == old(self)@.stopped(),
    {
        let stop = self.stop_core();
        let start = self.start_core();
        (stop, start)
    }

    /// Settles the runtime configuration after a push of its draft to
    /// the engine.
    ///
    /// A push that the engine accepted commits the draft. One that timed
    /// out or was refused rolls it back and comes back as an error, which
    /// the caller of a reconciliation treats as a failed action.
    pub fn update_config<T>(runtime: &mut Draft<T>, outcome: PushOutcome) -> (r: Result<
        (),
        ControlError,
    >)
        ensures
            match outcome {
                PushOutcome::Applied => r is Ok && final(runtime)@ == old(runtime)@.applied(),
                PushOutcome::TimedOut => r matches Err(ControlError::Timeout(text)) && text@
                    == "engine configuration push timed out"@ && final(runtime)@ == old(
                    runtime,
                )@.discarded(),
                PushOutcome::Failed(message) => r == Err::<(), ControlError>(
                    ControlError::ExternalProcessFailure(message),
                ) && final(runtime)@ == old(runtime)@.discarded(),
            },
    {
        match outcome {
            PushOutcome::Applied => {
                runtime.apply();
                Ok(())
            },
            PushOutcome::TimedOut => {
                runtime.discard();
                Err(ControlError::Timeout(String::from_str("engine configuration push timed out")))
            },
            PushOutcome::Failed(message) => {
                runtime.discard();
                Err(ControlError::ExternalProcessFailure(message))
            },
        }
    }
}

/// Stopping is idempotent: an engine that was stopped asks for nothing
/// when it is stopped again, and stays as it is.
pub proof fn lemma_stop_is_idempotent(state: CoreView)
    ensures
        state.stopped().stop_action() == CoreAction::Nothing,
        state.stopped().stopped() == state.stopped(),
{
}

/// A restart always asks for a start: the stopped engine is never taken
/// to be up.
pub proof fn lemma_restart_starts(state: CoreView)
    ensures
        state.stopped().start_action() != CoreAction::Nothing,
{
}

} // verus!
