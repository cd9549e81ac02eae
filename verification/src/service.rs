use crate::platform::RunningMode;
use vstd::prelude::*;

verus! {

/// How often the privileged helper is tried before the engine is run as a
/// sidecar.
pub const SERVICE_MAX_RETRIES: u32 = 2;

/// Milliseconds between two tries.
pub const SERVICE_RETRY_DELAY_MILLIS: u64 = 300;

/// What a try to reach the privileged helper found.
#[derive(Clone, Copy, Debug, PartialEq, Eq, Structural)]
pub enum ProbeEvent {
    /// The helper's IPC path does not exist.
    PathMissing,
    /// The helper answered and was initialised.
    InitSucceeded,
    /// The path exists but the helper could not be initialised.
    InitFailed,
}

/// What the caller does after a try.
#[derive(Clone, Copy, Debug, PartialEq, Eq, Structural)]
pub enum ProbeAction {
    /// Wait `SERVICE_RETRY_DELAY_MILLIS`, then try again.
    RetryAfterDelay,
    /// The helper is there: refresh its state and run the engine under it.
    AdoptService,
    /// The helper is not there: run the engine as a sidecar.
    FallBackToSidecar,
    /// The probing had ended before; nothing is to be done.
    Nothing,
}

/// The bounded retry that decides, at startup, who supervises the engine.
#[derive(Clone, Copy, Debug, PartialEq, Eq, Structural)]
pub struct ServiceProbe {
    retry_count: u32,
    decided: Option<RunningMode>,
}

/// State of a `ServiceProbe`, as mathematical values.
pub ghost struct ProbeView {
    /// Number of tries that failed.
    pub failures: nat,
    /// The running mode, once it is decided.
    pub decided: Option<RunningMode>,
}

impl ProbeView {
    /// The state after a try that found `event`.
    pub open spec fn after(self, event: ProbeEvent) -> ProbeView {
        if self.decided.is_some() {
            self
        } else if event == ProbeEvent::InitSucceeded {
            ProbeView { decided: Some(RunningMode::Service), ..self }
        } else if self.failures + 1 < SERVICE_MAX_RETRIES {
            ProbeView { failures: self.failures + 1, ..self }
        } else {
            ProbeView { failures: self.failures + 1, decided: Some(RunningMode::Sidecar) }
        }
    }

    /// What the caller does after a try that found `event`.
    pub open spec fn action(self, event: ProbeEvent) -> ProbeAction {
        if self.decided.is_some() {
            ProbeAction::Nothing
        } else {
            match self.after(event).decided {
                Some(RunningMode::Service) => ProbeAction::AdoptService,
                Some(RunningMode::Sidecar) => ProbeAction::FallBackToSidecar,
                None => ProbeAction::RetryAfterDelay,
            }
        }
    }

    /// The state after each of `events` was found in turn.
    pub open spec fn after_all(self, events: Seq<ProbeEvent>) -> ProbeView
        decreases events.len(),
    {
        if events.len() == 0 {
            self
        } else {
            self.after_all(events.drop_last()).after(events.last())
        }
    }
}

impl View for ServiceProbe {
    type V = ProbeView;

    closed spec fn view(&self) -> ProbeView {
        ProbeView { failures: self.retry_count as nat, decided: self.decided }
    }
}

impl ServiceProbe {
    #[verifier::type_invariant]
    spec fn bounded(self) -> bool {
        &&& self.retry_count <= SERVICE_MAX_RETRIES
        &&& self.decided.is_none() ==> self.retry_count < SERVICE_MAX_RETRIES
    }

    /// The running mode, once it is decided.
    pub fn running_mode(&self) -> (mode: Option<RunningMode>)
        ensures
            mode == self@.decided,
    {
        self.decided
    }

    /// Number of tries that failed.
    pub fn retry_count(&self) -> (count: u32)
        ensures
            count == self@.failures,
    {
        self.retry_count
    }

    /// Takes in what a try found and says what to do next.
    ///
    /// A helper that was initialised is adopted. A missing path and a
    /// failed initialisation both count as a failed try: below
    /// `SERVICE_MAX_RETRIES` of them the caller waits and tries again,
    /// at that number the engine is run as a sidecar.
    pub fn on_event(&mut self, event: ProbeEvent) -> (action: ProbeAction)
        ensures
            final(self)@ == old(self)@.after(event),
            action == old(self)@.action(event),
    {
        proof {
            use_type_invariant(&*self);
        }
        if self.decided.is_some() {
            return ProbeAction::Nothing;
        }
        match event {
            ProbeEvent::InitSucceeded => {
                self.decided = Some(RunningMode::Service);
                ProbeAction::AdoptService
            },
            _ => {
                let failures = self.retry_count + 1;
                if failures < SERVICE_MAX_RETRIES {
                    self.retry_count = failures;
                    ProbeAction::RetryAfterDelay
                } else {
                    self.decided = Some(RunningMode::Sidecar);
                    self.retry_count = failures;
                    ProbeAction::FallBackToSidecar
                }
            },
        }
    }
}

/// Starts the probing for the privileged helper: nothing has failed and
/// nothing is decided. The caller makes the first try at once.
pub fn init_service_manager() -> (probe: ServiceProbe)
    ensures
        probe@ == (ProbeView { failures: 0, decided: None }),
{
    ServiceProbe { retry_count: 0, decided: None }
}

/// The probing is bounded: however the tries end, the number of failed
/// ones never passes `SERVICE_MAX_RETRIES`, and once that many have failed
/// the running mode is decided.
pub proof fn lemma_probing_is_bounded(events: Seq<ProbeEvent>)
    ensures
        ({
            let end = (ProbeView { failures: 0, decided: None }).after_all(events);
            &&& end.failures <= SERVICE_MAX_RETRIES
            &&& end.failures == SERVICE_MAX_RETRIES ==> end.decided.is_some()
            &&& end.decided.is_none() ==> end.failures == events.len()
        }),
    decreases events.len(),
{
    if events.len() > 0 {
        lemma_probing_is_bounded(events.drop_last());
    }
}

/// Once the running mode is decided, no later try changes it.
pub proof fn lemma_decision_is_final(state: ProbeView, event: ProbeEvent)
    requires
        state.decided.is_some(),
    ensures
        state.after(event) == state,
        state.action(event) == ProbeAction::Nothing,
{
}

} // verus!
