use vstd::prelude::*;

verus! {

/// Why an operation of the control plane did not succeed.
#[derive(Debug, Clone, PartialEq, Eq)]
pub enum ControlError {
    /// A privilege or running-mode requirement is not met. Never retried.
    CapabilityDenied(String),
    /// The engine or the helper did not answer in time.
    Timeout(String),
    /// The engine or the helper answered with a failure.
    ExternalProcessFailure(String),
    /// Process enumeration or a probe failed; callers treat it as "nothing found".
    TransientLookupFailure(String),
    /// Writing to disk failed after a successful commit.
    PersistenceFailure(String),
}

impl ControlError {
    /// The text that the error carries.
    pub open spec fn text(self) -> Seq<char> {
        match self {
            ControlError::CapabilityDenied(m) => m@,
            ControlError::Timeout(m) => m@,
            ControlError::ExternalProcessFailure(m) => m@,
            ControlError::TransientLookupFailure(m) => m@,
            ControlError::PersistenceFailure(m) => m@,
        }
    }

    /// The text that the error carries, as shown to the user.
    pub fn message(&self) -> (r: String)
        ensures
            r@ == self.text(),
    {
        match self {
            ControlError::CapabilityDenied(m) => m.clone(),
            ControlError::Timeout(m) => m.clone(),
            ControlError::ExternalProcessFailure(m) => m.clone(),
            ControlError::TransientLookupFailure(m) => m.clone(),
            ControlError::PersistenceFailure(m) => m.clone(),
        }
    }
}

} // verus!
