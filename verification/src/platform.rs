use vstd::prelude::*;

verus! {

/// The operating system family that the control plane runs on.
///
/// The control-plane logic never asks the machine which one it is: the
/// caller says so once, and every rule that differs between systems takes
/// the value as an argument.
#[derive(Clone, Copy, Debug, PartialEq, Eq, Structural)]
pub enum Platform {
    Windows,
    MacOs,
    Linux,
}

/// Who supervises the proxy engine process.
#[derive(Clone, Copy, Debug, PartialEq, Eq, Structural)]
pub enum RunningMode {
    /// A privileged helper owns the engine and is reached over IPC.
    Service,
    /// This application spawned the engine and owns the process.
    Sidecar,
}

} // verus!
