use crate::error::ControlError;
use crate::platform::{Platform, RunningMode};
use vstd::prelude::*;

verus! {

/// The text of the error that refuses a privileged operation.
pub open spec fn elevation_text(platform: Platform) -> Seq<char> {
    if platform == Platform::Windows {
        "This operation requires Service Mode or Administrator privileges"@
    } else {
        "This operation requires Service Mode or root privileges"@
    }
}

/// Turns the answer of the operating system's privilege query into a
/// result of the control plane: the answer itself, or the failure of the
/// query with its reason.
pub fn check_admin_privileges(query: Result<bool, String>) -> (r: Result<bool, ControlError>)
    ensures
        match query {
            Ok(elevated) => r == Ok::<bool, ControlError>(elevated),
            Err(reason) => r matches Err(ControlError::TransientLookupFailure(text)) && text@
                == "Failed to check privilege level: "@ + reason@,
        },
{
    match query {
        Ok(elevated) => Ok(elevated),
        Err(reason) => {
            let mut text = String::from_str("Failed to check privilege level: ");
            text.append(reason.as_str());
            Err(ControlError::TransientLookupFailure(text))
        },
    }
}

/// Checks that a privileged operation may go ahead: the engine runs under
/// the privileged helper, or this process is elevated.
///
/// Under the helper the answer of the privilege query does not count, not
/// even its failure. Otherwise a failed query fails the check with the
/// query's error, and a process that is not elevated is refused.
pub fn check_elevated_privileges(
    running_mode: RunningMode,
    query: Result<bool, String>,
    platform: Platform,
) -> (r: Result<(), ControlError>)
    ensures
        running_mode == RunningMode::Service ==> r is Ok,
        running_mode != RunningMode::Service ==> match query {
            Ok(true) => r is Ok,
            Ok(false) => r matches Err(ControlError::CapabilityDenied(text)) && text@
                == elevation_text(platform),
            Err(reason) => r matches Err(ControlError::TransientLookupFailure(text)) && text@
                == "Failed to check privilege level: "@ + reason@,
        },
{
    match running_mode {
        RunningMode::Service => {
            return Ok(());
        },
        RunningMode::Sidecar => {},
    }
    let is_admin = match check_admin_privileges(query) {
        Ok(elevated) => elevated,
        Err(error) => {
            return Err(error);
        },
    };
    if !is_admin {
        let text = match platform {
            Platform::Windows => String::from_str(
                "This operation requires Service Mode or Administrator privileges",
            ),
            _ => String::from_str("This operation requires Service Mode or root privileges"),
        };
        return Err(ControlError::CapabilityDenied(text));
    }
    Ok(())
}

} // verus!
