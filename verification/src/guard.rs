use crate::error::ControlError;
use crate::text::{decimal_string, decimal_text};
use vstd::prelude::*;

verus! {

/// The bookkeeping of a guard over a child process: which process it
/// holds, and whether the one termination that it owes was asked for.
///
/// The owner of the process handle asks `kill` on every path on which the
/// guard goes out of use; the process is terminated on the first such
/// call and on no later one.
#[derive(Debug)]
pub struct CommandChildGuard {
    child: Option<u32>,
    terminated: bool,
}

/// State of a `CommandChildGuard`, as mathematical values.
pub ghost struct GuardView {
    /// The process that the guard holds, until it is handed out for
    /// termination.
    pub child: Option<u32>,
    /// Whether the termination was asked for.
    pub terminated: bool,
}

impl GuardView {
    /// The process that a call of `kill` hands out: the one that the
    /// guard holds, unless the termination was asked for before.
    pub open spec fn kill_target(self) -> Option<u32> {
        if self.terminated {
            None
        } else {
            self.child
        }
    }

    /// The state after a call of `kill`.
    pub open spec fn after_kill(self) -> GuardView {
        GuardView {
            child: if self.terminated {
                self.child
            } else {
                None
            },
            terminated: true,
        }
    }
}

impl View for CommandChildGuard {
    type V = GuardView;

    closed spec fn view(&self) -> GuardView {
        GuardView { child: self.child, terminated: self.terminated }
    }
}

/// The text of the error for a termination that the system refused.
pub open spec fn kill_failure_text(pid: u32, reason: Seq<char>) -> Seq<char> {
    "Failed to kill process PID "@ + decimal_text(pid as nat) + ": "@ + reason
}

impl CommandChildGuard {
    /// A guard over the process `pid`.
    pub fn new(pid: u32) -> (guard: Self)
        ensures
            guard@ == (GuardView { child: Some(pid), terminated: false }),
    {
        CommandChildGuard { child: Some(pid), terminated: false }
    }

    /// Asks for the termination of the process.
    ///
    /// The first call marks the guard as terminated and hands out the
    /// process to terminate. Every later call hands out nothing.
    pub fn kill(&mut self) -> (target: Option<u32>)
        ensures
            final(self)@ == old(self)@.after_kill(),
            target == old(self)@.kill_target(),
    {
        if self.terminated {
            return None;
        }
        self.terminated = true;
        self.child.take()
    }

    /// What the guard does when it goes out of use: the same as `kill`.
    pub fn on_drop(&mut self) -> (target: Option<u32>)
        ensures
            final(self)@ == old(self)@.after_kill(),
            target == old(self)@.kill_target(),
    {
        self.kill()
    }

    /// Turns what the system said to the termination of `pid` into a
    /// result of the control plane.
    pub fn kill_result(pid: u32, outcome: Result<(), String>) -> (r: Result<(), ControlError>)
        ensures
            match outcome {
                Ok(_) => r is Ok,
                Err(reason) => r matches Err(ControlError::ExternalProcessFailure(text)) && text@
                    == kill_failure_text(pid, reason@),
            },
    {
        match outcome {
            Ok(_) => Ok(()),
            Err(reason) => {
                let mut text = String::from_str("Failed to kill process PID ");
                let number = decimal_string(pid as u64);
                text.append(number.as_str());
                text.append(": ");
                text.append(reason.as_str());
                Err(ControlError::ExternalProcessFailure(text))
            },
        }
    }

    /// The process that the guard holds.
    pub fn pid(&self) -> (pid: Option<u32>)
        ensures
            pid == self@.child,
    {
        self.child
    }

    /// Whether the termination was asked for.
    pub fn is_terminated(&self) -> (r: bool)
        ensures
            r == self@.terminated,
    {
        self.terminated
    }
}

/// The process of a guard is handed out for termination at most once:
/// after one `kill`, whatever came before it, every further `kill` hands
/// out nothing and changes nothing.
pub proof fn lemma_kill_hands_out_once(state: GuardView)
    ensures
        state.after_kill().kill_target().is_none(),
        state.after_kill().after_kill() == state.after_kill(),
{
}

} // verus!
