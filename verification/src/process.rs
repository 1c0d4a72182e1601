//! The child process as the operating system reports it.
//!
//! Everything here that touches `subprocess::Popen` is believed, not proved:
//! a `Popen` is opaque to the verifier, and what a signal or a wait returns
//! depends on the operating system. The functions therefore promise nothing
//! about their results; the callers are verified for every result. None of
//! the calls panics on a handle that `subprocess` has handed out, whatever
//! the arguments.

use vstd::prelude::*;

verus! {

/// How a process ended.
#[derive(Clone, Copy, Debug, PartialEq, Eq, Structural)]
pub enum ExitStatus {
    /// The process exited with this code.
    Exited(u32),
    /// The process was ended by the signal with this number.
    Signaled(u8),
    /// The raw status fits neither of the above.
    Other(i32),
    /// The process has ended, but its status could not be obtained.
    Undetermined,
}

impl ExitStatus {
    /// True for an exit with code 0, and for nothing else.
    pub open spec fn is_success(self) -> bool {
        self == ExitStatus::Exited(0)
    }

    pub fn success(&self) -> (ok: bool)
        ensures
            ok == self.is_success(),
    {
        match self {
            ExitStatus::Exited(code) => *code == 0,
            _ => false,
        }
    }
}

/// What one bounded wait for the process observed.
#[derive(Clone, Copy, Debug, PartialEq, Eq, Structural)]
pub enum WaitOutcome {
    /// The process ended within the time allowed.
    Exited(ExitStatus),
    /// The time allowed elapsed and the process was still running.
    TimedOut,
    /// The platform failed to carry out the wait.
    Failed,
}

/// `subprocess::Popen`, the handle to a spawned child. Opaque to the verifier.
#[verifier::external_type_specification]
#[verifier::external_body]
pub struct ExPopen(subprocess::Popen);

/// `Popen::pid`: the process id while the handle believes the child is
/// running, `None` once it has recorded the child's end. Nothing is claimed
/// of the value.
#[verifier::external_body]
pub(crate) fn popen_pid(child: &subprocess::Popen) -> (pid: Option<u32>) {
    child.pid()
}

/// `Popen::terminate`: asks the child to stop (SIGTERM on Unix). Returns
/// whether the call reported success; nothing is claimed of that.
#[verifier::external_body]
pub(crate) fn popen_terminate(child: &mut subprocess::Popen) -> (delivered: bool) {
    child.terminate().is_ok()
}

/// `Popen::kill`: ends the child by force (SIGKILL on Unix). Returns whether
/// the call reported success; nothing is claimed of that.
#[verifier::external_body]
pub(crate) fn popen_kill(child: &mut subprocess::Popen) -> (delivered: bool) {
    child.kill().is_ok()
}

/// `Popen::wait_timeout`: waits for the child to end, for roughly no longer
/// than `timeout_ms` milliseconds. Nothing is claimed of the outcome.
#[verifier::external_body]
pub(crate) fn popen_wait_timeout(child: &mut subprocess::Popen, timeout_ms: u32) -> (outcome:
    WaitOutcome) {
    match child.wait_timeout(std::time::Duration::from_millis(u64::from(timeout_ms))) {
        Ok(Some(subprocess::ExitStatus::Exited(code))) => WaitOutcome::Exited(ExitStatus::Exited(code)),
        Ok(Some(subprocess::ExitStatus::Signaled(signal))) => WaitOutcome::Exited(ExitStatus::Signaled(signal)),
        Ok(Some(subprocess::ExitStatus::Other(raw))) => WaitOutcome::Exited(ExitStatus::Other(raw)),
        Ok(Some(subprocess::ExitStatus::Undetermined)) => WaitOutcome::Exited(ExitStatus::Undetermined),
        Ok(None) => WaitOutcome::TimedOut,
        Err(_) => WaitOutcome::Failed,
    }
}

} // verus!
