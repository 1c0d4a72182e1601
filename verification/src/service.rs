//! One supervised service process: the handle, and what may be done with it.

use crate::policy::RetryPolicy;
use crate::process::{popen_kill, popen_pid, popen_terminate, popen_wait_timeout, ExitStatus, WaitOutcome};
use crate::termination::{
    lemma_expected_step_decreases_budget, lemma_run_preserves_wf, lemma_run_push, Action,
    Observation, Phase, Termination, TerminationModel, TerminationOutcome, KILL_WAIT_MS,
};
use vstd::prelude::*;

verus! {

/// Why a bounded wait gave no exit status.
#[derive(Clone, Copy, Debug, PartialEq, Eq, Structural)]
pub enum WaitError {
    /// The time allowed elapsed and the process was still running.
    Timeout,
    /// The platform failed to carry out the wait.
    Platform,
}

/// Why a forced kill gave no exit status.
#[derive(Clone, Copy, Debug, PartialEq, Eq, Structural)]
pub enum KillError {
    /// The kill signal could not be sent.
    NotDelivered,
    /// The signal was sent, but the wait that followed gave no exit.
    NoExit(WaitError),
}

/// What a termination did and how it ended.
#[derive(Clone, Copy, Debug, PartialEq, Eq, Structural)]
pub struct TerminationReport {
    pub outcome: TerminationOutcome,
    /// Graceful stop signals attempted.
    pub graceful_signals: u64,
    /// Forced kills attempted.
    pub forced_kills: u64,
    /// Waits completed.
    pub waits: u64,
}

impl TerminationReport {
    /// Whether this is the report of the finished termination `state`.
    pub open spec fn sums_up(self, state: TerminationModel) -> bool {
        &&& state.phase == Phase::Done(self.outcome)
        &&& self.graceful_signals == state.graceful_signals
        &&& self.forced_kills == state.forced_kills
        &&& self.waits == state.waits
    }

    /// Whether this is the report of a termination that began with the
    /// attempts and the timeout of `policy` and observed `trace`.
    pub open spec fn is_of_run(self, policy: RetryPolicy, trace: Seq<Observation>) -> bool {
        self.sums_up(
            TerminationModel::start(policy.max_attempts, policy.per_attempt_timeout_ms).run(trace),
        )
    }

    /// The report of a termination that found nothing to terminate.
    pub open spec fn idle() -> TerminationReport {
        TerminationReport {
            outcome: TerminationOutcome::NotRunning,
            graceful_signals: 0,
            forced_kills: 0,
            waits: 0,
        }
    }
}

/// The result of a wait that was to see the process end.
pub open spec fn finish_result(outcome: WaitOutcome) -> Result<ExitStatus, WaitError> {
    match outcome {
        WaitOutcome::Exited(status) => Ok(status),
        WaitOutcome::TimedOut => Err(WaitError::Timeout),
        WaitOutcome::Failed => Err(WaitError::Platform),
    }
}

/// Turns what a wait observed into the result of waiting for the end of the
/// process: the exit status where one was seen, else the reason why not.
pub fn finish_outcome(outcome: WaitOutcome) -> (result: Result<ExitStatus, WaitError>)
    ensures
        result == finish_result(outcome),
{
    match outcome {
        WaitOutcome::Exited(status) => Ok(status),
        WaitOutcome::TimedOut => Err(WaitError::Timeout),
        WaitOutcome::Failed => Err(WaitError::Platform),
    }
}

/// The result of a forced kill: `delivered` says whether the signal could be
/// sent, `outcome` what the wait after it observed (not consulted where the
/// signal was not sent).
pub open spec fn kill_result(delivered: bool, outcome: WaitOutcome) -> Result<
    ExitStatus,
    KillError,
> {
    if !delivered {
        Err(KillError::NotDelivered)
    } else {
        match finish_result(outcome) {
            Ok(status) => Ok(status),
            Err(error) => Err(KillError::NoExit(error)),
        }
    }
}

/// The mathematical content of a `TestServiceProcess`.
pub struct ServiceProcessView {
    /// Whether a process handle is held.
    pub running: bool,
    pub service_name: Seq<char>,
    pub test_name: Seq<char>,
}

/// A service process that belongs to one test.
///
/// It holds at most one process handle. Holding a handle says that a process
/// was launched, not that it is still alive.
#[derive(Debug)]
pub struct TestServiceProcess {
    child: Option<subprocess::Popen>,
    service_name: &'static str,
    test_name: String,
}

impl View for TestServiceProcess {
    type V = ServiceProcessView;

    closed spec fn view(&self) -> ServiceProcessView {
        ServiceProcessView {
            running: self.child is Some,
            service_name: self.service_name@,
            test_name: self.test_name@,
        }
    }
}

impl TestServiceProcess {
    pub fn new(service_name: &'static str, test_name: &str, child: Option<subprocess::Popen>) -> (
        process: TestServiceProcess
    )
        ensures
            process@.running == (child is Some),
            process@.service_name == service_name@,
            process@.test_name == test_name@,
    {
        TestServiceProcess { child, service_name, test_name: test_name.to_owned() }
    }

    pub fn test_name(&self) -> (name: &str)
        ensures
            name@ == self@.test_name,
    {
        self.test_name.as_str()
    }

    pub fn service_name(&self) -> (name: &'static str)
        ensures
            name@ == self@.service_name,
    {
        self.service_name
    }

    /// Takes over `child`. A handle held before is let go, not terminated.
    pub fn set_child(&mut self, child: subprocess::Popen)
        ensures
            final(self)@ == (ServiceProcessView { running: true, ..old(self)@ }),
    {
        self.child = Some(child);
    }

    /// True iff a process handle is held.
    pub fn is_running(&self) -> (running: bool)
        ensures
            running == self@.running,
    {
        self.child.is_some()
    }

    /// Waits up to `timeout_ms` milliseconds for the process to end. A
    /// process that is still running then is left running, and the handle is
    /// kept whatever the wait observes.
    pub fn wait(&mut self, timeout_ms: u32) -> (result: Result<ExitStatus, WaitError>)
        requires
            old(self)@.running,
        ensures
            final(self)@ == old(self)@,
    {
        match self.child.take() {
            Some(mut child) => {
                let outcome = popen_wait_timeout(&mut child, timeout_ms);
                self.child = Some(child);
                finish_outcome(outcome)
            },
            None => Err(WaitError::Platform),
        }
    }

    /// Waits up to ten seconds for the process to end, as `wait` does.
    pub fn wait_for_finish(&mut self) -> (result: Result<ExitStatus, WaitError>)
        requires
            old(self)@.running,
        ensures
            final(self)@ == old(self)@,
    {
        self.wait(KILL_WAIT_MS)
    }

    /// Kills the process by force, at once and with no graceful signal
    /// first, then waits up to ten seconds for it to end. The handle is kept
    /// whatever happens.
    pub fn kill(&mut self) -> (result: Result<ExitStatus, KillError>)
        requires
            old(self)@.running,
        ensures
            final(self)@ == old(self)@,
    {
        match self.child.take() {
            Some(mut child) => {
                let delivered = popen_kill(&mut child);
                if delivered {
                    let outcome = popen_wait_timeout(&mut child, KILL_WAIT_MS);
                    self.child = Some(child);
                    kill_outcome(true, outcome)
                } else {
                    self.child = Some(child);
                    Err(KillError::NotDelivered)
                }
            },
            None => Err(KillError::NotDelivered),
        }
    }

    /// Terminates the process: a graceful stop signal, up to
    /// `policy.max_attempts` waits of `policy.per_attempt_timeout_ms`
    /// milliseconds with the signal sent again after each that times out,
    /// then a forced kill and a last wait of ten seconds.
    ///
    /// Whatever the process and the platform do, the report is that of a run
    /// of the termination rules, and the handle is let go unless the process
    /// is stuck. Without a handle nothing is done.
    pub fn terminate(&mut self, policy: &RetryPolicy) -> (report: TerminationReport)
        ensures
            exists|trace: Seq<Observation>| #[trigger] report.is_of_run(*policy, trace),
            !old(self)@.running ==> report == TerminationReport::idle(),
            old(self)@.running ==> report.outcome != TerminationOutcome::NotRunning,
            final(self)@.running == (report.outcome == TerminationOutcome::Stuck),
            final(self)@.service_name == old(self)@.service_name,
            final(self)@.test_name == old(self)@.test_name,
            report.forced_kills >= 1 ==> report.graceful_signals >= 1,
            report.forced_kills <= 1,
            report.graceful_signals <= policy.max_attempts + 1,
            report.waits <= policy.max_attempts + 1,
    {
        let ghost start = TerminationModel::start(
            policy.max_attempts,
            policy.per_attempt_timeout_ms,
        );
        let ghost mut trace = Seq::<Observation>::empty();
        let mut machine = Termination::new(policy);
        match self.child.take() {
            None => {
                proof {
                    lemma_run_push(start, trace, Observation::NoHandle);
                    trace = trace.push(Observation::NoHandle);
                }
                machine.observe(Observation::NoHandle);
            },
            Some(mut child) => {
                loop
                    invariant
                        start == TerminationModel::start(
                            policy.max_attempts,
                            policy.per_attempt_timeout_ms,
                        ),
                        machine@ == start.run(trace),
                        machine@.phase != Phase::Done(TerminationOutcome::NotRunning),
                    ensures
                        machine@.phase is Done,
                    decreases machine@.budget(),
                {
                    let action = machine.pending();
                    if let Action::Halt = action {
                        break ;
                    }
                    let obs = match action {
                        Action::Inspect => inspect(popen_pid(&child)),
                        Action::SendStop => {
                            popen_terminate(&mut child);
                            Observation::StopSent
                        },
                        Action::Wait { timeout_ms } => Observation::Waited(
                            popen_wait_timeout(&mut child, timeout_ms),
                        ),
                        Action::SendKill => Observation::KillSent {
                            delivered: popen_kill(&mut child),
                        },
                        Action::Halt => Observation::NoHandle,
                    };
                    proof {
                        lemma_run_preserves_wf(start, trace);
                        lemma_expected_step_decreases_budget(machine@, obs);
                        lemma_run_push(start, trace, obs);
                        trace = trace.push(obs);
                    }
                    machine.observe(obs);
                }
                if let Some(TerminationOutcome::Stuck) = machine.outcome() {
                    self.child = Some(child);
                }
            },
        }
        proof {
            lemma_run_preserves_wf(start, trace);
        }
        let report = TerminationReport {
            outcome: match machine.outcome() {
                Some(outcome) => outcome,
                None => TerminationOutcome::NotRunning,
            },
            graceful_signals: machine.graceful_signals(),
            forced_kills: machine.forced_kills(),
            waits: machine.waits(),
        };
        assert(report.is_of_run(*policy, trace));
        report
    }
}

/// Reads the process id that a held handle reports, as `inspected` says.
fn inspect(pid: Option<u32>) -> (obs: Observation)
    ensures
        obs == inspected(pid),
{
    match pid {
        Some(_) => Observation::Live,
        None => Observation::AlreadyEnded,
    }
}

/// What the inspection of a held handle observes, given the process id that
/// the handle reports: a process with an id is live, one without has ended.
pub open spec fn inspected(pid: Option<u32>) -> Observation {
    match pid {
        Some(_) => Observation::Live,
        None => Observation::AlreadyEnded,
    }
}

/// Turns what a forced kill and the wait after it observed into the result
/// of the kill.
pub fn kill_outcome(delivered: bool, outcome: WaitOutcome) -> (result: Result<
    ExitStatus,
    KillError,
>)
    ensures
        result == kill_result(delivered, outcome),
{
    if !delivered {
        Err(KillError::NotDelivered)
    } else {
        match finish_outcome(outcome) {
            Ok(status) => Ok(status),
            Err(error) => Err(KillError::NoExit(error)),
        }
    }
}

} // verus!
