//! Readiness polling: check the endpoint, and while it refuses, rest and
//! check again, until it accepts a connection or the retries are used up.
//!
//! The poller decides; it connects to nothing and sleeps never. It is told
//! what each check found (`record`) and answers what to do next. The laws at
//! the end of this file count the checks of every polling.

use crate::policy::RetryPolicy;
use vstd::prelude::*;

verus! {

/// Where a polling stands.
#[derive(Clone, Copy, Debug, PartialEq, Eq, Structural)]
pub enum PollStatus {
    /// The endpoint has not accepted yet, and a check is still owed.
    Polling,
    /// A check found the endpoint accepting connections.
    Ready,
    /// Every check failed and no retry is left.
    Exhausted,
}

/// What to do after a check.
#[derive(Clone, Copy, Debug, PartialEq, Eq, Structural)]
pub enum PollStep {
    /// The service is ready: stop, with success.
    Ready,
    /// Rest for `delay_ms` milliseconds, then check again.
    Retry { delay_ms: u32 },
    /// Stop, with failure: collect the diagnostic output.
    GiveUp,
}

/// The mathematical state of a polling.
pub struct PollModel {
    /// Retries granted at the start.
    pub wait_tries: u32,
    /// Retries not yet used.
    pub tries_left: u32,
    /// Milliseconds to rest between two checks.
    pub delay_ms: u32,
    pub status: PollStatus,
    /// Checks recorded so far.
    pub checks: nat,
}

impl PollModel {
    /// The state before the first check.
    pub open spec fn start(wait_tries: u32, delay_ms: u32) -> PollModel {
        PollModel {
            wait_tries,
            tries_left: wait_tries,
            delay_ms,
            status: PollStatus::Polling,
            checks: 0,
        }
    }

    /// The state after a check that found the endpoint `available` or not.
    /// A failed check uses up one retry; with none left it ends the polling.
    /// Once the polling has ended, a check changes nothing.
    pub open spec fn step(self, available: bool) -> PollModel {
        if self.status != PollStatus::Polling {
            self
        } else if available {
            PollModel { status: PollStatus::Ready, checks: self.checks + 1, ..self }
        } else if self.tries_left == 0 {
            PollModel { status: PollStatus::Exhausted, checks: self.checks + 1, ..self }
        } else {
            PollModel {
                tries_left: (self.tries_left - 1) as u32,
                checks: self.checks + 1,
                ..self
            }
        }
    }

    /// What the state asks of the caller.
    pub open spec fn verdict(self) -> PollStep {
        match self.status {
            PollStatus::Polling => PollStep::Retry { delay_ms: self.delay_ms },
            PollStatus::Ready => PollStep::Ready,
            PollStatus::Exhausted => PollStep::GiveUp,
        }
    }

    /// The state after the checks of `probes`, in their order.
    pub open spec fn run(self, probes: Seq<bool>) -> PollModel
        decreases probes.len(),
    {
        if probes.len() == 0 {
            self
        } else {
            self.run(probes.drop_last()).step(probes.last())
        }
    }

    /// What holds of every state that a polling can reach.
    pub open spec fn wf(self) -> bool {
        match self.status {
            PollStatus::Polling => self.tries_left <= self.wait_tries && self.checks
                == self.wait_tries - self.tries_left,
            PollStatus::Ready => self.tries_left <= self.wait_tries && self.checks
                == self.wait_tries - self.tries_left + 1,
            PollStatus::Exhausted => self.tries_left == 0 && self.checks == self.wait_tries + 1,
        }
    }
}

/// A polling in progress: the executable form of `PollModel`.
#[derive(Clone, Copy, Debug)]
pub struct ReadinessPoller {
    wait_tries: u32,
    tries_left: u32,
    delay_ms: u32,
    status: PollStatus,
    checks: u64,
}

impl View for ReadinessPoller {
    type V = PollModel;

    closed spec fn view(&self) -> PollModel {
        PollModel {
            wait_tries: self.wait_tries,
            tries_left: self.tries_left,
            delay_ms: self.delay_ms,
            status: self.status,
            checks: self.checks as nat,
        }
    }
}

impl ReadinessPoller {
    #[verifier::type_invariant]
    spec fn reachable(self) -> bool {
        self@.wf()
    }

    /// A polling that has checked nothing yet, with `policy.max_attempts`
    /// retries and `policy.retry_delay_ms` milliseconds between two checks.
    pub fn new(policy: &RetryPolicy) -> (poller: ReadinessPoller)
        ensures
            poller@ == PollModel::start(policy.max_attempts, policy.retry_delay_ms),
    {
        ReadinessPoller {
            wait_tries: policy.max_attempts,
            tries_left: policy.max_attempts,
            delay_ms: policy.retry_delay_ms,
            status: PollStatus::Polling,
            checks: 0,
        }
    }

    /// Takes note of a check and says what to do next.
    pub fn record(&mut self, available: bool) -> (next: PollStep)
        ensures
            final(self)@ == old(self)@.step(available),
            next == final(self)@.verdict(),
    {
        proof {
            use_type_invariant(&*self);
        }
        match self.status {
            PollStatus::Polling => {
                let status = if available {
                    PollStatus::Ready
                } else if self.tries_left == 0 {
                    PollStatus::Exhausted
                } else {
                    PollStatus::Polling
                };
                let tries_left = if !available && self.tries_left > 0 {
                    self.tries_left - 1
                } else {
                    self.tries_left
                };
                *self =
                ReadinessPoller {
                    wait_tries: self.wait_tries,
                    tries_left,
                    delay_ms: self.delay_ms,
                    status,
                    checks: self.checks + 1,
                };
            },
            _ => {},
        }
        match self.status {
            PollStatus::Polling => PollStep::Retry { delay_ms: self.delay_ms },
            PollStatus::Ready => PollStep::Ready,
            PollStatus::Exhausted => PollStep::GiveUp,
        }
    }

    pub fn status(&self) -> (status: PollStatus)
        ensures
            status == self@.status,
    {
        self.status
    }

    /// Checks recorded so far.
    pub fn checks(&self) -> (count: u64)
        ensures
            count == self@.checks,
    {
        self.checks
    }

    /// Milliseconds to rest between two checks.
    pub fn delay_ms(&self) -> (delay: u32)
        ensures
            delay == self@.delay_ms,
    {
        self.delay_ms
    }

    /// Retries not yet used.
    pub fn tries_left(&self) -> (tries: u32)
        ensures
            tries == self@.tries_left,
    {
        self.tries_left
    }
}

/// Readiness polling used up its retries. Carries what the process wrote to
/// its diagnostic stream, in full.
#[derive(Debug)]
pub struct AvailabilityError {
    /// Retries that were granted.
    pub wait_tries: u32,
    /// The captured diagnostic text.
    pub output: String,
}

/// The text to report for a diagnostic stream that was read to its end
/// (`Ok`, the text read) or could not be read (`Err`, the reason).
pub open spec fn diagnostic_text(captured: Result<String, String>) -> Seq<char> {
    match captured {
        Ok(text) => text@,
        Err(reason) => reason@,
    }
}

impl AvailabilityError {
    /// The error of a polling with `wait_tries` retries, all used up, whose
    /// diagnostic stream gave `captured`. Nothing of the text is cut.
    pub fn new(wait_tries: u32, captured: Result<String, String>) -> (error: AvailabilityError)
        ensures
            error.wait_tries == wait_tries,
            error.output@ == diagnostic_text(captured),
    {
        let output = match captured {
            Ok(text) => text,
            Err(reason) => reason,
        };
        AvailabilityError { wait_tries, output }
    }
}

/// One check takes a reachable state to a reachable state.
pub proof fn lemma_poll_step_preserves_wf(state: PollModel, available: bool)
    requires
        state.wf(),
    ensures
        state.step(available).wf(),
        state.step(available).wait_tries == state.wait_tries,
        state.step(available).delay_ms == state.delay_ms,
{
}

/// While every check fails and retries are left, the polling goes on: after
/// `n` failed checks, `n` no more than the retries granted, it has counted
/// `n` checks and used up `n` retries.
pub proof fn lemma_failed_checks(wait_tries: u32, delay_ms: u32, probes: Seq<bool>, n: nat)
    requires
        n <= wait_tries,
        n <= probes.len(),
        forall|i: int| 0 <= i < n ==> !probes[i],
    ensures
        PollModel::start(wait_tries, delay_ms).run(probes.take(n as int)) == (PollModel {
            tries_left: (wait_tries - n) as u32,
            checks: n,
            ..PollModel::start(wait_tries, delay_ms)
        }),
    decreases n,
{
    let start = PollModel::start(wait_tries, delay_ms);
    if n == 0 {
        assert(probes.take(0).len() == 0);
    } else {
        lemma_failed_checks(wait_tries, delay_ms, probes, (n - 1) as nat);
        assert(probes.take(n as int).drop_last() =~= probes.take(n - 1));
        assert(probes.take(n as int).last() == probes[n - 1]);
    }
}

/// Once a polling has ended, further checks change nothing.
pub proof fn lemma_ended_polling_is_final(state: PollModel, probes: Seq<bool>)
    requires
        state.status != PollStatus::Polling,
    ensures
        state.run(probes) == state,
    decreases probes.len(),
{
    if probes.len() > 0 {
        lemma_ended_polling_is_final(state, probes.drop_last());
    }
}

/// Running a sequence of checks is running its first `n` and then the rest.
pub proof fn lemma_poll_run_split(state: PollModel, probes: Seq<bool>, n: int)
    requires
        0 <= n <= probes.len(),
    ensures
        state.run(probes) == state.run(probes.take(n)).run(probes.skip(n)),
    decreases probes.len() - n,
{
    if n == probes.len() {
        assert(probes.take(n) =~= probes);
        assert(probes.skip(n).len() == 0);
    } else {
        let rest = probes.skip(n);
        lemma_poll_run_split(state, probes.drop_last(), n);
        assert(probes.drop_last().take(n) =~= probes.take(n));
        assert(probes.drop_last().skip(n) =~= rest.drop_last());
        assert(rest.last() == probes.last());
    }
}

/// Success costs exactly the checks up to the first that succeeds: if the
/// `k`-th check is the first to find the endpoint available, and `k` is no
/// more than the retries granted plus one, the polling ends ready with
/// exactly `k` checks counted, however many results follow.
pub proof fn law_ready_on_kth_check(wait_tries: u32, delay_ms: u32, probes: Seq<bool>, k: nat)
    requires
        1 <= k <= wait_tries + 1,
        k <= probes.len(),
        forall|i: int| 0 <= i < k - 1 ==> !probes[i],
        probes[k - 1],
    ensures
        PollModel::start(wait_tries, delay_ms).run(probes).status == PollStatus::Ready,
        PollModel::start(wait_tries, delay_ms).run(probes).checks == k,
{
    let start = PollModel::start(wait_tries, delay_ms);
    let first = probes.take(k as int);
    lemma_failed_checks(wait_tries, delay_ms, probes, (k - 1) as nat);
    assert(first.drop_last() =~= probes.take(k - 1));
    assert(first.last() == probes[k - 1]);
    assert(start.run(first).status == PollStatus::Ready);
    lemma_poll_run_split(start, probes, k as int);
    lemma_ended_polling_is_final(start.run(first), probes.skip(k as int));
}

/// Failure costs exactly the first check and every retry: if the endpoint
/// never becomes available, the polling ends exhausted with exactly
/// `wait_tries + 1` checks counted.
pub proof fn law_exhausted_after_all_checks(wait_tries: u32, delay_ms: u32, probes: Seq<bool>)
    requires
        probes.len() >= wait_tries + 1,
        forall|i: int| 0 <= i < wait_tries + 1 ==> !probes[i],
    ensures
        PollModel::start(wait_tries, delay_ms).run(probes).status == PollStatus::Exhausted,
        PollModel::start(wait_tries, delay_ms).run(probes).checks == wait_tries + 1,
{
    let start = PollModel::start(wait_tries, delay_ms);
    let all = probes.take(wait_tries + 1);
    lemma_failed_checks(wait_tries, delay_ms, probes, wait_tries as nat);
    assert(all.drop_last() =~= probes.take(wait_tries as int));
    assert(all.last() == probes[wait_tries as int]);
    assert(start.run(all).status == PollStatus::Exhausted);
    lemma_poll_run_split(start, probes, wait_tries + 1);
    lemma_ended_polling_is_final(start.run(all), probes.skip(wait_tries + 1));
}

/// Whatever the checks find, a polling counts no more than `wait_tries + 1`
/// of them.
pub proof fn law_checks_are_bounded(wait_tries: u32, delay_ms: u32, probes: Seq<bool>)
    ensures
        PollModel::start(wait_tries, delay_ms).run(probes).wf(),
        PollModel::start(wait_tries, delay_ms).run(probes).wait_tries == wait_tries,
        PollModel::start(wait_tries, delay_ms).run(probes).checks <= wait_tries + 1,
        PollModel::start(wait_tries, delay_ms).run(probes).checks <= probes.len(),
    decreases probes.len(),
{
    if probes.len() > 0 {
        law_checks_are_bounded(wait_tries, delay_ms, probes.drop_last());
        lemma_poll_step_preserves_wf(
            PollModel::start(wait_tries, delay_ms).run(probes.drop_last()),
            probes.last(),
        );
    }
}

} // verus!
