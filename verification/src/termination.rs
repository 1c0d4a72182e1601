//! The termination state machine: a graceful stop signal, a bounded number
//! of waits with the signal sent again after each that times out, then a
//! forced kill and one last wait.
//!
//! The machine decides; it performs nothing. It names the next action
//! (`pending`), is told what the action observed (`observe`), and counts
//! what it has asked for. Its model, `TerminationModel`, is the mathematical
//! statement of the rules, and the laws at the end of this file hold of every
//! sequence of observations.

use crate::policy::RetryPolicy;
use crate::process::{ExitStatus, WaitOutcome};
use vstd::prelude::*;

verus! {

/// Milliseconds granted to the wait that follows a forced kill.
pub const KILL_WAIT_MS: u32 = 10_000;

/// How a termination ended.
#[derive(Clone, Copy, Debug, PartialEq, Eq, Structural)]
pub enum TerminationOutcome {
    /// No process handle was held: nothing was done.
    NotRunning,
    /// A handle was held, but the process had ended before: nothing was sent.
    AlreadyExited,
    /// The process ended after a graceful stop signal.
    Exited(ExitStatus),
    /// The process ended only after the forced kill.
    Killed(ExitStatus),
    /// The forced kill produced no exit. The process may still be alive.
    Stuck,
}

/// What the last action observed.
#[derive(Clone, Copy, Debug, PartialEq, Eq, Structural)]
pub enum Observation {
    /// Inspection: no process handle is held.
    NoHandle,
    /// Inspection: a handle is held, and the process is known to have ended.
    AlreadyEnded,
    /// Inspection: a handle is held, and the process has an id.
    Live,
    /// A graceful stop signal was attempted. Whether it was delivered is not
    /// consulted.
    StopSent,
    /// A forced kill was attempted.
    KillSent { delivered: bool },
    /// A bounded wait returned.
    Waited(WaitOutcome),
}

/// Where a termination stands.
#[derive(Clone, Copy, Debug, PartialEq, Eq, Structural)]
pub enum Phase {
    /// Nothing done yet: the handle is to be inspected.
    Inspect,
    /// A graceful stop signal is to be sent; `attempts_left` waits remain.
    SendStop { attempts_left: u32 },
    /// A wait is to be made; it is one of the `attempts_left` that remain.
    AwaitExit { attempts_left: u32 },
    /// The waits are used up: the process is to be killed by force.
    SendKill,
    /// The kill was delivered: one last wait decides.
    AwaitKilled,
    /// Nothing is left to do.
    Done(TerminationOutcome),
}

/// The action a termination asks for next.
#[derive(Clone, Copy, Debug, PartialEq, Eq, Structural)]
pub enum Action {
    Inspect,
    SendStop,
    Wait { timeout_ms: u32 },
    SendKill,
    Halt,
}

/// The mathematical state of a termination.
pub struct TerminationModel {
    /// Waits granted before escalation.
    pub max_attempts: u32,
    /// Milliseconds granted to each of those waits.
    pub wait_ms: u32,
    pub phase: Phase,
    /// Graceful stop signals attempted so far.
    pub graceful_signals: nat,
    /// Forced kills attempted so far.
    pub forced_kills: nat,
    /// Waits completed so far.
    pub waits: nat,
}

impl TerminationModel {
    /// The state before anything was done.
    pub open spec fn start(max_attempts: u32, wait_ms: u32) -> TerminationModel {
        TerminationModel {
            max_attempts,
            wait_ms,
            phase: Phase::Inspect,
            graceful_signals: 0,
            forced_kills: 0,
            waits: 0,
        }
    }

    /// The action that the state asks for.
    pub open spec fn pending(self) -> Action {
        match self.phase {
            Phase::Inspect => Action::Inspect,
            Phase::SendStop { .. } => Action::SendStop,
            Phase::AwaitExit { .. } => Action::Wait { timeout_ms: self.wait_ms },
            Phase::SendKill => Action::SendKill,
            Phase::AwaitKilled => Action::Wait { timeout_ms: KILL_WAIT_MS },
            Phase::Done(_) => Action::Halt,
        }
    }

    /// Whether `obs` is something that the pending action can observe.
    pub open spec fn expects(self, obs: Observation) -> bool {
        match self.phase {
            Phase::Inspect => obs is NoHandle || obs is AlreadyEnded || obs is Live,
            Phase::SendStop { .. } => obs is StopSent,
            Phase::AwaitExit { .. } => obs is Waited,
            Phase::SendKill => obs is KillSent,
            Phase::AwaitKilled => obs is Waited,
            Phase::Done(_) => false,
        }
    }

    /// The phase that follows a graceful signal, or a wait that failed, when
    /// `attempts_left` waits remain.
    pub open spec fn wait_or_escalate(attempts_left: u32) -> Phase {
        if attempts_left == 0 {
            Phase::SendKill
        } else {
            Phase::AwaitExit { attempts_left }
        }
    }

    /// The state after `obs`. An observation that the pending action cannot
    /// make leaves the state as it is.
    pub open spec fn step(self, obs: Observation) -> TerminationModel {
        match (self.phase, obs) {
            (Phase::Inspect, Observation::NoHandle) => TerminationModel {
                phase: Phase::Done(TerminationOutcome::NotRunning),
                ..self
            },
            (Phase::Inspect, Observation::AlreadyEnded) => TerminationModel {
                phase: Phase::Done(TerminationOutcome::AlreadyExited),
                ..self
            },
            (Phase::Inspect, Observation::Live) => TerminationModel {
                phase: Phase::SendStop { attempts_left: self.max_attempts },
                ..self
            },
            (Phase::SendStop { attempts_left }, Observation::StopSent) => TerminationModel {
                phase: Self::wait_or_escalate(attempts_left),
                graceful_signals: self.graceful_signals + 1,
                ..self
            },
            (
                Phase::AwaitExit { attempts_left },
                Observation::Waited(WaitOutcome::Exited(status)),
            ) => TerminationModel {
                phase: Phase::Done(TerminationOutcome::Exited(status)),
                waits: self.waits + 1,
                ..self
            },
            (
                Phase::AwaitExit { attempts_left },
                Observation::Waited(WaitOutcome::TimedOut),
            ) => TerminationModel {
                phase: Phase::SendStop { attempts_left: (attempts_left - 1) as u32 },
                waits: self.waits + 1,
                ..self
            },
            (
                Phase::AwaitExit { attempts_left },
                Observation::Waited(WaitOutcome::Failed),
            ) => TerminationModel {
                phase: Self::wait_or_escalate((attempts_left - 1) as u32),
                waits: self.waits + 1,
                ..self
            },
            (Phase::SendKill, Observation::KillSent { delivered }) => TerminationModel {
                phase: if delivered {
                    Phase::AwaitKilled
                } else {
                    Phase::Done(TerminationOutcome::Stuck)
                },
                forced_kills: self.forced_kills + 1,
                ..self
            },
            (
                Phase::AwaitKilled,
                Observation::Waited(WaitOutcome::Exited(status)),
            ) => TerminationModel {
                phase: Phase::Done(TerminationOutcome::Killed(status)),
                waits: self.waits + 1,
                ..self
            },
            (Phase::AwaitKilled, Observation::Waited(_)) => TerminationModel {
                phase: Phase::Done(TerminationOutcome::Stuck),
                waits: self.waits + 1,
                ..self
            },
            _ => self,
        }
    }

    /// The state after the observations of `trace`, in their order.
    pub open spec fn run(self, trace: Seq<Observation>) -> TerminationModel
        decreases trace.len(),
    {
        if trace.len() == 0 {
            self
        } else {
            self.run(trace.drop_last()).step(trace.last())
        }
    }

    /// What holds of every state that a termination can reach: the counters
    /// agree with the phase, no kill is asked for or made before a graceful
    /// signal was attempted, and nothing was sent where no process was found
    /// running.
    pub open spec fn wf(self) -> bool {
        let max = self.max_attempts as nat;
        match self.phase {
            Phase::Inspect => self.graceful_signals == 0 && self.forced_kills == 0 && self.waits
                == 0,
            Phase::SendStop { attempts_left } => {
                &&& attempts_left <= max
                &&& self.waits == max - attempts_left
                &&& self.graceful_signals <= self.waits
                &&& self.forced_kills == 0
                &&& (attempts_left < max ==> self.graceful_signals >= 1)
            },
            Phase::AwaitExit { attempts_left } => {
                &&& 1 <= attempts_left <= max
                &&& self.waits == max - attempts_left
                &&& 1 <= self.graceful_signals <= self.waits + 1
                &&& self.forced_kills == 0
            },
            Phase::SendKill => {
                &&& self.waits == max
                &&& 1 <= self.graceful_signals <= max + 1
                &&& self.forced_kills == 0
            },
            Phase::AwaitKilled => {
                &&& self.waits == max
                &&& 1 <= self.graceful_signals <= max + 1
                &&& self.forced_kills == 1
            },
            Phase::Done(TerminationOutcome::NotRunning) | Phase::Done(
                TerminationOutcome::AlreadyExited,
            ) => self.graceful_signals == 0 && self.forced_kills == 0 && self.waits == 0,
            Phase::Done(TerminationOutcome::Exited(_)) => {
                &&& 1 <= self.waits <= max
                &&& 1 <= self.graceful_signals <= self.waits
                &&& self.forced_kills == 0
            },
            Phase::Done(TerminationOutcome::Killed(_)) => {
                &&& self.waits == max + 1
                &&& 1 <= self.graceful_signals <= max + 1
                &&& self.forced_kills == 1
            },
            Phase::Done(TerminationOutcome::Stuck) => {
                &&& max <= self.waits <= max + 1
                &&& 1 <= self.graceful_signals <= max + 1
                &&& self.forced_kills == 1
            },
        }
    }

    /// An upper bound on the actions that are still to come.
    pub open spec fn budget(self) -> nat {
        match self.phase {
            Phase::Inspect => 2 * (self.max_attempts as nat) + 5,
            Phase::SendStop { attempts_left } => 2 * (attempts_left as nat) + 4,
            Phase::AwaitExit { attempts_left } => 2 * (attempts_left as nat) + 3,
            Phase::SendKill => 2,
            Phase::AwaitKilled => 1,
            Phase::Done(_) => 0,
        }
    }

    /// The outcome, once there is one.
    pub open spec fn outcome(self) -> Option<TerminationOutcome> {
        match self.phase {
            Phase::Done(outcome) => Some(outcome),
            _ => None,
        }
    }
}

/// A termination in progress: the executable form of `TerminationModel`.
///
/// Every value of this type is in a state that the rules can reach
/// (`TerminationModel::wf`); the type keeps that to itself, so that no
/// function here asks anything of its caller.
#[derive(Debug)]
pub struct Termination {
    max_attempts: u32,
    wait_ms: u32,
    phase: Phase,
    graceful_signals: u64,
    forced_kills: u64,
    waits: u64,
}

impl View for Termination {
    type V = TerminationModel;

    closed spec fn view(&self) -> TerminationModel {
        TerminationModel {
            max_attempts: self.max_attempts,
            wait_ms: self.wait_ms,
            phase: self.phase,
            graceful_signals: self.graceful_signals as nat,
            forced_kills: self.forced_kills as nat,
            waits: self.waits as nat,
        }
    }
}

impl Termination {
    #[verifier::type_invariant]
    spec fn reachable(self) -> bool {
        self@.wf()
    }

    /// A termination that has done nothing yet, with the attempts and the
    /// timeout of `policy`.
    pub fn new(policy: &RetryPolicy) -> (machine: Termination)
        ensures
            machine@ == TerminationModel::start(policy.max_attempts, policy.per_attempt_timeout_ms),
    {
        Termination {
            max_attempts: policy.max_attempts,
            wait_ms: policy.per_attempt_timeout_ms,
            phase: Phase::Inspect,
            graceful_signals: 0,
            forced_kills: 0,
            waits: 0,
        }
    }

    /// The action to perform next; `Action::Halt` once nothing is left.
    pub fn pending(&self) -> (action: Action)
        ensures
            action == self@.pending(),
    {
        match self.phase {
            Phase::Inspect => Action::Inspect,
            Phase::SendStop { .. } => Action::SendStop,
            Phase::AwaitExit { .. } => Action::Wait { timeout_ms: self.wait_ms },
            Phase::SendKill => Action::SendKill,
            Phase::AwaitKilled => Action::Wait { timeout_ms: KILL_WAIT_MS },
            Phase::Done(_) => Action::Halt,
        }
    }

    /// Takes note of what the pending action observed.
    pub fn observe(&mut self, obs: Observation)
        ensures
            final(self)@ == old(self)@.step(obs),
    {
        proof {
            use_type_invariant(&*self);
            lemma_step_preserves_wf(self@, obs);
        }
        let mut phase = self.phase;
        let mut graceful_signals = self.graceful_signals;
        let mut forced_kills = self.forced_kills;
        let mut waits = self.waits;
        match self.phase {
            Phase::Inspect => {
                match obs {
                    Observation::NoHandle => {
                        phase = Phase::Done(TerminationOutcome::NotRunning);
                    },
                    Observation::AlreadyEnded => {
                        phase = Phase::Done(TerminationOutcome::AlreadyExited);
                    },
                    Observation::Live => {
                        phase = Phase::SendStop { attempts_left: self.max_attempts };
                    },
                    _ => {},
                }
            },
            Phase::SendStop { attempts_left } => {
                if let Observation::StopSent = obs {
                    phase = wait_or_escalate(attempts_left);
                    graceful_signals = graceful_signals + 1;
                }
            },
            Phase::AwaitExit { attempts_left } => {
                if let Observation::Waited(outcome) = obs {
                    waits = waits + 1;
                    phase =
                    match outcome {
                        WaitOutcome::Exited(status) => Phase::Done(
                            TerminationOutcome::Exited(status),
                        ),
                        WaitOutcome::TimedOut => Phase::SendStop {
                            attempts_left: attempts_left - 1,
                        },
                        WaitOutcome::Failed => wait_or_escalate(attempts_left - 1),
                    };
                }
            },
            Phase::SendKill => {
                if let Observation::KillSent { delivered } = obs {
                    forced_kills = forced_kills + 1;
                    phase =
                    if delivered {
                        Phase::AwaitKilled
                    } else {
                        Phase::Done(TerminationOutcome::Stuck)
                    };
                }
            },
            Phase::AwaitKilled => {
                if let Observation::Waited(outcome) = obs {
                    waits = waits + 1;
                    phase =
                    match outcome {
                        WaitOutcome::Exited(status) => Phase::Done(
                            TerminationOutcome::Killed(status),
                        ),
                        _ => Phase::Done(TerminationOutcome::Stuck),
                    };
                }
            },
            Phase::Done(_) => {},
        }
        *self =
        Termination {
            max_attempts: self.max_attempts,
            wait_ms: self.wait_ms,
            phase,
            graceful_signals,
            forced_kills,
            waits,
        };
    }

    pub fn phase(&self) -> (phase: Phase)
        ensures
            phase == self@.phase,
    {
        self.phase
    }

    /// The outcome, once the termination is done.
    pub fn outcome(&self) -> (outcome: Option<TerminationOutcome>)
        ensures
            outcome == self@.outcome(),
    {
        match self.phase {
            Phase::Done(outcome) => Some(outcome),
            _ => None,
        }
    }

    /// Graceful stop signals attempted so far.
    pub fn graceful_signals(&self) -> (count: u64)
        ensures
            count == self@.graceful_signals,
    {
        self.graceful_signals
    }

    /// Forced kills attempted so far.
    pub fn forced_kills(&self) -> (count: u64)
        ensures
            count == self@.forced_kills,
    {
        self.forced_kills
    }

    /// Waits completed so far.
    pub fn waits(&self) -> (count: u64)
        ensures
            count == self@.waits,
    {
        self.waits
    }
}

/// The phase that follows a graceful signal, or a wait that failed, when
/// `attempts_left` waits remain.
fn wait_or_escalate(attempts_left: u32) -> (phase: Phase)
    ensures
        phase == TerminationModel::wait_or_escalate(attempts_left),
{
    if attempts_left == 0 {
        Phase::SendKill
    } else {
        Phase::AwaitExit { attempts_left }
    }
}

/// One observation takes a reachable state to a reachable state.
pub proof fn lemma_step_preserves_wf(state: TerminationModel, obs: Observation)
    requires
        state.wf(),
    ensures
        state.step(obs).wf(),
        state.step(obs).max_attempts == state.max_attempts,
        state.step(obs).wait_ms == state.wait_ms,
{
}

/// Whatever is observed, and in whatever order, a termination stays in a
/// reachable state.
pub proof fn lemma_run_preserves_wf(state: TerminationModel, trace: Seq<Observation>)
    requires
        state.wf(),
    ensures
        state.run(trace).wf(),
        state.run(trace).max_attempts == state.max_attempts,
        state.run(trace).wait_ms == state.wait_ms,
    decreases trace.len(),
{
    if trace.len() > 0 {
        lemma_run_preserves_wf(state, trace.drop_last());
        lemma_step_preserves_wf(state.run(trace.drop_last()), trace.last());
    }
}

/// Running a trace and then one more observation is running the longer
/// trace.
pub proof fn lemma_run_push(state: TerminationModel, trace: Seq<Observation>, obs: Observation)
    ensures
        state.run(trace.push(obs)) == state.run(trace).step(obs),
{
    assert(trace.push(obs).drop_last() =~= trace);
}

/// The escalation law: a forced kill is never asked for, and never made,
/// before a graceful stop signal was attempted. It holds after every
/// sequence of observations, and so at every moment of every termination.
pub proof fn law_graceful_before_forced(max_attempts: u32, wait_ms: u32, trace: Seq<Observation>)
    ensures
        ({
            let state = TerminationModel::start(max_attempts, wait_ms).run(trace);
            &&& state.pending() == Action::SendKill ==> state.graceful_signals >= 1
            &&& state.forced_kills >= 1 ==> state.graceful_signals >= 1
            &&& state.forced_kills <= 1
            &&& state.graceful_signals <= max_attempts + 1
            &&& state.waits <= max_attempts + 1
        }),
{
    lemma_run_preserves_wf(TerminationModel::start(max_attempts, wait_ms), trace);
}

/// The idempotence law: once a termination is done, no observation changes
/// it. It asks for nothing more, and no signal is added to its counts.
pub proof fn law_done_is_final(state: TerminationModel, trace: Seq<Observation>)
    requires
        state.phase is Done,
    ensures
        state.run(trace) == state,
        state.pending() == Action::Halt,
    decreases trace.len(),
{
    if trace.len() > 0 {
        law_done_is_final(state, trace.drop_last());
    }
}

/// Where no process is found running, nothing is sent: a termination that
/// starts on an absent handle, or on a process that has already ended, is
/// done at once, with all its counts at zero.
pub proof fn law_nothing_sent_without_process(max_attempts: u32, wait_ms: u32, first: Observation)
    requires
        first is NoHandle || first is AlreadyEnded,
    ensures
        ({
            let state = TerminationModel::start(max_attempts, wait_ms).step(first);
            &&& state.phase is Done
            &&& state.outcome() == Some(
                if first is NoHandle {
                    TerminationOutcome::NotRunning
                } else {
                    TerminationOutcome::AlreadyExited
                },
            )
            &&& state.graceful_signals == 0
            &&& state.forced_kills == 0
            &&& state.waits == 0
        }),
{
}

/// Every observation that answers the pending action brings a termination
/// nearer to its end: a termination that is always answered takes at most
/// `2 * max_attempts + 5` actions.
pub proof fn lemma_expected_step_decreases_budget(state: TerminationModel, obs: Observation)
    requires
        state.wf(),
        state.expects(obs),
    ensures
        state.step(obs).budget() < state.budget(),
{
}


/// What a termination observes of a live process that ignores the first
/// `timeouts` graceful signals: the inspection, then as many times a signal
/// and a wait that times out.
pub open spec fn ignored_signals(timeouts: nat) -> Seq<Observation>
    decreases timeouts,
{
    if timeouts == 0 {
        seq![Observation::Live]
    } else {
        ignored_signals((timeouts - 1) as nat).push(Observation::StopSent).push(
            Observation::Waited(WaitOutcome::TimedOut),
        )
    }
}

/// Each wait that times out costs one attempt and one more signal: after
/// `timeouts` of them, no more than the attempts granted, as many signals
/// were sent and as many waits made, and the next signal is due.
pub proof fn lemma_after_ignored_signals(max_attempts: u32, wait_ms: u32, timeouts: nat)
    requires
        timeouts <= max_attempts,
    ensures
        TerminationModel::start(max_attempts, wait_ms).run(ignored_signals(timeouts)) == (
        TerminationModel {
            phase: Phase::SendStop { attempts_left: (max_attempts - timeouts) as u32 },
            graceful_signals: timeouts,
            waits: timeouts,
            ..TerminationModel::start(max_attempts, wait_ms)
        }),
    decreases timeouts,
{
    let start = TerminationModel::start(max_attempts, wait_ms);
    if timeouts == 0 {
        assert(ignored_signals(0).drop_last() =~= Seq::<Observation>::empty());
        reveal_with_fuel(TerminationModel::run, 2);
    } else {
        let before = ignored_signals((timeouts - 1) as nat);
        lemma_after_ignored_signals(max_attempts, wait_ms, (timeouts - 1) as nat);
        lemma_run_push(start, before, Observation::StopSent);
        lemma_run_push(
            start,
            before.push(Observation::StopSent),
            Observation::Waited(WaitOutcome::TimedOut),
        );
    }
}

/// A process that ends on a graceful signal is not killed: if it ignores
/// `timeouts` signals, fewer than the attempts granted, and ends with
/// `status` within the wait after the next, the termination is done with
/// that status, after exactly `timeouts + 1` signals and as many waits, and
/// without a kill.
pub proof fn law_exit_after_timeouts(
    max_attempts: u32,
    wait_ms: u32,
    timeouts: nat,
    status: ExitStatus,
)
    requires
        timeouts < max_attempts,
    ensures
        TerminationModel::start(max_attempts, wait_ms).run(
            ignored_signals(timeouts).push(Observation::StopSent).push(
                Observation::Waited(WaitOutcome::Exited(status)),
            ),
        ) == (TerminationModel {
            phase: Phase::Done(TerminationOutcome::Exited(status)),
            graceful_signals: timeouts + 1,
            waits: timeouts + 1,
            ..TerminationModel::start(max_attempts, wait_ms)
        }),
{
    let start = TerminationModel::start(max_attempts, wait_ms);
    let before = ignored_signals(timeouts);
    lemma_after_ignored_signals(max_attempts, wait_ms, timeouts);
    lemma_run_push(start, before, Observation::StopSent);
    lemma_run_push(
        start,
        before.push(Observation::StopSent),
        Observation::Waited(WaitOutcome::Exited(status)),
    );
}

/// A process that ignores every graceful signal is killed: after as many
/// timeouts as attempts were granted and one signal more, the forced kill is
/// pending, `max_attempts + 1` signals having been sent.
pub proof fn law_kill_after_all_timeouts(max_attempts: u32, wait_ms: u32)
    ensures
        TerminationModel::start(max_attempts, wait_ms).run(
            ignored_signals(max_attempts as nat).push(Observation::StopSent),
        ) == (TerminationModel {
            phase: Phase::SendKill,
            graceful_signals: max_attempts as nat + 1,
            waits: max_attempts as nat,
            ..TerminationModel::start(max_attempts, wait_ms)
        }),
{
    let start = TerminationModel::start(max_attempts, wait_ms);
    lemma_after_ignored_signals(max_attempts, wait_ms, max_attempts as nat);
    lemma_run_push(start, ignored_signals(max_attempts as nat), Observation::StopSent);
}


} // verus!
