//! Starting the service: probe the endpoint and reuse a service that
//! already answers; else launch the binary, once, and poll until it answers
//! or the retries are used up.
//!
//! Like the poller it is built on, a `Startup` decides and performs
//! nothing: it names the next action and is told what the action found.

use crate::policy::RetryPolicy;
use crate::readiness::{
    lemma_poll_step_preserves_wf, PollModel, PollStatus, ReadinessPoller,
};
use vstd::prelude::*;

verus! {

/// How a start ended.
#[derive(Clone, Copy, Debug, PartialEq, Eq, Structural)]
pub enum StartOutcome {
    /// A service was already answering: nothing was launched.
    Reused,
    /// The binary was launched and the service answered.
    Started,
    /// The binary could not be launched. This is not tried again.
    SpawnFailed,
    /// The binary was launched, and readiness polling used up its retries.
    /// The process is still owned, and still to be terminated.
    Unavailable,
}

/// Where a start stands.
#[derive(Clone, Copy, Debug, PartialEq, Eq, Structural)]
pub enum StartPhase {
    /// The endpoint is to be probed, before anything is launched.
    Probe,
    /// Nothing answered: the binary is to be launched.
    Launch,
    /// The binary runs: readiness is polled.
    Poll,
    /// Nothing is left to do.
    Done(StartOutcome),
}

/// What the last action found.
#[derive(Clone, Copy, Debug, PartialEq, Eq, Structural)]
pub enum StartEvent {
    /// A check of the endpoint returned.
    Checked { available: bool },
    /// A launch of the binary returned.
    Spawned { launched: bool },
}

/// The action a start asks for next.
#[derive(Clone, Copy, Debug, PartialEq, Eq, Structural)]
pub enum StartAction {
    /// Rest for `after_ms` milliseconds, then check the endpoint.
    Check { after_ms: u32 },
    /// Launch the binary and keep its handle.
    Spawn,
    /// Stop, with this outcome.
    Finish(StartOutcome),
}

/// The mathematical state of a start.
pub struct StartModel {
    pub phase: StartPhase,
    /// The readiness polling that follows a launch.
    pub poll: PollModel,
    /// Launches attempted so far.
    pub spawns: nat,
}

impl StartModel {
    /// The state before anything was done.
    pub open spec fn start(wait_tries: u32, delay_ms: u32) -> StartModel {
        StartModel {
            phase: StartPhase::Probe,
            poll: PollModel::start(wait_tries, delay_ms),
            spawns: 0,
        }
    }

    /// The phase in which a polling with this status leaves the start.
    pub open spec fn phase_of(status: PollStatus) -> StartPhase {
        match status {
            PollStatus::Polling => StartPhase::Poll,
            PollStatus::Ready => StartPhase::Done(StartOutcome::Started),
            PollStatus::Exhausted => StartPhase::Done(StartOutcome::Unavailable),
        }
    }

    /// The action that the state asks for. The first check of a polling is
    /// made at once; each later one after the polling's delay.
    pub open spec fn pending(self) -> StartAction {
        match self.phase {
            StartPhase::Probe => StartAction::Check { after_ms: 0 },
            StartPhase::Launch => StartAction::Spawn,
            StartPhase::Poll => StartAction::Check {
                after_ms: if self.poll.checks == 0 {
                    0
                } else {
                    self.poll.delay_ms
                },
            },
            StartPhase::Done(outcome) => StartAction::Finish(outcome),
        }
    }

    /// The state after `event`. An event that the pending action cannot
    /// bring leaves the state as it is.
    pub open spec fn step(self, event: StartEvent) -> StartModel {
        match (self.phase, event) {
            (StartPhase::Probe, StartEvent::Checked { available }) => StartModel {
                phase: if available {
                    StartPhase::Done(StartOutcome::Reused)
                } else {
                    StartPhase::Launch
                },
                ..self
            },
            (StartPhase::Launch, StartEvent::Spawned { launched }) => StartModel {
                phase: if launched {
                    StartPhase::Poll
                } else {
                    StartPhase::Done(StartOutcome::SpawnFailed)
                },
                spawns: self.spawns + 1,
                ..self
            },
            (StartPhase::Poll, StartEvent::Checked { available }) => StartModel {
                phase: Self::phase_of(self.poll.step(available).status),
                poll: self.poll.step(available),
                ..self
            },
            _ => self,
        }
    }

    /// The state after the events of `trace`, in their order.
    pub open spec fn run(self, trace: Seq<StartEvent>) -> StartModel
        decreases trace.len(),
    {
        if trace.len() == 0 {
            self
        } else {
            self.run(trace.drop_last()).step(trace.last())
        }
    }

    /// What holds of every state that a start can reach: the binary is
    /// launched at most once, never where a service was found answering,
    /// and nothing is polled before the launch.
    pub open spec fn wf(self) -> bool {
        &&& self.poll.wf()
        &&& match self.phase {
            StartPhase::Probe | StartPhase::Launch | StartPhase::Done(StartOutcome::Reused) => {
                self.spawns == 0 && self.poll.checks == 0 && self.poll.status
                    == PollStatus::Polling
            },
            StartPhase::Done(StartOutcome::SpawnFailed) => {
                self.spawns == 1 && self.poll.checks == 0 && self.poll.status
                    == PollStatus::Polling
            },
            StartPhase::Poll => self.spawns == 1 && self.poll.status == PollStatus::Polling,
            StartPhase::Done(StartOutcome::Started) => self.spawns == 1 && self.poll.status
                == PollStatus::Ready,
            StartPhase::Done(StartOutcome::Unavailable) => self.spawns == 1 && self.poll.status
                == PollStatus::Exhausted,
        }
    }

    /// The outcome, once there is one.
    pub open spec fn outcome(self) -> Option<StartOutcome> {
        match self.phase {
            StartPhase::Done(outcome) => Some(outcome),
            _ => None,
        }
    }
}

/// A start in progress: the executable form of `StartModel`.
#[derive(Debug)]
pub struct Startup {
    phase: StartPhase,
    poller: ReadinessPoller,
    spawned: bool,
}

impl View for Startup {
    type V = StartModel;

    closed spec fn view(&self) -> StartModel {
        StartModel {
            phase: self.phase,
            poll: self.poller@,
            spawns: if self.spawned {
                1
            } else {
                0
            },
        }
    }
}

impl Startup {
    #[verifier::type_invariant]
    spec fn reachable(self) -> bool {
        self@.wf()
    }

    /// A start that has done nothing yet; its polling gets
    /// `policy.max_attempts` retries, `policy.retry_delay_ms` milliseconds
    /// apart.
    pub fn new(policy: &RetryPolicy) -> (startup: Startup)
        ensures
            startup@ == StartModel::start(policy.max_attempts, policy.retry_delay_ms),
    {
        Startup { phase: StartPhase::Probe, poller: ReadinessPoller::new(policy), spawned: false }
    }

    /// The action to perform next.
    pub fn pending(&self) -> (action: StartAction)
        ensures
            action == self@.pending(),
    {
        match self.phase {
            StartPhase::Probe => StartAction::Check { after_ms: 0 },
            StartPhase::Launch => StartAction::Spawn,
            StartPhase::Poll => {
                if self.poller.checks() == 0 {
                    StartAction::Check { after_ms: 0 }
                } else {
                    StartAction::Check { after_ms: self.poller.delay_ms() }
                }
            },
            StartPhase::Done(outcome) => StartAction::Finish(outcome),
        }
    }

    /// Takes note of what the pending action found.
    pub fn observe(&mut self, event: StartEvent)
        ensures
            final(self)@ == old(self)@.step(event),
    {
        proof {
            use_type_invariant(&*self);
            lemma_start_step_preserves_wf(self@, event);
        }
        match (self.phase, event) {
            (StartPhase::Probe, StartEvent::Checked { available }) => {
                let phase = if available {
                    StartPhase::Done(StartOutcome::Reused)
                } else {
                    StartPhase::Launch
                };
                *self = Startup { phase, poller: self.poller, spawned: self.spawned };
            },
            (StartPhase::Launch, StartEvent::Spawned { launched }) => {
                let phase = if launched {
                    StartPhase::Poll
                } else {
                    StartPhase::Done(StartOutcome::SpawnFailed)
                };
                *self = Startup { phase, poller: self.poller, spawned: true };
            },
            (StartPhase::Poll, StartEvent::Checked { available }) => {
                let mut poller = self.poller;
                poller.record(available);
                let phase = match poller.status() {
                    PollStatus::Polling => StartPhase::Poll,
                    PollStatus::Ready => StartPhase::Done(StartOutcome::Started),
                    PollStatus::Exhausted => StartPhase::Done(StartOutcome::Unavailable),
                };
                *self = Startup { phase, poller, spawned: self.spawned };
            },
            _ => {},
        }
    }

    pub fn phase(&self) -> (phase: StartPhase)
        ensures
            phase == self@.phase,
    {
        self.phase
    }

    /// The outcome, once the start is done.
    pub fn outcome(&self) -> (outcome: Option<StartOutcome>)
        ensures
            outcome == self@.outcome(),
    {
        match self.phase {
            StartPhase::Done(outcome) => Some(outcome),
            _ => None,
        }
    }

    /// Checks made since the launch.
    pub fn checks_after_launch(&self) -> (count: u64)
        ensures
            count == self@.poll.checks,
    {
        self.poller.checks()
    }

    /// Whether the binary was launched, or a launch attempted.
    pub fn spawned(&self) -> (spawned: bool)
        ensures
            spawned == (self@.spawns == 1),
    {
        self.spawned
    }
}

/// One event takes a reachable state to a reachable state.
pub proof fn lemma_start_step_preserves_wf(state: StartModel, event: StartEvent)
    requires
        state.wf(),
    ensures
        state.step(event).wf(),
        state.step(event).poll.wait_tries == state.poll.wait_tries,
        state.step(event).poll.delay_ms == state.poll.delay_ms,
{
    if let StartEvent::Checked { available } = event {
        lemma_poll_step_preserves_wf(state.poll, available);
    }
}

/// The reuse law: whatever happens, the binary is launched at most once;
/// a start that found a service answering launched nothing; and a start that
/// ends started or unavailable did launch, so that a process is owned and
/// must be terminated.
pub proof fn law_launch_at_most_once(wait_tries: u32, delay_ms: u32, trace: Seq<StartEvent>)
    ensures
        ({
            let state = StartModel::start(wait_tries, delay_ms).run(trace);
            &&& state.wf()
            &&& state.poll.wait_tries == wait_tries
            &&& state.poll.delay_ms == delay_ms
            &&& state.spawns <= 1
            &&& state.phase == StartPhase::Done(StartOutcome::Reused) ==> state.spawns == 0
            &&& state.phase == StartPhase::Done(StartOutcome::Started) ==> state.spawns == 1
            &&& state.phase == StartPhase::Done(StartOutcome::Unavailable) ==> state.spawns == 1
                && state.poll.checks == wait_tries + 1
            &&& state.poll.checks <= wait_tries + 1
        }),
    decreases trace.len(),
{
    if trace.len() > 0 {
        law_launch_at_most_once(wait_tries, delay_ms, trace.drop_last());
        lemma_start_step_preserves_wf(
            StartModel::start(wait_tries, delay_ms).run(trace.drop_last()),
            trace.last(),
        );
    }
}

/// A service that already answers is reused: if the first check succeeds,
/// the start is done at once and asks for no launch.
pub proof fn law_answering_service_is_reused(wait_tries: u32, delay_ms: u32)
    ensures
        ({
            let state = StartModel::start(wait_tries, delay_ms).step(
                StartEvent::Checked { available: true },
            );
            &&& state.pending() == StartAction::Finish(StartOutcome::Reused)
            &&& state.spawns == 0
        }),
{
}

/// Once a start is done, no event changes it.
pub proof fn law_done_start_is_final(state: StartModel, trace: Seq<StartEvent>)
    requires
        state.phase is Done,
    ensures
        state.run(trace) == state,
    decreases trace.len(),
{
    if trace.len() > 0 {
        law_done_start_is_final(state, trace.drop_last());
    }
}

/// The events that checks with the results `probes` bring, in their order.
pub open spec fn checks(probes: Seq<bool>) -> Seq<StartEvent> {
    Seq::new(probes.len(), |i: int| StartEvent::Checked { available: probes[i] })
}

/// After the launch a start is its polling: the checks that a start is told
/// of are those that its polling counts, and the phase of the start is the
/// one that the polling leaves it in.
pub proof fn lemma_start_follows_polling(state: StartModel, probes: Seq<bool>)
    requires
        state.phase == StartModel::phase_of(state.poll.status),
    ensures
        state.run(checks(probes)).poll == state.poll.run(probes),
        state.run(checks(probes)).phase == StartModel::phase_of(state.poll.run(probes).status),
        state.run(checks(probes)).spawns == state.spawns,
    decreases probes.len(),
{
    if probes.len() > 0 {
        lemma_start_follows_polling(state, probes.drop_last());
        assert(checks(probes).drop_last() =~= checks(probes.drop_last()));
        assert(checks(probes).last() == StartEvent::Checked { available: probes.last() });
    } else {
        assert(checks(probes).len() == 0);
    }
}

/// The events of a start that finds nothing answering, launches the binary
/// and then checks with the results `probes`.
pub open spec fn launch_then_check(probes: Seq<bool>) -> Seq<StartEvent> {
    seq![
        StartEvent::Checked { available: false },
        StartEvent::Spawned { launched: true },
    ] + checks(probes)
}

/// Running one sequence of events and then another is running the two on
/// end.
pub proof fn lemma_start_run_concat(state: StartModel, first: Seq<StartEvent>, rest: Seq<StartEvent>)
    ensures
        state.run(first + rest) == state.run(first).run(rest),
    decreases rest.len(),
{
    if rest.len() == 0 {
        assert(first + rest =~= first);
    } else {
        lemma_start_run_concat(state, first, rest.drop_last());
        assert((first + rest).drop_last() =~= first + rest.drop_last());
        assert((first + rest).last() == rest.last());
    }
}

/// A start succeeds when the service answers in time: if nothing answers at
/// first, the launch succeeds, and the `k`-th check after it is the first to
/// find the service available, `k` no more than the retries granted plus
/// one, the start ends started, after one launch and exactly `k` checks
/// since.
pub proof fn law_start_succeeds_when_service_answers(
    wait_tries: u32,
    delay_ms: u32,
    probes: Seq<bool>,
    k: nat,
)
    requires
        1 <= k <= wait_tries + 1,
        k <= probes.len(),
        forall|i: int| 0 <= i < k - 1 ==> !probes[i],
        probes[k - 1],
    ensures
        ({
            let end = StartModel::start(wait_tries, delay_ms).run(launch_then_check(probes));
            &&& end.phase == StartPhase::Done(StartOutcome::Started)
            &&& end.spawns == 1
            &&& end.poll.checks == k
        }),
{
    let start = StartModel::start(wait_tries, delay_ms);
    let launch = seq![
        StartEvent::Checked { available: false },
        StartEvent::Spawned { launched: true },
    ];
    let launched = start.run(launch);
    assert(launched == (StartModel { phase: StartPhase::Poll, spawns: 1, ..start })) by {
        assert(launch.drop_last() =~= seq![StartEvent::Checked { available: false }]);
        assert(launch.drop_last().drop_last() =~= Seq::<StartEvent>::empty());
        reveal_with_fuel(StartModel::run, 3);
    }
    lemma_start_run_concat(start, launch, checks(probes));
    lemma_start_follows_polling(launched, probes);
    crate::readiness::law_ready_on_kth_check(wait_tries, delay_ms, probes, k);
}

/// A start fails when the service never answers: if nothing answers at
/// first, the launch succeeds, and every check after it fails, the start
/// ends unavailable after exactly the first check and every retry, with the
/// process launched and still to be terminated.
pub proof fn law_start_fails_when_service_never_answers(
    wait_tries: u32,
    delay_ms: u32,
    probes: Seq<bool>,
)
    requires
        probes.len() >= wait_tries + 1,
        forall|i: int| 0 <= i < wait_tries + 1 ==> !probes[i],
    ensures
        ({
            let end = StartModel::start(wait_tries, delay_ms).run(launch_then_check(probes));
            &&& end.phase == StartPhase::Done(StartOutcome::Unavailable)
            &&& end.spawns == 1
            &&& end.poll.checks == wait_tries + 1
        }),
{
    let start = StartModel::start(wait_tries, delay_ms);
    let launch = seq![
        StartEvent::Checked { available: false },
        StartEvent::Spawned { launched: true },
    ];
    let launched = start.run(launch);
    assert(launched == (StartModel { phase: StartPhase::Poll, spawns: 1, ..start })) by {
        assert(launch.drop_last() =~= seq![StartEvent::Checked { available: false }]);
        assert(launch.drop_last().drop_last() =~= Seq::<StartEvent>::empty());
        reveal_with_fuel(StartModel::run, 3);
    }
    lemma_start_run_concat(start, launch, checks(probes));
    lemma_start_follows_polling(launched, probes);
    crate::readiness::law_exhausted_after_all_checks(wait_tries, delay_ms, probes);
}


} // verus!
