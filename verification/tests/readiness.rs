use validator_harness::policy::{
    RetryPolicy, SERVICE_RETRY_DELAY_MS, SERVICE_WAIT_TIMEOUT_MS, SERVICE_WAIT_TRIES,
    TERMINATION_ATTEMPTS, TERMINATION_WAIT_MS,
};
use validator_harness::readiness::{AvailabilityError, PollStatus, PollStep, ReadinessPoller};

/// Feeds the poller the results in `probes` until it stops asking, and
/// returns how many it took.
fn drive(poller: &mut ReadinessPoller, probes: &[bool]) -> (usize, PollStep) {
    let mut taken = 0;
    for available in probes {
        taken += 1;
        let next = poller.record(*available);
        if next != (PollStep::Retry { delay_ms: 500 }) {
            return (taken, next);
        }
    }
    (taken, PollStep::Retry { delay_ms: 500 })
}

#[test]
fn policy_defaults() {
    assert_eq!(SERVICE_WAIT_TRIES, 50);
    assert_eq!(SERVICE_WAIT_TIMEOUT_MS, 5_000);
    assert_eq!(SERVICE_RETRY_DELAY_MS, 500);
    assert_eq!(TERMINATION_ATTEMPTS, 10);
    assert_eq!(TERMINATION_WAIT_MS, 2_000);
    assert_eq!(
        RetryPolicy::termination(),
        RetryPolicy { max_attempts: 10, per_attempt_timeout_ms: 2_000, retry_delay_ms: 0 }
    );
    assert_eq!(
        RetryPolicy::readiness(7),
        RetryPolicy { max_attempts: 7, per_attempt_timeout_ms: 5_000, retry_delay_ms: 500 }
    );
    assert_eq!(
        RetryPolicy::new(1, 2, 3),
        RetryPolicy { max_attempts: 1, per_attempt_timeout_ms: 2, retry_delay_ms: 3 }
    );
}

#[test]
fn ready_at_once_needs_one_check_and_no_rest() {
    let mut poller = ReadinessPoller::new(&RetryPolicy::readiness(5));
    assert_eq!(poller.status(), PollStatus::Polling);
    assert_eq!(poller.checks(), 0);
    assert_eq!(poller.record(true), PollStep::Ready);
    assert_eq!(poller.status(), PollStatus::Ready);
    assert_eq!(poller.checks(), 1);
    assert_eq!(poller.tries_left(), 5);
}

#[test]
fn ready_on_third_check_takes_exactly_three() {
    let mut poller = ReadinessPoller::new(&RetryPolicy::readiness(5));
    let (taken, last) = drive(&mut poller, &[false, false, true, true, false, true]);
    assert_eq!(taken, 3);
    assert_eq!(last, PollStep::Ready);
    assert_eq!(poller.checks(), 3);
    assert_eq!(poller.tries_left(), 3);
}

#[test]
fn ready_on_every_possible_check() {
    for wait_tries in 0..6u32 {
        for k in 1..=(wait_tries as usize + 1) {
            let mut probes = vec![false; k - 1];
            probes.push(true);
            probes.extend([false, true, false]);
            let mut poller = ReadinessPoller::new(&RetryPolicy::readiness(wait_tries));
            let (taken, last) = drive(&mut poller, &probes);
            assert_eq!(taken, k);
            assert_eq!(last, PollStep::Ready);
            assert_eq!(poller.checks(), k as u64);
        }
    }
}

#[test]
fn never_available_takes_the_first_check_and_every_retry() {
    let mut poller = ReadinessPoller::new(&RetryPolicy::readiness(5));
    let (taken, last) = drive(&mut poller, &[false; 20]);
    assert_eq!(taken, 6);
    assert_eq!(last, PollStep::GiveUp);
    assert_eq!(poller.status(), PollStatus::Exhausted);
    assert_eq!(poller.checks(), 6);
    assert_eq!(poller.tries_left(), 0);
}

#[test]
fn success_on_the_check_after_the_last_retry_comes_too_late() {
    let mut poller = ReadinessPoller::new(&RetryPolicy::readiness(2));
    let (taken, last) = drive(&mut poller, &[false, false, false, true]);
    assert_eq!(taken, 3);
    assert_eq!(last, PollStep::GiveUp);
    assert_eq!(poller.record(true), PollStep::GiveUp);
    assert_eq!(poller.checks(), 3);
}

#[test]
fn zero_retries_give_one_check() {
    let mut poller = ReadinessPoller::new(&RetryPolicy::readiness(0));
    assert_eq!(poller.record(false), PollStep::GiveUp);
    assert_eq!(poller.checks(), 1);

    let mut lucky = ReadinessPoller::new(&RetryPolicy::readiness(0));
    assert_eq!(lucky.record(true), PollStep::Ready);
    assert_eq!(lucky.checks(), 1);
}

#[test]
fn failed_check_asks_for_the_delay_of_the_policy() {
    let mut poller = ReadinessPoller::new(&RetryPolicy::new(3, 5_000, 125));
    assert_eq!(poller.delay_ms(), 125);
    assert_eq!(poller.record(false), PollStep::Retry { delay_ms: 125 });
    assert_eq!(poller.tries_left(), 2);
    assert_eq!(poller.checks(), 1);
}

#[test]
fn ended_polling_counts_no_more_checks() {
    let mut poller = ReadinessPoller::new(&RetryPolicy::readiness(4));
    poller.record(false);
    poller.record(true);
    assert_eq!(poller.checks(), 2);
    assert_eq!(poller.record(false), PollStep::Ready);
    assert_eq!(poller.record(true), PollStep::Ready);
    assert_eq!(poller.checks(), 2);
    assert_eq!(poller.tries_left(), 3);
}

#[test]
fn availability_error_carries_the_whole_output() {
    let text = "line one\nline two\n\tpanicked at 'boom'\n".repeat(200);
    let error = AvailabilityError::new(5, Ok(text.clone()));
    assert_eq!(error.wait_tries, 5);
    assert_eq!(error.output, text);
    assert_eq!(error.output.len(), text.len());
}

#[test]
fn availability_error_reports_why_the_output_could_not_be_read() {
    let error = AvailabilityError::new(0, Err(String::from("broken pipe")));
    assert_eq!(error.wait_tries, 0);
    assert_eq!(error.output, "broken pipe");
}
