use validator_harness::policy::RetryPolicy;
use validator_harness::startup::{StartAction, StartEvent, StartOutcome, StartPhase, Startup};

fn checked(available: bool) -> StartEvent {
    StartEvent::Checked { available }
}

#[test]
fn answering_service_is_reused_without_a_launch() {
    let mut startup = Startup::new(&RetryPolicy::readiness(5));
    assert_eq!(startup.pending(), StartAction::Check { after_ms: 0 });
    startup.observe(checked(true));
    assert_eq!(startup.pending(), StartAction::Finish(StartOutcome::Reused));
    assert_eq!(startup.outcome(), Some(StartOutcome::Reused));
    assert!(!startup.spawned());
    assert_eq!(startup.checks_after_launch(), 0);
}

#[test]
fn launch_then_ready_on_second_check() {
    let mut startup = Startup::new(&RetryPolicy::readiness(5));
    startup.observe(checked(false));
    assert_eq!(startup.phase(), StartPhase::Launch);
    assert_eq!(startup.pending(), StartAction::Spawn);
    startup.observe(StartEvent::Spawned { launched: true });
    assert!(startup.spawned());
    assert_eq!(startup.pending(), StartAction::Check { after_ms: 0 });
    startup.observe(checked(false));
    assert_eq!(startup.pending(), StartAction::Check { after_ms: 500 });
    startup.observe(checked(true));
    assert_eq!(startup.pending(), StartAction::Finish(StartOutcome::Started));
    assert_eq!(startup.checks_after_launch(), 2);
}

#[test]
fn failed_launch_is_reported_and_not_tried_again() {
    let mut startup = Startup::new(&RetryPolicy::readiness(5));
    startup.observe(checked(false));
    startup.observe(StartEvent::Spawned { launched: false });
    assert_eq!(startup.pending(), StartAction::Finish(StartOutcome::SpawnFailed));
    startup.observe(StartEvent::Spawned { launched: true });
    assert_eq!(startup.outcome(), Some(StartOutcome::SpawnFailed));
    startup.observe(checked(true));
    assert_eq!(startup.outcome(), Some(StartOutcome::SpawnFailed));
    assert_eq!(startup.checks_after_launch(), 0);
}

#[test]
fn unavailable_after_every_retry_still_owns_the_process() {
    let mut startup = Startup::new(&RetryPolicy::readiness(5));
    startup.observe(checked(false));
    startup.observe(StartEvent::Spawned { launched: true });
    let mut checks = 0;
    while let StartAction::Check { after_ms } = startup.pending() {
        assert_eq!(after_ms, if checks == 0 { 0 } else { 500 });
        startup.observe(checked(false));
        checks += 1;
        assert!(checks <= 6);
    }
    assert_eq!(checks, 6);
    assert_eq!(startup.pending(), StartAction::Finish(StartOutcome::Unavailable));
    assert!(startup.spawned());
    assert_eq!(startup.checks_after_launch(), 6);
}

#[test]
fn event_that_answers_nothing_is_ignored() {
    let mut startup = Startup::new(&RetryPolicy::readiness(1));
    startup.observe(StartEvent::Spawned { launched: true });
    assert_eq!(startup.phase(), StartPhase::Probe);
    assert!(!startup.spawned());
    startup.observe(checked(false));
    startup.observe(checked(true));
    assert_eq!(startup.phase(), StartPhase::Launch);
    startup.observe(StartEvent::Spawned { launched: true });
    startup.observe(StartEvent::Spawned { launched: false });
    assert_eq!(startup.phase(), StartPhase::Poll);
    assert!(startup.spawned());
}
