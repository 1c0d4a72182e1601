use validator_harness::policy::RetryPolicy;
use validator_harness::readiness::{PollStatus, PollStep};
use validator_harness::service::TerminationReport;
use validator_harness::startup::StartAction;
use validator_harness::termination::TerminationOutcome;
use validator_harness::util::{parent_exe_dir, test_ledger_dir};
use validator_harness::validator::{Endpoint, DEFAULT_FAUCET_PORT, DEFAULT_RPC_PORT};
use validator_harness::{TestValidatorService, TestValidatorServiceBuilder};

fn names(parts: &[&str]) -> Vec<String> {
    parts.iter().map(|part| part.to_string()).collect()
}

#[test]
fn builder_defaults() {
    assert_eq!(DEFAULT_RPC_PORT, 8899);
    assert_eq!(DEFAULT_FAUCET_PORT, 9900);
    let builder = TestValidatorServiceBuilder::new("my-test");
    assert_eq!(builder.test_name(), "my-test");
    assert!(builder.needs_ledger());
    let service = builder.build(String::from("/tmp/ledger/my-test"));
    assert_eq!(service.test_name(), "my-test");
    assert_eq!(service.ledger(), "/tmp/ledger/my-test");
    assert_eq!(service.rpc_url(), "http://localhost:8899");
    assert_eq!(service.faucet_addr(), Endpoint { host: [127, 0, 0, 1], port: 9900 });
    assert!(!service.is_running());
}

#[test]
fn default_builder_is_named_after_the_service() {
    assert_eq!(TestValidatorService::builder().test_name(), "test-validator-service");
    assert_eq!(TestValidatorServiceBuilder::default().test_name(), "test-validator-service");
    assert!(TestValidatorService::builder().needs_ledger());
}

#[test]
fn configured_ledger_wins_over_the_fresh_one() {
    let builder = TestValidatorServiceBuilder::new("t").ledger_path("/data/ledger");
    assert!(!builder.needs_ledger());
    let service = builder.build(String::from("/tmp/unused"));
    assert_eq!(service.ledger(), "/data/ledger");
}

#[test]
fn configured_ports_are_used() {
    let service = TestValidatorServiceBuilder::new("t")
        .rpc_port(18899)
        .faucet_port(19900)
        .ledger_path("ledger")
        .build(String::new());
    assert_eq!(service.rpc_url(), "http://localhost:18899");
    assert_eq!(service.faucet_addr(), Endpoint { host: [127, 0, 0, 1], port: 19900 });
    let probe = service.check_availability();
    assert_eq!(probe.endpoint, Endpoint { host: [127, 0, 0, 1], port: 18899 });
    assert_eq!(probe.timeout_ms, 5_000);
}

#[test]
fn setting_one_port_leaves_the_other() {
    let service = TestValidatorServiceBuilder::new("t").faucet_port(1).build(String::from("l"));
    assert_eq!(service.rpc_url(), "http://localhost:8899");
    assert_eq!(service.faucet_addr().port, 1);
    let service = TestValidatorServiceBuilder::new("t").rpc_port(2).build(String::from("l"));
    assert_eq!(service.rpc_url(), "http://localhost:2");
    assert_eq!(service.faucet_addr().port, 9900);
}

#[test]
fn ports_are_written_in_decimal() {
    for port in [0u16, 7, 10, 99, 100, 8899, 10000, 65535] {
        let service = TestValidatorServiceBuilder::new("t").rpc_port(port).build(String::from("l"));
        assert_eq!(service.rpc_url(), format!("http://localhost:{}", port));
    }
}

#[test]
fn launch_arguments() {
    let service = TestValidatorServiceBuilder::new("t")
        .rpc_port(18899)
        .faucet_port(19900)
        .ledger_path("/data/ledger dir")
        .build(String::new());
    assert_eq!(
        service.run(),
        vec!["--ledger", "/data/ledger dir", "--rpc-port", "18899", "--faucet-port", "19900"]
    );
}

#[test]
fn start_grants_fifty_retries() {
    let service = TestValidatorService::builder().build(String::from("l"));
    let mut startup = service.start();
    assert_eq!(startup.pending(), StartAction::Check { after_ms: 0 });
    startup.observe(validator_harness::startup::StartEvent::Checked { available: false });
    startup.observe(validator_harness::startup::StartEvent::Spawned { launched: true });
    let mut checks = 0;
    while let StartAction::Check { .. } = startup.pending() {
        startup.observe(validator_harness::startup::StartEvent::Checked { available: false });
        checks += 1;
        assert!(checks < 100);
    }
    assert_eq!(checks, 51);
}

#[test]
fn start_with_wait_tries_five_succeeds_on_a_late_answer() {
    let service = TestValidatorService::builder().rpc_port(18899).build(String::from("l"));
    let mut startup = service.start_with_wait_tries(5);
    startup.observe(validator_harness::startup::StartEvent::Checked { available: false });
    startup.observe(validator_harness::startup::StartEvent::Spawned { launched: true });
    for available in [false, false, false, true] {
        startup.observe(validator_harness::startup::StartEvent::Checked { available });
    }
    assert_eq!(
        startup.pending(),
        StartAction::Finish(validator_harness::startup::StartOutcome::Started)
    );
    assert_eq!(startup.checks_after_launch(), 4);
}

#[test]
fn wait_for_availability_polls_every_half_second() {
    let service = TestValidatorService::builder().build(String::from("l"));
    let mut poller = service.wait_for_availability(2);
    assert_eq!(poller.record(false), PollStep::Retry { delay_ms: 500 });
    assert_eq!(poller.record(false), PollStep::Retry { delay_ms: 500 });
    assert_eq!(poller.record(false), PollStep::GiveUp);
    assert_eq!(poller.status(), PollStatus::Exhausted);
    assert_eq!(poller.checks(), 3);
}

#[test]
fn terminating_a_service_that_never_started_does_nothing() {
    let mut service = TestValidatorService::builder().build(String::from("l"));
    let report = service.terminate(&RetryPolicy::termination());
    assert_eq!(
        report,
        TerminationReport {
            outcome: TerminationOutcome::NotRunning,
            graceful_signals: 0,
            forced_kills: 0,
            waits: 0,
        }
    );
    assert!(!service.is_running());
    assert_eq!(service.ledger(), "l");
}

#[test]
fn parent_of_executable() {
    assert_eq!(
        parent_exe_dir(names(&["home", "me", "target", "debug", "deps", "suite-0a1b"])),
        names(&["home", "me", "target", "debug"])
    );
    assert_eq!(
        parent_exe_dir(names(&["home", "me", "target", "debug", "suite"])),
        names(&["home", "me", "target", "debug"])
    );
    assert_eq!(parent_exe_dir(names(&["deps", "suite"])), names(&[]));
    assert_eq!(parent_exe_dir(names(&["deps"])), names(&[]));
    assert_eq!(parent_exe_dir(names(&["suite"])), names(&[]));
    assert_eq!(parent_exe_dir(names(&[])), names(&[]));
    assert_eq!(parent_exe_dir(names(&["a", "deps", "deps", "x"])), names(&["a", "deps"]));
}

#[test]
fn ledger_directory_of_a_test() {
    assert_eq!(
        test_ledger_dir(names(&["target", "debug"]), "my-test"),
        names(&["target", "debug", "ledger", "my-test"])
    );
    assert_eq!(test_ledger_dir(names(&[]), "t"), names(&["ledger", "t"]));
}

#[test]
fn cloned_builder_builds_the_same_service() {
    let builder = TestValidatorServiceBuilder::new("t").rpc_port(1234).ledger_path("ledger");
    let copy = builder.clone();
    let first = builder.build(String::new());
    let second = copy.build(String::new());
    assert_eq!(first.rpc_url(), second.rpc_url());
    assert_eq!(first.ledger(), second.ledger());
    assert_eq!(first.test_name(), second.test_name());
    assert_eq!(first.faucet_addr(), second.faucet_addr());
}
