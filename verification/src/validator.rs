//! The test validator: its configuration, what it is launched with, and
//! where it is reached.

use crate::policy::{RetryPolicy, SERVICE_WAIT_TIMEOUT_MS, SERVICE_WAIT_TRIES};
use crate::readiness::ReadinessPoller;
use crate::service::{TerminationReport, TestServiceProcess};
use crate::startup::Startup;
use crate::termination::TerminationOutcome;
use vstd::prelude::*;

verus! {

/// The port of the RPC endpoint where none is configured.
pub const DEFAULT_RPC_PORT: u16 = 8899;

/// The port of the faucet where none is configured.
pub const DEFAULT_FAUCET_PORT: u16 = 9900;

/// The decimal digit `d`, for `d` below ten.
pub open spec fn digit(d: nat) -> char {
    if d == 0 {
        '0'
    } else if d == 1 {
        '1'
    } else if d == 2 {
        '2'
    } else if d == 3 {
        '3'
    } else if d == 4 {
        '4'
    } else if d == 5 {
        '5'
    } else if d == 6 {
        '6'
    } else if d == 7 {
        '7'
    } else if d == 8 {
        '8'
    } else {
        '9'
    }
}

/// `n` written in decimal digits, without a sign and without leading zeros.
pub open spec fn decimal(n: nat) -> Seq<char>
    decreases n,
{
    if n < 10 {
        seq![digit(n)]
    } else {
        decimal(n / 10).push(digit(n % 10))
    }
}

/// `u16::to_string` of std: the port in decimal digits, as `Display` writes
/// an unsigned integer. Believed, not proved.
#[verifier::external_body]
fn port_text(port: u16) -> (text: String)
    ensures
        text@ == decimal(port as nat),
{
    port.to_string()
}

/// An IPv4 address and a TCP port.
#[derive(Clone, Copy, Debug, PartialEq, Eq)]
pub struct Endpoint {
    pub host: [u8; 4],
    pub port: u16,
}

/// A connection attempt to make: where to, and how long it may take.
#[derive(Clone, Copy, Debug, PartialEq, Eq)]
pub struct Probe {
    pub endpoint: Endpoint,
    pub timeout_ms: u32,
}

/// The loopback address, 127.0.0.1.
pub open spec fn loopback() -> Seq<u8> {
    seq![127u8, 0u8, 0u8, 1u8]
}

/// The arguments the validator is launched with.
pub open spec fn launch_arguments(ledger: Seq<char>, rpc_port: u16, faucet_port: u16) -> Seq<
    Seq<char>,
> {
    seq![
        "--ledger"@,
        ledger,
        "--rpc-port"@,
        decimal(rpc_port as nat),
        "--faucet-port"@,
        decimal(faucet_port as nat),
    ]
}

/// The mathematical content of a builder.
pub struct BuilderView {
    pub test_name: Seq<char>,
    pub rpc_port: u16,
    pub faucet_port: u16,
    pub ledger_path: Option<Seq<char>>,
}

/// Configuration of a test validator.
#[derive(Debug)]
pub struct TestValidatorServiceBuilder {
    test_name: String,
    rpc_port: u16,
    faucet_port: u16,
    ledger_path: Option<String>,
}

impl View for TestValidatorServiceBuilder {
    type V = BuilderView;

    closed spec fn view(&self) -> BuilderView {
        BuilderView {
            test_name: self.test_name@,
            rpc_port: self.rpc_port,
            faucet_port: self.faucet_port,
            ledger_path: match self.ledger_path {
                Some(path) => Some(path@),
                None => None,
            },
        }
    }
}

impl TestValidatorServiceBuilder {
    /// A builder for the test `test_name`, with the default ports and no
    /// ledger directory.
    pub fn new(test_name: &str) -> (builder: TestValidatorServiceBuilder)
        ensures
            builder@ == (BuilderView {
                test_name: test_name@,
                rpc_port: DEFAULT_RPC_PORT,
                faucet_port: DEFAULT_FAUCET_PORT,
                ledger_path: None,
            }),
    {
        TestValidatorServiceBuilder {
            test_name: test_name.to_owned(),
            rpc_port: DEFAULT_RPC_PORT,
            faucet_port: DEFAULT_FAUCET_PORT,
            ledger_path: None,
        }
    }

    /// Uses the ledger directory at `path`, as it is.
    pub fn ledger_path(self, path: &str) -> (builder: TestValidatorServiceBuilder)
        ensures
            builder@ == (BuilderView { ledger_path: Some(path@), ..self@ }),
    {
        TestValidatorServiceBuilder {
            test_name: self.test_name,
            rpc_port: self.rpc_port,
            faucet_port: self.faucet_port,
            ledger_path: Some(path.to_owned()),
        }
    }

    pub fn faucet_port(self, port: u16) -> (builder: TestValidatorServiceBuilder)
        ensures
            builder@ == (BuilderView { faucet_port: port, ..self@ }),
    {
        TestValidatorServiceBuilder {
            test_name: self.test_name,
            rpc_port: self.rpc_port,
            faucet_port: port,
            ledger_path: self.ledger_path,
        }
    }

    pub fn rpc_port(self, port: u16) -> (builder: TestValidatorServiceBuilder)
        ensures
            builder@ == (BuilderView { rpc_port: port, ..self@ }),
    {
        TestValidatorServiceBuilder {
            test_name: self.test_name,
            rpc_port: port,
            faucet_port: self.faucet_port,
            ledger_path: self.ledger_path,
        }
    }

    pub fn test_name(&self) -> (name: &str)
        ensures
            name@ == self@.test_name,
    {
        self.test_name.as_str()
    }

    /// Whether a ledger directory is still to be made: true iff none was
    /// configured.
    pub fn needs_ledger(&self) -> (needed: bool)
        ensures
            needed == (self@.ledger_path is None),
    {
        self.ledger_path.is_none()
    }

    /// The service as configured, not yet started. Its ledger directory is
    /// the one configured, or `fresh_ledger` where none was.
    pub fn build(self, fresh_ledger: String) -> (service: TestValidatorService)
        ensures
            service@ == (ServiceView {
                running: false,
                test_name: self@.test_name,
                ledger_path: match self@.ledger_path {
                    Some(path) => path,
                    None => fresh_ledger@,
                },
                rpc_port: self@.rpc_port,
                faucet_port: self@.faucet_port,
            }),
    {
        let ledger_path = match self.ledger_path {
            Some(path) => path,
            None => fresh_ledger,
        };
        TestValidatorService {
            process: TestServiceProcess::new("Test validator", self.test_name.as_str(), None),
            ledger_path,
            rpc_port: self.rpc_port,
            faucet_port: self.faucet_port,
        }
    }
}

impl Clone for TestValidatorServiceBuilder {
    fn clone(&self) -> (copy: TestValidatorServiceBuilder)
        ensures
            copy@ == self@,
    {
        TestValidatorServiceBuilder {
            test_name: self.test_name.clone(),
            rpc_port: self.rpc_port,
            faucet_port: self.faucet_port,
            ledger_path: match &self.ledger_path {
                Some(path) => Some(path.clone()),
                None => None,
            },
        }
    }
}

impl Default for TestValidatorServiceBuilder {
    fn default() -> (builder: TestValidatorServiceBuilder)
        ensures
            builder@ == (BuilderView {
                test_name: "test-validator-service"@,
                rpc_port: DEFAULT_RPC_PORT,
                faucet_port: DEFAULT_FAUCET_PORT,
                ledger_path: None,
            }),
    {
        TestValidatorServiceBuilder::new("test-validator-service")
    }
}

/// The mathematical content of a service.
pub struct ServiceView {
    /// Whether a process handle is held.
    pub running: bool,
    pub test_name: Seq<char>,
    pub ledger_path: Seq<char>,
    pub rpc_port: u16,
    pub faucet_port: u16,
}

/// A test validator: a process that may have been launched, its ledger
/// directory and its two ports. The ports and the directory never change.
#[derive(Debug)]
pub struct TestValidatorService {
    process: TestServiceProcess,
    ledger_path: String,
    rpc_port: u16,
    faucet_port: u16,
}

impl View for TestValidatorService {
    type V = ServiceView;

    closed spec fn view(&self) -> ServiceView {
        ServiceView {
            running: self.process@.running,
            test_name: self.process@.test_name,
            ledger_path: self.ledger_path@,
            rpc_port: self.rpc_port,
            faucet_port: self.faucet_port,
        }
    }
}

impl TestValidatorService {
    pub fn builder() -> (builder: TestValidatorServiceBuilder)
        ensures
            builder@ == (BuilderView {
                test_name: "test-validator-service"@,
                rpc_port: DEFAULT_RPC_PORT,
                faucet_port: DEFAULT_FAUCET_PORT,
                ledger_path: None,
            }),
    {
        TestValidatorServiceBuilder::new("test-validator-service")
    }

    /// The decisions of a start with the default number of retries.
    pub fn start(&self) -> (startup: Startup)
        ensures
            startup@ == crate::startup::StartModel::start(
                SERVICE_WAIT_TRIES,
                crate::policy::SERVICE_RETRY_DELAY_MS,
            ),
    {
        self.start_with_wait_tries(SERVICE_WAIT_TRIES)
    }

    /// The decisions of a start that grants `wait_tries` retries to
    /// readiness polling: probe first and reuse a service that answers,
    /// else launch, then poll.
    pub fn start_with_wait_tries(&self, wait_tries: u32) -> (startup: Startup)
        ensures
            startup@ == crate::startup::StartModel::start(
                wait_tries,
                crate::policy::SERVICE_RETRY_DELAY_MS,
            ),
    {
        Startup::new(&RetryPolicy::readiness(wait_tries))
    }

    /// The connection attempt that checks availability: to the RPC port on
    /// the loopback address, within five seconds.
    pub fn check_availability(&self) -> (probe: Probe)
        ensures
            probe.endpoint.host@ == loopback(),
            probe.endpoint.port == self@.rpc_port,
            probe.timeout_ms == SERVICE_WAIT_TIMEOUT_MS,
    {
        Probe {
            endpoint: Endpoint { host: [127, 0, 0, 1], port: self.rpc_port },
            timeout_ms: SERVICE_WAIT_TIMEOUT_MS,
        }
    }

    /// The decisions of readiness polling with `wait_tries` retries.
    pub fn wait_for_availability(&self, wait_tries: u32) -> (poller: ReadinessPoller)
        ensures
            poller@ == crate::readiness::PollModel::start(
                wait_tries,
                crate::policy::SERVICE_RETRY_DELAY_MS,
            ),
    {
        ReadinessPoller::new(&RetryPolicy::readiness(wait_tries))
    }

    pub fn ledger(&self) -> (path: &str)
        ensures
            path@ == self@.ledger_path,
    {
        self.ledger_path.as_str()
    }

    pub fn test_name(&self) -> (name: &str)
        ensures
            name@ == self@.test_name,
    {
        self.process.test_name()
    }

    /// The arguments to launch the validator with: the ledger directory and
    /// the two ports.
    pub fn run(&self) -> (args: Vec<String>)
        ensures
            args.deep_view() == launch_arguments(
                self@.ledger_path,
                self@.rpc_port,
                self@.faucet_port,
            ),
    {
        let mut args: Vec<String> = Vec::new();
        args.push("--ledger".to_owned());
        args.push(self.ledger_path.clone());
        args.push("--rpc-port".to_owned());
        args.push(port_text(self.rpc_port));
        args.push("--faucet-port".to_owned());
        args.push(port_text(self.faucet_port));
        assert(args.deep_view() =~= launch_arguments(
            self@.ledger_path,
            self@.rpc_port,
            self@.faucet_port,
        ));
        args
    }

    /// Takes over the launched process.
    pub fn set_child(&mut self, child: subprocess::Popen)
        ensures
            final(self)@ == (ServiceView { running: true, ..old(self)@ }),
    {
        self.process.set_child(child);
    }

    /// True iff a process handle is held.
    pub fn is_running(&self) -> (running: bool)
        ensures
            running == self@.running,
    {
        self.process.is_running()
    }

    /// Terminates the process, if one is held, as
    /// `TestServiceProcess::terminate` does. The configuration stays.
    pub fn terminate(&mut self, policy: &RetryPolicy) -> (report: TerminationReport)
        ensures
            exists|trace: Seq<crate::termination::Observation>| #[trigger]
                report.is_of_run(*policy, trace),
            !old(self)@.running ==> report == TerminationReport::idle(),
            old(self)@.running ==> report.outcome != TerminationOutcome::NotRunning,
            final(self)@ == (ServiceView {
                running: report.outcome == TerminationOutcome::Stuck,
                ..old(self)@
            }),
            report.forced_kills >= 1 ==> report.graceful_signals >= 1,
    {
        self.process.terminate(policy)
    }

    /// The URL of the RPC endpoint.
    pub fn rpc_url(&self) -> (url: String)
        ensures
            url@ == "http://localhost:"@ + decimal(self@.rpc_port as nat),
    {
        let mut url = "http://localhost:".to_owned();
        url.append(port_text(self.rpc_port).as_str());
        url
    }

    /// The address of the faucet: its port on the loopback address.
    pub fn faucet_addr(&self) -> (addr: Endpoint)
        ensures
            addr.host@ == loopback(),
            addr.port == self@.faucet_port,
    {
        Endpoint { host: [127, 0, 0, 1], port: self.faucet_port }
    }
}

} // verus!
