//! Supervision of one external service process for the lifetime of a test.
//!
//! The library decides and the caller acts. It holds the rules of starting
//! a test validator (`startup`, `readiness`), of terminating it
//! (`termination`, `service`), of launching it (`validator`), and of telling
//! whether a program binary has to be deployed again (`program`, `loader`).
//! Connecting to a port, sleeping, spawning and reading files are left to
//! the caller; signalling and waiting for a child that the caller has
//! spawned are done here, through `subprocess` (`process`).
//!
//! Each set of rules comes as a mathematical model, an executable form that
//! is proved to follow the model, and laws that are proved of the model.

pub mod loader;
pub mod policy;
pub mod process;
pub mod program;
pub mod readiness;
pub mod service;
pub mod startup;
pub mod termination;
pub mod util;
pub mod validator;

pub use program::{Network, Program};
pub use service::TestServiceProcess;
pub use validator::{TestValidatorService, TestValidatorServiceBuilder};
