//! Retry parameters shared by readiness polling and termination.

use vstd::prelude::*;

verus! {

/// Attempts granted to the termination loop before it escalates.
pub const TERMINATION_ATTEMPTS: u32 = 10;

/// Milliseconds one wait of the termination loop may take.
pub const TERMINATION_WAIT_MS: u32 = 2_000;

/// Retries granted to readiness polling when the caller names no number.
pub const SERVICE_WAIT_TRIES: u32 = 50;

/// Milliseconds one connection attempt of a readiness check may take.
pub const SERVICE_WAIT_TIMEOUT_MS: u32 = 5_000;

/// Milliseconds slept between two readiness checks.
pub const SERVICE_RETRY_DELAY_MS: u32 = 500;

/// How often to try, how long one try may take, and how long to rest between
/// two tries. A plain value: two policies with equal fields are the same
/// policy.
#[derive(Clone, Copy, Debug, PartialEq, Eq, Structural)]
pub struct RetryPolicy {
    pub max_attempts: u32,
    pub per_attempt_timeout_ms: u32,
    pub retry_delay_ms: u32,
}

impl RetryPolicy {
    pub fn new(max_attempts: u32, per_attempt_timeout_ms: u32, retry_delay_ms: u32) -> (policy:
        RetryPolicy)
        ensures
            policy.max_attempts == max_attempts,
            policy.per_attempt_timeout_ms == per_attempt_timeout_ms,
            policy.retry_delay_ms == retry_delay_ms,
    {
        RetryPolicy { max_attempts, per_attempt_timeout_ms, retry_delay_ms }
    }

    /// The policy of the termination loop: ten waits of two seconds, with no
    /// rest between them.
    pub fn termination() -> (policy: RetryPolicy)
        ensures
            policy.max_attempts == TERMINATION_ATTEMPTS,
            policy.per_attempt_timeout_ms == TERMINATION_WAIT_MS,
            policy.retry_delay_ms == 0,
    {
        RetryPolicy {
            max_attempts: TERMINATION_ATTEMPTS,
            per_attempt_timeout_ms: TERMINATION_WAIT_MS,
            retry_delay_ms: 0,
        }
    }

    /// The policy of readiness polling with `wait_tries` retries: five
    /// seconds for one check, half a second between two checks.
    pub fn readiness(wait_tries: u32) -> (policy: RetryPolicy)
        ensures
            policy.max_attempts == wait_tries,
            policy.per_attempt_timeout_ms == SERVICE_WAIT_TIMEOUT_MS,
            policy.retry_delay_ms == SERVICE_RETRY_DELAY_MS,
    {
        RetryPolicy {
            max_attempts: wait_tries,
            per_attempt_timeout_ms: SERVICE_WAIT_TIMEOUT_MS,
            retry_delay_ms: SERVICE_RETRY_DELAY_MS,
        }
    }
}

} // verus!
