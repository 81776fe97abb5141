//! What the `Acquire` and health-check calls decide: which requests are
//! rejected before any counter is touched, how an outcome becomes a reply or
//! an RPC status, and when the service reports itself serving.

use vstd::prelude::*;

use crate::store::{AcquireErr, AcquireResult};

verus! {

/// The RPC status codes that `Acquire` fails with.
#[derive(Debug, Clone, Copy, PartialEq, Eq, Structural)]
pub enum StatusCode {
    InvalidArgument,
    DeadlineExceeded,
    Unavailable,
}

/// Why an `Acquire` call failed.
#[derive(Debug, Clone, Copy, PartialEq, Eq, Structural)]
pub enum AcquireStatus {
    /// The request asked for no tokens, or fewer than none.
    InvalidTokens,
    /// The request named no key.
    EmptyKey,
    /// The shared store did not answer in time; the tokens may or may not
    /// have been counted.
    DeadlineExceeded,
    /// The shared store failed.
    Unavailable,
}

impl AcquireStatus {
    /// The RPC status code of the failure.
    pub fn code(&self) -> (r: StatusCode)
        ensures
            r == match *self {
                AcquireStatus::InvalidTokens | AcquireStatus::EmptyKey => StatusCode::InvalidArgument,
                AcquireStatus::DeadlineExceeded => StatusCode::DeadlineExceeded,
                AcquireStatus::Unavailable => StatusCode::Unavailable,
            },
    {
        match self {
            AcquireStatus::InvalidTokens | AcquireStatus::EmptyKey => StatusCode::InvalidArgument,
            AcquireStatus::DeadlineExceeded => StatusCode::DeadlineExceeded,
            AcquireStatus::Unavailable => StatusCode::Unavailable,
        }
    }

    /// The message sent with the status.
    pub fn message(&self) -> (r: &'static str)
        ensures
            r@ == match *self {
                AcquireStatus::InvalidTokens => "Tokens to acquire must be greater than zero"@,
                AcquireStatus::EmptyKey => "Key must not be empty"@,
                AcquireStatus::DeadlineExceeded => "Rate limit acquisition timed out"@,
                AcquireStatus::Unavailable => "Failed to acquire rate limit"@,
            },
    {
        match self {
            AcquireStatus::InvalidTokens => "Tokens to acquire must be greater than zero",
            AcquireStatus::EmptyKey => "Key must not be empty",
            AcquireStatus::DeadlineExceeded => "Rate limit acquisition timed out",
            AcquireStatus::Unavailable => "Failed to acquire rate limit",
        }
    }
}

/// The reply to an `Acquire` call that reached a decision.
#[derive(Debug, Clone, Copy, PartialEq, Eq, Structural)]
pub struct AcquireResponse {
    pub allowed: bool,
    /// Tokens left in the window; 0 when refused.
    pub remaining: i32,
    /// When the window resets, in milliseconds since the Unix epoch.
    pub reset_after: i64,
}

/// Checks a request before anything else is done: the tokens asked for, as
/// an unsigned count, or the reason it is rejected. The token count is
/// checked first.
pub fn validate_request(key: &str, tokens: i32) -> (r: Result<u32, AcquireStatus>)
    ensures
        tokens <= 0 ==> r == Err::<u32, AcquireStatus>(AcquireStatus::InvalidTokens),
        tokens > 0 && key@.len() == 0 ==> r == Err::<u32, AcquireStatus>(AcquireStatus::EmptyKey),
        tokens > 0 && key@.len() > 0 ==> r == Ok::<u32, AcquireStatus>(tokens as u32),
{
    if tokens <= 0 {
        return Err(AcquireStatus::InvalidTokens);
    }
    if key.is_empty() {
        return Err(AcquireStatus::EmptyKey);
    }
    Ok(tokens as u32)
}

/// The reply for a request's outcome. A refusal is a reply, with nothing
/// left; only failures of the shared store become RPC statuses.
pub fn response_for(result: &AcquireResult) -> (r: Result<AcquireResponse, AcquireStatus>)
    ensures
        match *result {
            Ok(t) => r == Ok::<AcquireResponse, AcquireStatus>(
                AcquireResponse {
                    allowed: true,
                    remaining: t.remaining as i32,
                    reset_after: t.reset_after.millis as i64,
                },
            ),
            Err(AcquireErr::RateLimitExceeded(reset)) => r == Ok::<AcquireResponse, AcquireStatus>(
                AcquireResponse { allowed: false, remaining: 0, reset_after: reset.millis as i64 },
            ),
            Err(AcquireErr::Timeout) => r == Err::<AcquireResponse, AcquireStatus>(
                AcquireStatus::DeadlineExceeded,
            ),
            Err(AcquireErr::RedisError(_)) => r == Err::<AcquireResponse, AcquireStatus>(
                AcquireStatus::Unavailable,
            ),
        },
{
    match result {
        Ok(t) => Ok(
            AcquireResponse {
                allowed: true,
                remaining: t.remaining as i32,
                reset_after: t.reset_after.millis as i64,
            },
        ),
        Err(AcquireErr::RateLimitExceeded(reset)) => Ok(
            AcquireResponse { allowed: false, remaining: 0, reset_after: reset.millis as i64 },
        ),
        Err(AcquireErr::Timeout) => Err(AcquireStatus::DeadlineExceeded),
        Err(AcquireErr::RedisError(_)) => Err(AcquireStatus::Unavailable),
    }
}

/// Health status: the service is serving.
pub const SERVING: i32 = 1;

/// Health status: the service is not serving.
pub const NOT_SERVING: i32 = 2;

/// The health status for the shared store's answer to a ping, `None` where
/// none came in time: serving exactly when the answer is `PONG`.
pub fn health_status(ping_reply: Option<String>) -> (r: i32)
    ensures
        r == if ping_reply matches Some(s) && s@ == "PONG"@ {
            SERVING
        } else {
            NOT_SERVING
        },
{
    match ping_reply {
        Some(s) => {
            if s == "PONG".to_owned() {
                SERVING
            } else {
                NOT_SERVING
            }
        },
        None => NOT_SERVING,
    }
}

} // verus!
