//! The windowed counters in the shared store: their keys, their lifetime, and
//! the admission decision taken from the two counters of a request.

use vstd::prelude::*;
use vstd::string::StringExecFns;

use crate::algo::{AcquireAttempt, RateLimitAlgorithm, RateLimitAlgorithmErr};
use crate::clock::Timestamp;
use crate::config::{utf8_bytes, PolicySet};

verus! {

/// An admitted request: the tokens left in the window and when it resets.
#[derive(Debug, Clone, Copy, PartialEq, Eq, Structural, PartialOrd, Ord, Hash)]
pub struct TokensRemaining {
    pub remaining: u32,
    pub reset_after: Timestamp,
}

impl TokensRemaining {
    pub fn new(remaining: u32, reset_after: Timestamp) -> (r: Self)
        ensures
            r.remaining == remaining,
            r.reset_after == reset_after,
    {
        TokensRemaining { remaining, reset_after }
    }
}

/// Why a request was not admitted.
#[derive(Debug, Clone, PartialEq, Eq)]
pub enum AcquireErr {
    /// The budget is spent until the given instant.
    RateLimitExceeded(Timestamp),
    /// The shared store did not answer within the deadline.
    Timeout,
    /// The shared store failed; the text describes how.
    RedisError(String),
}

/// The outcome of a request against the shared counters.
pub type AcquireResult = Result<TokensRemaining, AcquireErr>;

/// A request with its budget: the resource key, the tokens asked for, and the
/// budget and window of the policy that governs the key.
#[derive(Debug, Clone, PartialEq, Eq, Default, Hash)]
pub struct RateLimitConfig {
    pub resource_key: String,
    pub tokens_to_acquire: u32,
    pub max_tokens_per_window: u32,
    pub window_secs: u64,
}

impl RateLimitConfig {
    pub fn new(
        resource_key: String,
        tokens_to_acquire: u32,
        max_tokens_per_window: u32,
        window_secs: u64,
    ) -> (r: Self)
        ensures
            r.resource_key == resource_key,
            r.tokens_to_acquire == tokens_to_acquire,
            r.max_tokens_per_window == max_tokens_per_window,
            r.window_secs == window_secs,
    {
        RateLimitConfig { resource_key, tokens_to_acquire, max_tokens_per_window, window_secs }
    }
}

/// The decimal digit `d`.
pub open spec fn digit_char(d: nat) -> char {
    if d == 0 {
        '0'
    } else if d == 1 {
        '1'
    } else if d == 2 {
        '2'
    } else if d == 3 {
        '3'
    } else if d == 4 {
        '4'
    } else if d == 5 {
        '5'
    } else if d == 6 {
        '6'
    } else if d == 7 {
        '7'
    } else if d == 8 {
        '8'
    } else {
        '9'
    }
}

/// `n` written in decimal, without leading zeros.
pub open spec fn decimal(n: nat) -> Seq<char>
    decreases n,
{
    if n < 10 {
        seq![digit_char(n)]
    } else {
        decimal(n / 10).push(digit_char(n % 10))
    }
}

/// What separates the resource key from the window index in a counter key.
pub open spec fn window_key_infix() -> Seq<char> {
    ".rate_limit.window."@
}

/// The key of the counter of window `index` of a resource:
/// `<resource_key>.rate_limit.window.<index>`.
pub open spec fn window_key(resource_key: Seq<char>, index: nat) -> Seq<char> {
    resource_key + window_key_infix() + decimal(index)
}

/// The index of the window that holds instant `now_ms`.
pub open spec fn window_index_of(now_ms: nat, window_ms: nat) -> nat
    recommends
        window_ms > 0,
{
    now_ms / window_ms
}

/// The digit `d` as a one-character string.
fn digit_str(d: u8) -> (r: &'static str)
    requires
        d < 10,
    ensures
        r@ == seq![digit_char(d as nat)],
{
    if d == 0 {
        proof { reveal_strlit("0"); }
        "0"
    } else if d == 1 {
        proof { reveal_strlit("1"); }
        "1"
    } else if d == 2 {
        proof { reveal_strlit("2"); }
        "2"
    } else if d == 3 {
        proof { reveal_strlit("3"); }
        "3"
    } else if d == 4 {
        proof { reveal_strlit("4"); }
        "4"
    } else if d == 5 {
        proof { reveal_strlit("5"); }
        "5"
    } else if d == 6 {
        proof { reveal_strlit("6"); }
        "6"
    } else if d == 7 {
        proof { reveal_strlit("7"); }
        "7"
    } else if d == 8 {
        proof { reveal_strlit("8"); }
        "8"
    } else {
        proof { reveal_strlit("9"); }
        "9"
    }
}

/// Appends `n` in decimal to `s`.
fn push_decimal(s: &mut String, n: u128)
    ensures
        final(s)@ == old(s)@ + decimal(n as nat),
    decreases n,
{
    if n >= 10 {
        push_decimal(s, n / 10);
    }
    s.append(digit_str((n % 10) as u8));
    assert(s@ =~= old(s)@ + decimal(n as nat));
}

/// The key of the counter of window `window_index` of `resource_key`.
pub fn counter_key(resource_key: &str, window_index: u128) -> (r: String)
    ensures
        r@ == window_key(resource_key@, window_index as nat),
{
    let mut key = resource_key.to_owned();
    key.append(".rate_limit.window.");
    push_decimal(&mut key, window_index);
    assert(key@ =~= window_key(resource_key@, window_index as nat));
    key
}

/// The index of the window of `window_secs` seconds that holds `now_ms`.
pub fn window_index(now_ms: u128, window_secs: u64) -> (r: u128)
    requires
        window_secs >= 1,
    ensures
        r == window_index_of(now_ms as nat, (window_secs * 1000) as nat),
{
    now_ms / (window_secs as u128 * 1000)
}

/// Window indices never go back as time moves forward.
pub proof fn lemma_window_index_monotonic(t1: nat, t2: nat, window_ms: nat)
    requires
        t1 <= t2,
        window_ms > 0,
    ensures
        window_index_of(t1, window_ms) <= window_index_of(t2, window_ms),
{
    vstd::arithmetic::div_mod::lemma_div_is_ordered(t1 as int, t2 as int, window_ms as int);
}

/// The two counter operations of a request: add the tokens to the current
/// window's counter and refresh its lifetime, and read the previous window's
/// counter, if that window exists.
#[derive(Debug, Clone)]
pub struct CounterPlan {
    /// The request, with the budget of the policy that governs its key.
    pub config: RateLimitConfig,
    /// The index of the window that holds the request.
    pub current_window: u128,
    /// The counter that the request's tokens are added to.
    pub current_key: String,
    /// The counter of the preceding window; `None` in the first window after
    /// the epoch, whose predecessor counts as empty.
    pub previous_key: Option<String>,
    /// The lifetime given to the current counter: two windows, so that it is
    /// still readable through the whole of the next window.
    pub ttl_secs: u128,
}

/// The policy set and the estimator that a service replica decides with.
#[derive(Debug, Clone)]
pub struct Limiter<A: RateLimitAlgorithm> {
    policies: PolicySet,
    algorithm: A,
}

impl<A: RateLimitAlgorithm> Limiter<A> {
    /// The policy set.
    pub closed spec fn policies(&self) -> PolicySet {
        self.policies
    }

    /// The estimator.
    pub closed spec fn algorithm(&self) -> A {
        self.algorithm
    }

    /// The policy set's budgets are well formed.
    pub open spec fn wf(&self) -> bool {
        self.policies().wf()
    }

    pub fn new(policies: PolicySet, algorithm: A) -> (r: Self)
        requires
            policies.wf(),
        ensures
            r.policies() == policies,
            r.algorithm() == algorithm,
            r.wf(),
    {
        Limiter { policies, algorithm }
    }

    /// The counter operations of a request for `tokens` tokens of
    /// `resource_key` at instant `now`, under the policy that governs the key.
    pub fn plan(&self, resource_key: &str, tokens: u32, now: Timestamp) -> (r: CounterPlan)
        requires
            self.wf(),
        ensures
            ({
                let policy = self.policies().resolved_policy(utf8_bytes(resource_key@));
                let index = window_index_of(now.millis as nat, (policy.window_secs * 1000) as nat);
                &&& r.config.resource_key@ == resource_key@
                &&& r.config.tokens_to_acquire == tokens
                &&& r.config.max_tokens_per_window == policy.max_tokens
                &&& r.config.window_secs == policy.window_secs
                &&& r.config.window_secs >= 1
                &&& r.current_window == index
                &&& r.current_key@ == window_key(resource_key@, index)
                &&& (r.previous_key is None <==> index == 0)
                &&& r.previous_key matches Some(k) ==> k@ == window_key(
                    resource_key@,
                    (index - 1) as nat,
                )
                &&& r.ttl_secs == 2 * policy.window_secs
            }),
    {
        let policy = self.policies.resolve(resource_key);
        let current_window = window_index(now.millis, policy.window_secs);
        let current_key = counter_key(resource_key, current_window);
        let previous_key = if current_window > 0 {
            Some(counter_key(resource_key, current_window - 1))
        } else {
            None
        };
        CounterPlan {
            config: RateLimitConfig::new(
                resource_key.to_owned(),
                tokens,
                policy.max_tokens,
                policy.window_secs,
            ),
            current_window,
            current_key,
            previous_key,
            ttl_secs: 2 * policy.window_secs as u128,
        }
    }

    /// The outcome of a request once both counter operations have returned:
    /// `current` is the current window's count before this request's tokens
    /// were added, `previous` the previous window's count. A failed operation
    /// decides, the current one first; otherwise the estimator decides.
    pub fn decide(
        &self,
        config: &RateLimitConfig,
        current: Result<u32, AcquireErr>,
        previous: Result<u32, AcquireErr>,
    ) -> (r: AcquireResult)
        requires
            config.window_secs >= 1,
        ensures
            match (current, previous) {
                (Err(e), _) => r == Err::<TokensRemaining, AcquireErr>(e),
                (Ok(_), Err(e)) => r == Err::<TokensRemaining, AcquireErr>(e),
                (Ok(c), Ok(p)) => {
                    let attempt = attempt_of(config, p, c);
                    exists|o: Result<(u32, Timestamp), RateLimitAlgorithmErr>|
                        {
                            &&& self.algorithm().allows_outcome(attempt, o)
                            &&& r == acquire_result_of(o)
                            &&& attempt.exceeds_hard_cap() ==> o is Err
                            &&& o matches Ok((remaining, _)) ==> remaining
                                + config.tokens_to_acquire <= config.max_tokens_per_window
                        }
                },
            },
    {
        let current = match current {
            Ok(c) => c,
            Err(e) => {
                return Err(e);
            },
        };
        let previous = match previous {
            Ok(p) => p,
            Err(e) => {
                return Err(e);
            },
        };
        let attempt = AcquireAttempt::new(
            config.tokens_to_acquire,
            config.max_tokens_per_window,
            config.window_secs,
            previous,
            current,
        );
        let decision = self.algorithm.try_acquire(&attempt);
        admission_result(decision)
    }
}

/// The attempt that a request with these counts puts to the estimator.
pub open spec fn attempt_of(config: &RateLimitConfig, previous: u32, current: u32) -> AcquireAttempt {
    AcquireAttempt {
        tokens_to_acquire: config.tokens_to_acquire,
        max_tokens_per_window: config.max_tokens_per_window,
        window_secs: config.window_secs,
        previous_window_requests: previous,
        current_window_requests: current,
    }
}

/// The request's outcome for an estimator's decision: an admission keeps the
/// tokens left and the reset instant, a refusal its reset instant.
pub open spec fn acquire_result_of(decision: Result<(u32, Timestamp), RateLimitAlgorithmErr>) -> AcquireResult {
    match decision {
        Ok((remaining, reset)) => Ok(TokensRemaining { remaining, reset_after: reset }),
        Err(RateLimitAlgorithmErr::RateLimitExceeded(reset)) => Err(
            AcquireErr::RateLimitExceeded(reset),
        ),
    }
}

/// The request's outcome for an estimator's decision.
pub fn admission_result(decision: Result<(u32, Timestamp), RateLimitAlgorithmErr>) -> (r:
    AcquireResult)
    ensures
        r == acquire_result_of(decision),
{
    match decision {
        Ok((remaining, reset_after)) => Ok(TokensRemaining::new(remaining, reset_after)),
        Err(RateLimitAlgorithmErr::RateLimitExceeded(reset_after)) => Err(
            AcquireErr::RateLimitExceeded(reset_after),
        ),
    }
}

} // verus!
