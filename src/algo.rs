//! The sliding-window estimator: two adjacent fixed-window counters turned
//! into one smoothed admission decision.

use vstd::prelude::*;

use crate::clock::{to_unix_millis, Clock, SystemClock, Timestamp};

verus! {

/// Why the estimator refused an attempt.
#[derive(Debug, Clone, Copy, PartialEq, Eq, Structural)]
pub enum RateLimitAlgorithmErr {
    /// The budget of the current window is spent; it is renewed at the given
    /// instant.
    RateLimitExceeded(Timestamp),
}

/// What the estimator decides on: the tokens asked for, the policy's budget
/// and window, and the two counters read from the shared store.
#[derive(Debug, Clone, Copy, PartialEq, Eq, Structural)]
pub struct AcquireAttempt {
    pub tokens_to_acquire: u32,
    pub max_tokens_per_window: u32,
    pub window_secs: u64,
    pub previous_window_requests: u32,
    pub current_window_requests: u32,
}

impl AcquireAttempt {
    pub fn new(
        tokens_to_acquire: u32,
        max_tokens_per_window: u32,
        window_secs: u64,
        previous_window_requests: u32,
        current_window_requests: u32,
    ) -> (r: Self)
        ensures
            r.tokens_to_acquire == tokens_to_acquire,
            r.max_tokens_per_window == max_tokens_per_window,
            r.window_secs == window_secs,
            r.previous_window_requests == previous_window_requests,
            r.current_window_requests == current_window_requests,
    {
        AcquireAttempt {
            tokens_to_acquire,
            max_tokens_per_window,
            window_secs,
            previous_window_requests,
            current_window_requests,
        }
    }

    /// A window is at least one second long.
    pub open spec fn wf(&self) -> bool {
        self.window_secs >= 1
    }

    /// The current window alone, with this request, would pass the budget.
    pub open spec fn exceeds_hard_cap(&self) -> bool {
        sat_add_u32(self.current_window_requests as int, self.tokens_to_acquire as int)
            > self.max_tokens_per_window
    }
}

/// `a + b`, held at `u32::MAX`.
pub open spec fn sat_add_u32(a: int, b: int) -> int {
    if a + b > u32::MAX {
        u32::MAX as int
    } else {
        a + b
    }
}

/// The length of a window of `window_secs` seconds, in milliseconds.
pub open spec fn window_millis(window_secs: u64) -> int {
    window_secs * 1000
}

/// Milliseconds from `now_ms` to the end of the epoch-aligned window that
/// holds it.
pub open spec fn time_left_in_window(now_ms: int, window_ms: int) -> int {
    window_ms - now_ms % window_ms
}

/// `prev * left / window_ms`, rounded to the nearest integer, halves upwards:
/// the share of the previous window still inside the sliding window.
pub open spec fn weighted_previous(prev: int, left: int, window_ms: int) -> int {
    (2 * prev * left + window_ms) / (2 * window_ms)
}

/// The end of the window that holds `now`, held at the largest instant.
pub open spec fn window_reset(now: Timestamp, window_secs: u64) -> Timestamp {
    let end = now.millis + time_left_in_window(now.millis as int, window_millis(window_secs));
    Timestamp { millis: if end > u128::MAX { u128::MAX } else { end as u128 } }
}

/// The estimator's decision on `a` at instant `now`: the tokens left after
/// admission and the reset instant, or a refusal with the reset instant.
pub open spec fn sliding_window_outcome(a: AcquireAttempt, now: Timestamp) -> Result<
    (u32, Timestamp),
    RateLimitAlgorithmErr,
> {
    let window_ms = window_millis(a.window_secs);
    let left = time_left_in_window(now.millis as int, window_ms);
    let reset = window_reset(now, a.window_secs);
    let used = sat_add_u32(
        a.current_window_requests as int,
        weighted_previous(a.previous_window_requests as int, left, window_ms),
    );
    let possible = sat_add_u32(used, a.tokens_to_acquire as int);
    if a.exceeds_hard_cap() || possible > a.max_tokens_per_window {
        Err(RateLimitAlgorithmErr::RateLimitExceeded(reset))
    } else {
        Ok(((a.max_tokens_per_window - possible) as u32, reset))
    }
}

/// Decides on `attempt` at instant `now`; no input overflows or panics.
pub fn sliding_window_decision(attempt: &AcquireAttempt, now: Timestamp) -> (r: Result<
    (u32, Timestamp),
    RateLimitAlgorithmErr,
>)
    requires
        attempt.wf(),
    ensures
        r == sliding_window_outcome(*attempt, now),
{
    let window_ms: u128 = attempt.window_secs as u128 * 1000;
    let now_ms = to_unix_millis(now);
    let time_in_current_window = now_ms % window_ms;
    let remaining_window_time = window_ms - time_in_current_window;
    let reset_after = Timestamp { millis: now_ms.saturating_add(remaining_window_time) };

    if attempt.current_window_requests.saturating_add(attempt.tokens_to_acquire)
        > attempt.max_tokens_per_window {
        return Err(RateLimitAlgorithmErr::RateLimitExceeded(reset_after));
    }
    let prev = attempt.previous_window_requests as u128;
    proof {
        let p = prev as int;
        let l = remaining_window_time as int;
        let w = window_ms as int;
        assert(0 < l <= w);
        assert(w <= 18446744073709551615000);
        assert((2 * p) * l <= 2 * 4294967295 * w) by (nonlinear_arith)
            requires
                0 <= p <= 4294967295,
                0 < l <= w,
        ;
        assert(2 * p * l + w <= 2 * w * (p + 1)) by (nonlinear_arith)
            requires
                0 <= p,
                0 < l <= w,
        ;
        assert((2 * p * l + w) / (2 * w) <= p) by (nonlinear_arith)
            requires
                0 <= p,
                0 < l <= w,
                2 * p * l + w <= 2 * w * (p + 1),
                2 * p * l + w >= 0,
        ;
        assert((2 * p) * l + w <= u128::MAX) by (nonlinear_arith)
            requires
                (2 * p) * l <= 2 * 4294967295 * w,
                0 < w <= 18446744073709551615000,
        ;
    }
    let scaled = 2 * prev * remaining_window_time;
    let weighted = (scaled + window_ms) / (2 * window_ms);
    let used = attempt.current_window_requests.saturating_add(weighted as u32);
    let possible_used = used.saturating_add(attempt.tokens_to_acquire);
    if possible_used > attempt.max_tokens_per_window {
        Err(RateLimitAlgorithmErr::RateLimitExceeded(reset_after))
    } else {
        Ok((attempt.max_tokens_per_window - possible_used, reset_after))
    }
}

/// An admission decision on an attempt.
pub trait RateLimitAlgorithm {
    /// `outcome` is one that this estimator may return on `attempt`.
    spec fn allows_outcome(
        &self,
        attempt: AcquireAttempt,
        outcome: Result<(u32, Timestamp), RateLimitAlgorithmErr>,
    ) -> bool;

    /// Admits with the tokens left and the reset instant, or refuses with the
    /// reset instant. Never admits past the hard cap of the current window,
    /// and never leaves more than the budget minus the tokens taken.
    fn try_acquire(&self, attempt: &AcquireAttempt) -> (r: Result<
        (u32, Timestamp),
        RateLimitAlgorithmErr,
    >)
        requires
            attempt.wf(),
        ensures
            self.allows_outcome(*attempt, r),
            attempt.exceeds_hard_cap() ==> r is Err,
            r matches Ok((remaining, _)) ==> remaining + attempt.tokens_to_acquire
                <= attempt.max_tokens_per_window,
    ;
}

/// The sliding-window estimator, reading the time from a clock.
#[derive(Debug, Clone)]
pub struct SlidingWindow<C: Clock> {
    clock: C,
}

impl<C: Clock> SlidingWindow<C> {
    /// The clock the estimator reads.
    pub closed spec fn clock(&self) -> C {
        self.clock
    }
}

impl SlidingWindow<SystemClock> {
    /// An estimator on the system wall clock.
    pub fn new() -> (r: Self)
        ensures
            r.clock() == SystemClock,
    {
        Self::with_clock(SystemClock)
    }

    /// An estimator on the given clock.
    pub fn with_clock<C: Clock>(clock: C) -> (r: SlidingWindow<C>)
        ensures
            r.clock() == clock,
    {
        SlidingWindow { clock }
    }
}

impl<C: Clock> RateLimitAlgorithm for SlidingWindow<C> {
    /// The decision at some instant that the clock may read.
    open spec fn allows_outcome(
        &self,
        attempt: AcquireAttempt,
        outcome: Result<(u32, Timestamp), RateLimitAlgorithmErr>,
    ) -> bool {
        exists|now: Timestamp| outcome == sliding_window_outcome(attempt, now)
    }

    fn try_acquire(&self, attempt: &AcquireAttempt) -> (r: Result<
        (u32, Timestamp),
        RateLimitAlgorithmErr,
    >)
        ensures
            exists|now: Timestamp| r == sliding_window_outcome(*attempt, now),
    {
        let now = self.clock.now();
        proof {
            lemma_admission_ceiling(*attempt, now);
        }
        sliding_window_decision(attempt, now)
    }
}

/// Denial floor: when the current window's count and the request together pass
/// the budget, the estimator refuses, whatever the previous window holds. The
/// sum saturates at `u32::MAX`, so a budget of `u32::MAX` is left out: such a
/// sum never passes it.
pub proof fn lemma_denial_floor(a: AcquireAttempt, now: Timestamp)
    requires
        a.wf(),
        a.current_window_requests + a.tokens_to_acquire > a.max_tokens_per_window,
        a.max_tokens_per_window < u32::MAX,
    ensures
        sliding_window_outcome(a, now) is Err,
        a.exceeds_hard_cap(),
{
}

/// Admission ceiling: whenever the estimator admits, the tokens left plus the
/// tokens taken stay within the budget.
pub proof fn lemma_admission_ceiling(a: AcquireAttempt, now: Timestamp)
    requires
        a.wf(),
    ensures
        sliding_window_outcome(a, now) matches Ok((remaining, _)) ==> remaining
            + a.tokens_to_acquire <= a.max_tokens_per_window,
        a.exceeds_hard_cap() ==> sliding_window_outcome(a, now) is Err,
{
}

/// Reset lies in the future: admitted or refused, the reset instant comes
/// after `now` and no later than one window after it. The reset instant
/// saturates at the largest instant, so that instant itself is left out.
pub proof fn lemma_reset_in_future(a: AcquireAttempt, now: Timestamp)
    requires
        a.wf(),
        now.millis < u128::MAX,
    ensures
        ({
            let reset = match sliding_window_outcome(a, now) {
                Ok((_, t)) => t,
                Err(RateLimitAlgorithmErr::RateLimitExceeded(t)) => t,
            };
            now.millis < reset.millis <= now.millis + window_millis(a.window_secs)
        }),
{
    let w = window_millis(a.window_secs);
    assert(0 <= (now.millis as int) % w < w);
}

} // verus!
