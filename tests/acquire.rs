use std::collections::HashMap;

use rate_limiter::algo::SlidingWindow;
use rate_limiter::clock::{Clock, SystemClock, Timestamp};
use rate_limiter::config::{PolicyDefinition, PolicySet};
use rate_limiter::server::{
    response_for, validate_request, AcquireResponse, AcquireStatus, StatusCode,
};
use rate_limiter::store::{CounterPlan, Limiter};

#[derive(Debug, Clone, Copy)]
struct FixedClock(Timestamp);

impl Clock for FixedClock {
    fn now(&self) -> Timestamp {
        self.0
    }
}

/// The shared store, kept in memory: adding to a counter returns its value
/// before the addition, as the store's increment script does.
#[derive(Default)]
struct MemoryStore {
    counters: HashMap<String, u32>,
}

impl MemoryStore {
    fn increment(&mut self, plan: &CounterPlan) -> u32 {
        let counter = self.counters.entry(plan.current_key.clone()).or_insert(0);
        let prior = *counter;
        *counter += plan.config.tokens_to_acquire;
        prior
    }

    fn read_previous(&self, plan: &CounterPlan) -> u32 {
        match &plan.previous_key {
            Some(key) => self.counters.get(key).copied().unwrap_or(0),
            None => 0,
        }
    }
}

struct Service {
    limiter: Limiter<SlidingWindow<FixedClock>>,
    store: MemoryStore,
    now: Timestamp,
}

fn setup_test_server() -> Service {
    let now = SystemClock.now();
    let default_policy = PolicyDefinition { max_tokens: 10, window_secs: 60 };
    let policies = PolicySet::new(default_policy, vec![]).unwrap();
    Service {
        limiter: Limiter::new(policies, SlidingWindow::with_clock(FixedClock(now))),
        store: MemoryStore::default(),
        now,
    }
}

impl Service {
    fn plan(&self, key: &str, tokens: i32) -> Result<CounterPlan, AcquireStatus> {
        let tokens = validate_request(key, tokens)?;
        Ok(self.limiter.plan(key, tokens, self.now))
    }

    fn finish(&self, plan: &CounterPlan, current: u32, previous: u32) -> Result<AcquireResponse, AcquireStatus> {
        let result = self.limiter.decide(&plan.config, Ok(current), Ok(previous));
        response_for(&result)
    }

    fn acquire(&mut self, key: &str, tokens: i32) -> Result<AcquireResponse, AcquireStatus> {
        let plan = self.plan(key, tokens)?;
        let current = self.store.increment(&plan);
        let previous = self.store.read_previous(&plan);
        self.finish(&plan, current, previous)
    }
}

fn now_millis(service: &Service) -> i64 {
    service.now.millis as i64
}

#[test]
fn test_acquire_single_token() {
    let mut service = setup_test_server();
    let now = now_millis(&service);
    let response = service.acquire("test:single:1", 1).unwrap();
    assert_eq!(response.allowed, true);
    assert_eq!(response.remaining, 9);
    assert!(response.reset_after > now);
    assert!(response.reset_after <= now + 60000);
}

#[test]
fn test_acquire_multiple_tokens() {
    let mut service = setup_test_server();
    let now = now_millis(&service);
    let response = service.acquire("test:multiple:1", 5).unwrap();
    assert_eq!(response.allowed, true);
    assert_eq!(response.remaining, 5);
    assert!(response.reset_after > now);
    assert!(response.reset_after <= now + 60000);
}

#[test]
fn test_rate_limit_exceeded() {
    let mut service = setup_test_server();
    let now = now_millis(&service);
    let response = service.acquire("test:exceeded:1", 10).unwrap();
    assert_eq!(response.allowed, true);
    let response = service.acquire("test:exceeded:1", 1).unwrap();
    assert_eq!(response.allowed, false);
    assert_eq!(response.remaining, 0);
    assert!(response.reset_after > now);
    assert!(response.reset_after <= now + 60000);
}

#[test]
fn test_multiple_sequential_requests() {
    let mut service = setup_test_server();
    let now = now_millis(&service);
    for i in 0..5 {
        let response = service.acquire("test:sequential:1", 1).unwrap();
        assert_eq!(response.allowed, true);
        assert_eq!(response.remaining, 9 - i);
        assert!(response.reset_after > now);
        assert!(response.reset_after <= now + 60000);
    }
}

#[test]
fn test_invalid_tokens_zero() {
    let mut service = setup_test_server();
    let result = service.acquire("test:zero:1", 0);
    assert!(result.is_err());
    let status = result.unwrap_err();
    assert_eq!(status.code(), StatusCode::InvalidArgument);
    assert_eq!(status.message(), "Tokens to acquire must be greater than zero");
    assert!(service.store.counters.is_empty());
}

#[test]
fn test_invalid_tokens_negative() {
    let mut service = setup_test_server();
    let result = service.acquire("test:negative:1", -1);
    assert!(result.is_err());
    let status = result.unwrap_err();
    assert_eq!(status.code(), StatusCode::InvalidArgument);
}

#[test]
fn test_empty_key() {
    let mut service = setup_test_server();
    let result = service.acquire("", 1);
    assert!(result.is_err());
    let status = result.unwrap_err();
    assert_eq!(status.code(), StatusCode::InvalidArgument);
    assert_eq!(status.message(), "Key must not be empty");
}

#[test]
fn test_different_keys_independent() {
    let mut service = setup_test_server();
    let response = service.acquire("test:key1:1", 10).unwrap();
    assert_eq!(response.allowed, true);
    let response = service.acquire("test:key2:1", 5).unwrap();
    assert_eq!(response.allowed, true);
    assert_eq!(response.remaining, 5);
}

#[test]
fn test_concurrent_requests() {
    let mut service = setup_test_server();
    let key = "test:concurrent:1";
    // All five increments land before any decision is taken.
    let plans: Vec<CounterPlan> = (0..5).map(|_| service.plan(key, 2).unwrap()).collect();
    let counts: Vec<(u32, u32)> = plans
        .iter()
        .map(|plan| (service.store.increment(plan), service.store.read_previous(plan)))
        .collect();
    let mut allowed_count = 0;
    for (plan, (current, previous)) in plans.iter().zip(counts) {
        if service.finish(plan, current, previous).unwrap().allowed {
            allowed_count += 1;
        }
    }
    assert!(allowed_count == 5);
}

#[test]
fn exhausted_key_leaves_another_untouched() {
    let mut service = setup_test_server();
    assert!(service.acquire("k3", 10).unwrap().allowed);
    assert!(!service.acquire("k3", 1).unwrap().allowed);
    let response = service.acquire("k4", 1).unwrap();
    assert!(response.allowed);
    assert_eq!(response.remaining, 9);
}

#[test]
fn denied_request_still_counts_against_the_window() {
    let mut service = setup_test_server();
    assert!(service.acquire("k6", 10).unwrap().allowed);
    assert!(!service.acquire("k6", 3).unwrap().allowed);
    let plan = service.plan("k6", 1).unwrap();
    assert_eq!(service.store.counters[&plan.current_key], 13);
}
