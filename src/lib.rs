//! Admission decisions for a distributed rate limiter: the sliding-window
//! estimator, the policy resolver, the windowed counter schema and the
//! request orchestration that ties them together.

pub mod clock;
pub mod algo;
pub mod config;
pub mod store;
pub mod server;
