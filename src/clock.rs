//! Wall-clock instants as milliseconds since the Unix epoch, and the clock
//! abstraction that supplies them.

use vstd::prelude::*;

verus! {

/// An instant, counted in whole milliseconds since the Unix epoch.
#[derive(Debug, Clone, Copy, PartialEq, Eq, Structural, PartialOrd, Ord, Hash)]
pub struct Timestamp {
    pub millis: u128,
}

/// A source of the current instant. Production code reads the system wall
/// clock; tests substitute a fixed or advancing clock.
pub trait Clock {
    fn now(&self) -> Timestamp;
}

/// The operating system's wall clock.
#[derive(Debug, Clone, Copy)]
pub struct SystemClock;

impl Clock for SystemClock {
    fn now(&self) -> Timestamp {
        Timestamp { millis: wall_clock_millis() }
    }
}

/// Relies on `std::time::SystemTime::now` and `duration_since`: the current
/// wall-clock time since the epoch. Nothing is promised of the value; a clock
/// set before the epoch reads as the epoch itself.
#[verifier::external_body]
fn wall_clock_millis() -> u128 {
    let since = std::time::SystemTime::now().duration_since(std::time::UNIX_EPOCH);
    since.map(|d| d.as_millis()).unwrap_or(0)
}

/// Milliseconds since the epoch of an instant.
pub fn to_unix_millis(time: Timestamp) -> (r: u128)
    ensures
        r == time.millis,
{
    time.millis
}

/// The instant that lies `millis` milliseconds after the epoch.
pub fn from_unix_millis(millis: u64) -> (r: Timestamp)
    ensures
        r.millis == millis,
{
    Timestamp { millis: millis as u128 }
}

} // verus!
