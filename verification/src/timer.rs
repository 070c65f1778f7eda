//! A stopwatch started when it is created.

use vstd::prelude::*;

use std::time::{Duration, Instant};

verus! {

/// A point on the monotonic clock.
#[verifier::external_type_specification]
#[verifier::external_body]
pub struct ExInstant(Instant);

/// `Instant::now`: the current reading of the monotonic clock. Nothing is
/// assumed of the value, which depends on when it is called.
#[verifier::external_body]
fn instant_now() -> Instant {
    Instant::now()
}

/// `Instant::elapsed`: the time since `start` (zero if the clock reads
/// earlier). Nothing is assumed of the value, which depends on when it is
/// called.
#[verifier::external_body]
fn instant_elapsed(start: &Instant) -> Duration {
    start.elapsed()
}

/// A stopwatch.
pub struct Timer {
    start: Instant,
}

impl Timer {
    /// A stopwatch started now.
    pub fn new() -> Timer {
        Timer { start: instant_now() }
    }

    /// The time since the stopwatch was started.
    pub fn elapsed(&self) -> Duration {
        instant_elapsed(&self.start)
    }
}

impl Default for Timer {
    fn default() -> Timer {
        Timer::new()
    }
}

} // verus!
