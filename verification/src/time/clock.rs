//! A clock for the frame loop.
use vstd::prelude::*;
use std::time::Duration;
use std::time::Instant;

verus! {

/// `std::time::Instant`: a moment on the monotonic clock.
#[verifier::external_type_specification]
#[verifier::external_body]
pub struct ExInstant(Instant);

/// `Instant::now`: the present moment. Nothing is known of it in advance.
#[verifier::external_body]
fn now() -> (instant: Instant) {
    Instant::now()
}

/// `Instant::elapsed`: the time that has passed since `instant`. Nothing is
/// known of it in advance.
#[verifier::external_body]
fn elapsed(instant: &Instant) -> (passed: Duration) {
    instant.elapsed()
}

/// A clock that measures the time between two calls of `get_time`. It
/// remembers when it was made, or when `get_time` was last called.
pub struct Clock {
    instant: Instant,
}

impl Clock {
    /// The moment from which the clock measures.
    pub closed spec fn start(&self) -> Instant {
        self.instant
    }

    /// A clock that starts measuring now.
    pub fn new() -> (clock: Clock) {
        Clock::starting_at(now())
    }

    /// The time that has passed since the last call, or since the clock was
    /// made. The clock measures anew from the moment of this call.
    pub fn get_time(&mut self) -> (dt: Duration) {
        let dt = elapsed(&self.instant);
        self.restart(dt, now())
    }

    /// A clock that measures from `instant`.
    pub fn starting_at(instant: Instant) -> (clock: Clock)
        ensures
            clock.start() == instant,
    {
        Clock { instant }
    }

    /// Hands out the reading `passed` and lets the clock measure from
    /// `instant` on.
    pub fn restart(&mut self, passed: Duration, instant: Instant) -> (dt: Duration)
        ensures
            dt == passed,
            final(self).start() == instant,
    {
        self.instant = instant;
        passed
    }
}

} // verus!
