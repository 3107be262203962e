//! The clock the frame counter samples: a source of millisecond timestamps.
//! Implementations other than the system clock (a fixed clock in tests, for
//! one) plug in through the trait.

use vstd::prelude::*;

verus! {

/// A source of the current time, in milliseconds. Nothing is assumed of the
/// values: consumers state their own monotonicity demands.
pub trait Clock {
    fn now() -> u64;
}

/// The system clock. It reads wall-clock time, which the platform may step
/// backwards; a consumer demanding non-decreasing samples (the frame
/// counter's precondition, for one) must guard against that itself.
pub struct InstantClock;

/// Relies on std::time::SystemTime::now: the wall-clock time, converted to
/// whole milliseconds since the Unix epoch; a clock before the epoch reads
/// as zero. Nothing is promised of the value: it depends on the machine.
#[verifier::external_body]
fn system_now_millis() -> u64 {
    match std::time::SystemTime::now().duration_since(std::time::SystemTime::UNIX_EPOCH) {
        Ok(elapsed) => elapsed.as_millis() as u64,
        Err(_) => 0,
    }
}

impl Clock for InstantClock {
    fn now() -> u64 {
        system_now_millis()
    }
}

/// The pluggable services an application is assembled from.
pub trait Dependencies: 'static {
    type Clock: Clock;
}

} // verus!
