//! Scoped wall-clock measurement of a phase.
//!
//! Time is read from the machine's clock, so nothing can be promised of
//! the measured values; the trusted wrappers therefore carry no contract.

use vstd::prelude::*;

verus! {

#[verifier::external_type_specification]
#[verifier::external_body]
pub struct ExInstant(std::time::Instant);

/// Relies on std::time::Instant::now: the current instant of the
/// monotonic clock.
#[verifier::external_body]
fn instant_now() -> (r: std::time::Instant) {
    std::time::Instant::now()
}

/// Relies on std::time::Instant::elapsed: the wall-clock time since
/// `start`, converted to nanoseconds.
#[verifier::external_body]
fn nanos_since(start: &std::time::Instant) -> (r: u128) {
    start.elapsed().as_nanos()
}

/// A scoped wall-clock timer: records its start instant when created.
pub struct Timer {
    started: std::time::Instant,
}

impl Timer {
    /// Begin timing a phase.
    pub fn start() -> (r: Timer) {
        Timer { started: instant_now() }
    }

    /// Nanoseconds of wall-clock time since this timer was started.
    pub fn elapsed_nanos(&self) -> (r: u128) {
        nanos_since(&self.started)
    }
}

}
