//! The cached/calibrated time-source strategy: readings come from a
//! calibrated clock that amortizes the cost of querying the platform
//! timer. Building the first clock in a process pays a one-time
//! calibration delay; the calibration is shared with any other user of
//! the same clock crate.

use vstd::prelude::*;
use crate::std_time_source::{saturate_ms, span_whole_ms};

verus! {

#[verifier::external_type_specification]
#[verifier::external_body]
pub struct ExClock(quanta::Clock);

#[verifier::external_type_specification]
#[verifier::external_body]
pub struct ExQuantaInstant(quanta::Instant);

/// Relies on `quanta::Clock::new`: builds a clock on the best reference
/// and source clocks available, calibrating once per process (the
/// calibration lives in a shared one-time cell inside the crate). The
/// clock is opaque, so nothing is promised of it.
#[verifier::external_body]
fn clock_new() -> (r: quanta::Clock) {
    quanta::Clock::new()
}

/// Relies on `quanta::Clock::now`: the current time scaled to reference
/// time, documented to be monotonically increasing between calls on one
/// clock. The value depends on when the call runs, so nothing is
/// promised of it.
#[verifier::external_body]
fn clock_now(clock: &quanta::Clock) -> (r: quanta::Instant) {
    clock.now()
}

/// Relies on `quanta::Instant::saturating_duration_since`: the span from
/// `earlier` to `later`, or zero if `earlier` is not the earlier of the
/// two; it never panics. The instants are opaque, so nothing is promised
/// of the value.
#[verifier::external_body]
fn quanta_span_since(later: &quanta::Instant, earlier: &quanta::Instant) -> (r:
    core::time::Duration) {
    later.saturating_duration_since(*earlier)
}

/// A time source over a calibrated clock: a small allocation and a
/// calibration delay when the first one is built, faster reads after.
///
/// Readings count from a reference instant taken when the source is
/// built, so they start near zero and never decrease for the life of the
/// process.
pub struct QuantaTimeSource {
    clock: quanta::Clock,
    epoch: quanta::Instant,
}

impl QuantaTimeSource {
    /// A fresh source whose reference instant is the moment of this call.
    pub fn new() -> QuantaTimeSource {
        let clock = clock_new();
        let epoch = clock_now(&clock);
        QuantaTimeSource { clock, epoch }
    }

    /// Milliseconds elapsed since the reference instant, saturating at
    /// `u64::MAX` rather than silently wrapping.
    pub fn now_ms(&self) -> u64 {
        let now = clock_now(&self.clock);
        let span = quanta_span_since(&now, &self.epoch);
        saturate_ms(span_whole_ms(&span))
    }
}

} // verus!
