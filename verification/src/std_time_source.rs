//! The direct time-source strategy: every reading queries the platform's
//! monotonic clock and reports milliseconds since a fixed reference
//! instant.

use vstd::prelude::*;

verus! {

#[verifier::external_type_specification]
#[verifier::external_body]
pub struct ExInstant(std::time::Instant);

/// Relies on `std::time::Instant::now`: an opaque reading of the
/// platform's monotonic clock. The value depends on when the call runs,
/// so nothing is promised of it.
#[verifier::external_body]
pub(crate) fn instant_now() -> (r: std::time::Instant) {
    std::time::Instant::now()
}

/// Relies on `std::time::Instant::saturating_duration_since`: the span
/// from `earlier` to `later`, or zero if `earlier` is not the earlier of
/// the two; it never panics. The value depends on the two opaque
/// instants, so nothing is promised of it.
#[verifier::external_body]
pub(crate) fn span_since(later: &std::time::Instant, earlier: &std::time::Instant) -> (r:
    core::time::Duration) {
    later.saturating_duration_since(*earlier)
}

/// Relies on `core::time::Duration::as_millis`: the whole number of
/// milliseconds in the span; it never panics. The span itself is opaque,
/// so nothing is promised of the value.
#[verifier::external_body]
pub(crate) fn span_whole_ms(span: &core::time::Duration) -> (r: u128) {
    span.as_millis()
}

/// Reduce a whole-millisecond count to `u64`, saturating at the top of
/// the range rather than silently wrapping.
pub(crate) fn saturate_ms(ms: u128) -> (r: u64)
    ensures
        ms > u64::MAX ==> r == u64::MAX,
        ms <= u64::MAX ==> r == ms,
{
    if ms > u64::MAX as u128 {
        u64::MAX
    } else {
        ms as u64
    }
}

/// A time source that reads the platform's monotonic clock directly on
/// every call: simple and always correct, at one clock read per call.
///
/// Readings count from a reference instant fixed when the source is
/// built, so they start near zero and never decrease for the life of the
/// process.
pub struct StdTimeSource {
    epoch: std::time::Instant,
}

impl StdTimeSource {
    /// A fresh source whose reference instant is the moment of this call.
    pub fn new() -> StdTimeSource {
        StdTimeSource { epoch: instant_now() }
    }

    /// Milliseconds elapsed since the reference instant, saturating at
    /// `u64::MAX` rather than silently wrapping.
    pub fn now_ms(&self) -> u64 {
        let now = instant_now();
        let span = span_since(&now, &self.epoch);
        saturate_ms(span_whole_ms(&span))
    }
}

} // verus!
