//! Selection of the clock behind a limiter. The admission logic never
//! changes with the clock: the choice trades first-call latency against
//! per-read cost only.

use vstd::prelude::*;
use crate::quanta_time_source::QuantaTimeSource;
use crate::std_time_source::StdTimeSource;

verus! {

/// The single capability a gate needs from a clock: a monotonically
/// non-decreasing millisecond counter relative to an arbitrary,
/// process-local epoch. Pick the concrete strategy when the limiter is
/// built.
pub enum TimeSource {
    /// One platform clock read per call; always correct, no setup cost.
    Direct(StdTimeSource),
    /// Reads from a calibrated clock; a one-time calibration delay, then
    /// cheaper reads.
    Calibrated(QuantaTimeSource),
}

impl TimeSource {
    /// The direct strategy.
    pub fn direct() -> (r: TimeSource)
        ensures
            r is Direct,
    {
        TimeSource::Direct(StdTimeSource::new())
    }

    /// The cached/calibrated strategy.
    pub fn calibrated() -> (r: TimeSource)
        ensures
            r is Calibrated,
    {
        TimeSource::Calibrated(QuantaTimeSource::new())
    }

    /// Milliseconds since this source's own epoch: non-decreasing over
    /// the source's life, saturating rather than wrapping if the process
    /// outlives the representable range.
    pub fn now_ms(&self) -> u64 {
        match self {
            TimeSource::Direct(s) => s.now_ms(),
            TimeSource::Calibrated(s) => s.now_ms(),
        }
    }
}

} // verus!
