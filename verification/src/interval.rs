//! The caller-supplied minimum interval between admissions, and its
//! rounding to whole milliseconds.

use vstd::prelude::*;

verus! {

/// A span of time given as whole seconds plus nanoseconds, viewed in
/// contracts as its total length in nanoseconds.
///
/// The limiter rounds every interval up to whole milliseconds, so two
/// intervals with the same total nanosecond count behave identically;
/// the split into seconds and nanoseconds is a convenience for callers.
#[derive(Clone, Copy)]
pub struct Interval {
    secs: u64,
    nanos: u32,
}

impl View for Interval {
    type V = int;

    /// The total length in nanoseconds.
    closed spec fn view(&self) -> int {
        self.secs * 1_000_000_000 + self.nanos
    }
}

impl Interval {
    /// An interval of `secs` whole seconds and `nanos` further nanoseconds.
    ///
    /// `nanos` need not stay below one second; the total is what counts.
    pub fn new(secs: u64, nanos: u32) -> (r: Interval)
        ensures
            r@ == secs * 1_000_000_000 + nanos,
    {
        Interval { secs, nanos }
    }

    /// An interval of `secs` whole seconds.
    pub fn from_secs(secs: u64) -> (r: Interval)
        ensures
            r@ == secs * 1_000_000_000,
    {
        Interval { secs, nanos: 0 }
    }

    /// An interval of `ms` whole milliseconds.
    pub fn from_millis(ms: u64) -> (r: Interval)
        ensures
            r@ == ms * 1_000_000,
    {
        let secs = ms / 1000;
        let rem = ms % 1000;
        let nanos = (rem * 1_000_000) as u32;
        proof {
            assert(secs * 1_000_000_000 + rem * 1_000_000 == ms * 1_000_000) by (nonlinear_arith)
                requires
                    secs == ms / 1000,
                    rem == ms % 1000,
            ;
        }
        Interval { secs, nanos }
    }

    /// An interval of `ns` nanoseconds.
    pub fn from_nanos(ns: u64) -> (r: Interval)
        ensures
            r@ == ns,
    {
        let secs = ns / 1_000_000_000;
        let nanos = (ns % 1_000_000_000) as u32;
        proof {
            assert(secs * 1_000_000_000 + ns % 1_000_000_000 == ns) by (nonlinear_arith)
                requires
                    secs == ns / 1_000_000_000,
            ;
        }
        Interval { secs, nanos }
    }
}

/// An interval of `total_nanos` nanoseconds, rounded up to whole
/// milliseconds, clamped to at least one millisecond, and saturating at
/// `i64::MAX` milliseconds.
pub open spec fn round_up_spec(total_nanos: int) -> int {
    let ceil_ms = (total_nanos + 999_999) / 1_000_000;
    if ceil_ms < 1 {
        1
    } else if ceil_ms > i64::MAX {
        i64::MAX as int
    } else {
        ceil_ms
    }
}

/// Round an interval up to the next whole millisecond and return that
/// number of milliseconds.
///
/// A zero or sub-millisecond interval yields 1 ms — never 0 — so the
/// gate's state always strictly advances; an interval beyond what fits in
/// `i64` milliseconds saturates rather than wrapping.
pub fn round_up(interval: Interval) -> (r: i64)
    ensures
        r == round_up_spec(interval@),
{
    let ns_ms: u32 = interval.nanos / 1_000_000;
    let ns_rem: u32 = interval.nanos % 1_000_000;
    let frac: u64 = if ns_rem > 0 {
        ns_ms as u64 + 1
    } else {
        ns_ms as u64
    };
    proof {
        lemma_ceil_split(interval.secs as int, interval.nanos as int);
        assert(frac == (interval.nanos + 999_999) / 1_000_000) by (nonlinear_arith)
            requires
                ns_ms == interval.nanos / 1_000_000,
                ns_rem == interval.nanos % 1_000_000,
                frac == if ns_rem > 0 { ns_ms + 1int } else { ns_ms as int },
        ;
    }
    if interval.secs > (i64::MAX as u64) / 1000 {
        i64::MAX
    } else {
        let base: u64 = interval.secs * 1000;
        let sum: u64 = base + frac;
        let clamped: u64 = if sum > i64::MAX as u64 {
            i64::MAX as u64
        } else {
            sum
        };
        if clamped < 1 {
            1
        } else {
            clamped as i64
        }
    }
}

/// Rounding a seconds-plus-nanoseconds total up to milliseconds splits into
/// the seconds' exact milliseconds plus the nanoseconds rounded up.
proof fn lemma_ceil_split(secs: int, nanos: int)
    requires
        0 <= secs,
        0 <= nanos,
    ensures
        (secs * 1_000_000_000 + nanos + 999_999) / 1_000_000 == secs * 1000 + (nanos + 999_999)
            / 1_000_000,
{
    assert((secs * 1_000_000_000 + nanos + 999_999) / 1_000_000 == secs * 1000 + (nanos + 999_999)
        / 1_000_000) by (nonlinear_arith)
        requires
            0 <= secs,
            0 <= nanos,
    ;
}

} // verus!
