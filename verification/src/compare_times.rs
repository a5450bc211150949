//! Wraparound-safe comparison of millisecond timestamps drawn from one
//! monotonic counter: serial-number arithmetic over the 64-bit modular
//! space.

use vstd::prelude::*;

verus! {

/// `a - b` reduced into `[0, 2^64)`, as the wrapping subtraction computes it.
pub open spec fn wrapped_diff(a: u64, b: u64) -> int {
    if a >= b {
        a - b
    } else {
        a - b + 0x1_0000_0000_0000_0000
    }
}

/// `a + d` reduced into `[0, 2^64)`, as the wrapping addition computes it.
pub open spec fn wrapped_sum(a: u64, d: u64) -> u64 {
    if a + d <= u64::MAX {
        (a + d) as u64
    } else {
        (a + d - 0x1_0000_0000_0000_0000) as u64
    }
}

/// Serial-number order: `a` is chronologically before `b` when the wrapped
/// difference `a - b` lands in the upper half of the modular space.
///
/// Meaningful only when the true distance between `a` and `b` is at most
/// `u64::MAX / 2`; see [`lemma_compare_times_chronological`].
pub open spec fn time_before(a: u64, b: u64) -> bool {
    wrapped_diff(a, b) > u64::MAX / 2
}

/// Is `a` chronologically before `b`, for two timestamps drawn from the same
/// monotonic counter and at most `u64::MAX / 2` apart?
///
/// The modular space is treated as a circular number line and the shorter
/// arc between the two points decides the order. Equal values compare as
/// "not before": this is a strict order.
pub fn compare_times(a: u64, b: u64) -> (r: bool)
    ensures
        r == time_before(a, b),
{
    let diff = a.wrapping_sub(b);
    diff > u64::MAX / 2
}

/// On reachable timestamps — millisecond counts that fit in the lower
/// half of the modular space — the serial-number order coincides with the
/// plain numeric order the admission decision uses.
pub proof fn lemma_time_before_on_timestamps(a: i64, b: i64)
    requires
        0 <= a,
        0 <= b,
    ensures
        time_before(a as u64, b as u64) == (a < b),
{
    assert(a as u64 == a as int);
    assert(b as u64 == b as int);
}

/// Serial-number comparison matches true chronological order: if `b` was
/// read `d` milliseconds after `a` from the same counter, with `d` no more
/// than half the modular space, then `a` is before `b` exactly when some
/// time has passed, and `b` is never before `a`.
pub proof fn lemma_compare_times_chronological(a: u64, d: u64)
    requires
        d <= u64::MAX / 2,
    ensures
        d > 0 ==> time_before(a, wrapped_sum(a, d)),
        !time_before(wrapped_sum(a, d), a),
        !time_before(a, a),
{
    let b = wrapped_sum(a, d);
    if a + d <= u64::MAX {
        assert(wrapped_diff(a, b) == if d == 0 { 0int } else { 0x1_0000_0000_0000_0000 - d });
        assert(wrapped_diff(b, a) == d);
    } else {
        assert(b < a);
        assert(wrapped_diff(a, b) == if d == 0 { 0int } else { 0x1_0000_0000_0000_0000 - d });
        assert(wrapped_diff(b, a) == d);
    }
}

} // verus!
