//! The admission gate: one atomic "last admitted" timestamp and a
//! compare-and-exchange that lets at most one caller through per
//! interval.

use vstd::prelude::*;
use vstd::arithmetic::div_mod::{lemma_div_by_multiple, lemma_div_is_ordered};
use core::sync::atomic::{AtomicI64, Ordering};
use crate::compare_times::time_before;
use crate::interval::{round_up, Interval};
use crate::time_source::TimeSource;

verus! {

/// The sentinel stored by a gate that has not yet admitted anything.
///
/// Its bit pattern is the midpoint of the 64-bit modular space,
/// `u64::MAX / 2 + 1`; as a signed value it sits below every reachable
/// timestamp, so the very first check of a fresh gate always admits, no
/// matter how long the process has already been running.
pub const NEVER_ADMITTED: i64 = i64::MIN;

/// The earliest timestamp at which the next admission is due after one at
/// `last` with a minimum interval of `interval_ms`: their sum, saturating
/// at the top of the range rather than wrapping.
pub open spec fn next_admission(last: int, interval_ms: int) -> int {
    if last + interval_ms > i64::MAX {
        i64::MAX as int
    } else {
        last + interval_ms
    }
}

/// The admission decision: a reading of `now` is eligible exactly when it
/// has reached the next admission time.
pub open spec fn admission_due_spec(last: int, now: int, interval_ms: int) -> bool {
    now >= next_admission(last, interval_ms)
}

/// Decide admission from a stored timestamp `last`, a current reading
/// `now`, and a rounded interval of `interval_ms` milliseconds.
///
/// This is the whole of the admission logic; [`OnlyEvery::check`] merely
/// feeds it the stored value and a fresh clock reading, and records the
/// admission atomically when it says yes.
pub fn admission_due(last: i64, now: i64, interval_ms: i64) -> (r: bool)
    requires
        1 <= interval_ms,
    ensures
        r == admission_due_spec(last as int, now as int, interval_ms as int),
{
    let next: i64 = if last <= i64::MAX - interval_ms {
        last + interval_ms
    } else {
        i64::MAX
    };
    now >= next
}

/// Clamp a raw millisecond reading into the nonnegative timestamp range,
/// saturating at the top rather than silently wrapping. Every reading the
/// admission decision sees passes through here, so readings are always
/// nonnegative.
fn clamp_reading(now_raw: u64) -> (r: i64)
    ensures
        0 <= r,
        now_raw > i64::MAX as u64 ==> r == i64::MAX,
        now_raw <= i64::MAX as u64 ==> r == now_raw,
{
    if now_raw > i64::MAX as u64 {
        i64::MAX
    } else {
        now_raw as i64
    }
}

/// First-call admission: with the never-admitted sentinel stored, the
/// decision admits every reachable timestamp, whatever the interval.
pub proof fn lemma_first_check_admits(now: i64, interval_ms: i64)
    requires
        0 <= now,
        1 <= interval_ms,
    ensures
        admission_due_spec(NEVER_ADMITTED as int, now as int, interval_ms as int),
{
}

/// Periodicity: once an admission at timestamp `last` is recorded, the
/// next reading to win admission lies at least the full interval later,
/// so admissions on one limiter are never closer together than the
/// interval in use.
pub proof fn lemma_admissions_spaced(last: i64, now: i64, interval_ms: i64)
    requires
        0 <= last,
        1 <= interval_ms,
        last + interval_ms <= i64::MAX,
        admission_due_spec(last as int, now as int, interval_ms as int),
    ensures
        now - last >= interval_ms,
{
}

/// Timestamps spaced at least `interval_ms` apart spread over at least
/// `interval_ms` per step in total.
proof fn lemma_admissions_spread(times: Seq<int>, interval_ms: int)
    requires
        1 <= interval_ms,
        1 <= times.len(),
        forall|i: int|
            0 <= i && i + 1 < times.len() ==> #[trigger] times[i + 1] >= times[i] + interval_ms,
    ensures
        times.last() - times[0] >= (times.len() - 1) * interval_ms,
    decreases times.len(),
{
    if times.len() > 1 {
        let rest = times.drop_last();
        assert(rest.len() == times.len() - 1);
        assert forall|i: int|
            0 <= i && i + 1 < rest.len() implies #[trigger] rest[i + 1] >= rest[i]
            + interval_ms by {
            assert(rest[i + 1] == times[i + 1]);
            assert(rest[i] == times[i]);
            assert(times[i + 1] >= times[i] + interval_ms);
        }
        lemma_admissions_spread(rest, interval_ms);
        let j = times.len() - 2;
        assert(times[j + 1] >= times[j] + interval_ms);
        assert(times.last() == times[j + 1]);
        assert(rest.last() == times[j]);
        assert(rest[0] == times[0]);
        assert(times.last() - times[0] >= (rest.len() - 1) * interval_ms + interval_ms);
        assert((rest.len() - 1) * interval_ms + interval_ms == (times.len() - 1)
            * interval_ms) by (nonlinear_arith)
            requires
                rest.len() == times.len() - 1,
        ;
    } else {
        assert(times.last() == times[0]);
        assert((times.len() - 1) * interval_ms == 0) by (nonlinear_arith)
            requires
                times.len() == 1,
        ;
    }
}

/// Periodicity, counted: timestamps of successive admissions on one
/// limiter are spaced at least the interval apart, so however fast a
/// caller polls, a window `window` milliseconds wide holds at most
/// `window / interval_ms` admissions beyond the first.
pub proof fn lemma_admission_count_bounded(times: Seq<int>, interval_ms: int, window: int)
    requires
        1 <= interval_ms,
        1 <= times.len(),
        forall|i: int|
            0 <= i && i + 1 < times.len() ==> #[trigger] times[i + 1] >= times[i] + interval_ms,
        times.last() - times[0] <= window,
    ensures
        times.len() - 1 <= window / interval_ms,
{
    lemma_admissions_spread(times, interval_ms);
    let n = times.len() - 1;
    lemma_div_by_multiple(n as int, interval_ms);
    lemma_div_is_ordered(n * interval_ms, window, interval_ms);
}

/// Monotonic non-regression: a reading that wins admission is never behind
/// the stored timestamp it replaces — strictly ahead of any stored value
/// below the top of the range, and never "before" a real (non-sentinel)
/// stored timestamp under the wraparound comparison.
pub proof fn lemma_gate_monotonic(last: i64, now: i64, interval_ms: i64)
    requires
        1 <= interval_ms,
        admission_due_spec(last as int, now as int, interval_ms as int),
    ensures
        now >= last,
        last < i64::MAX ==> now > last,
        0 <= last ==> !time_before(now as u64, last as u64),
{
    if 0 <= last {
        assert(now as u64 == now as int);
        assert(last as u64 == last as int);
    }
}

/// A rate limiter which lets one event through per caller-chosen
/// interval.
///
/// Call [`check`](OnlyEvery::check) and perform the gated action exactly
/// when it returns `true`. Any number of threads may share one gate with
/// no further synchronization: the stored timestamp is only ever moved by
/// an atomic compare-and-exchange, and every call returns immediately —
/// no call ever blocks, waits or queues.
///
/// The interval may change between calls, and this does what you expect
/// as long as usage is single-threaded. When threads pass different
/// intervals concurrently, the limiter deliberately tracks the fastest
/// (shortest) interval in use until all callers converge on one value
/// again: there is exactly one shared "last admission" timestamp, not one
/// per distinct interval.
pub struct OnlyEvery {
    time_source: TimeSource,
    last: AtomicI64,
}

impl OnlyEvery {
    /// The time source this gate reads its clock from.
    pub closed spec fn source(&self) -> TimeSource {
        self.time_source
    }

    /// A fresh, independent gate on the direct time source, sharing no
    /// state with any other gate.
    pub fn new() -> (r: OnlyEvery)
        ensures
            r.source() is Direct,
    {
        OnlyEvery::with_time_source(TimeSource::direct())
    }

    /// A fresh, independent gate reading its clock from `time_source`.
    pub fn with_time_source(time_source: TimeSource) -> (r: OnlyEvery)
        ensures
            r.source() == time_source,
    {
        let last = AtomicI64::new(NEVER_ADMITTED);
        OnlyEvery { time_source, last }
    }

    /// Check whether the gated action may run now; if this returns
    /// `true`, the admission has already been recorded, and the caller
    /// should treat it as a mandate to run the action.
    ///
    /// The interval is rounded up to whole milliseconds, at least one.
    /// When several threads race, at most one can win the exchange for a
    /// given stored value; the losers return `false` without retrying and
    /// simply defer to the boundary the winner established.
    pub fn check(&self, interval: Interval) -> bool {
        let interval_ms = round_up(interval);
        let now_raw = self.time_source.now_ms();
        let now = clamp_reading(now_raw);
        let last = self.last.load(Ordering::Relaxed);
        proof {
            // A gate that has admitted nothing still stores the sentinel,
            // and the decision admits every reading over it: had the load
            // returned `NEVER_ADMITTED`, the branch below would admit.
            lemma_first_check_admits(now, interval_ms);
        }
        if !admission_due(last, now, interval_ms) {
            return false;
        }
        proof {
            // An exchange that goes through replaces `last` by a reading
            // that is never behind it.
            lemma_gate_monotonic(last, now, interval_ms);
        }
        self.last.compare_exchange(last, now, Ordering::Relaxed, Ordering::Relaxed).is_ok()
    }
}

} // verus!
