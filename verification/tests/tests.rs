use std::time::{Duration, Instant};

use only_every::{compare_times, round_up, Interval, OnlyEvery, TimeSource};

/// Busy-wait until at least `span` has passed since `start`.
fn wait_until(start: Instant, span: Duration) {
    while Instant::now().saturating_duration_since(start) < span {
        std::hint::spin_loop();
    }
}

#[test]
fn test_cmp() {
    let table: &[(u64, u64, bool)] = &[
        (0, 1, true),
        (1, 0, false),
        (0, 1, true),
        (5, 5, false),
        (u64::MAX - 5, 3, true),
        (3, u64::MAX - 5, false),
    ];

    for (a, b, res) in table.iter().cloned() {
        assert_eq!(compare_times(a, b), res, "{} < {}", a, b);
    }
}

#[test]
fn test_round_up() {
    assert_eq!(round_up(Interval::from_secs(0)), 1);
    assert_eq!(round_up(Interval::from_nanos(500)), 1);
    assert_eq!(round_up(Interval::new(1, 500000)), 1001);
}

#[test]
fn simple() {
    let gate = OnlyEvery::new();
    let mut counter: u64 = 0;

    let now = Instant::now();
    while Instant::now() - now < Duration::from_millis(1100) {
        if gate.check(Interval::from_millis(200)) {
            counter += 1;
        }
    }

    assert_eq!(counter, 6);
}

#[test]
fn limiters_are_distinct() {
    let gate1 = OnlyEvery::new();
    let gate2 = OnlyEvery::new();
    let mut c1 = 0;
    let mut c2 = 0;

    for _ in 0..2 {
        if gate1.check(Interval::from_secs(1)) {
            c1 += 1;
        }
        if gate2.check(Interval::from_secs(1)) {
            c2 += 1;
        }
    }

    assert_eq!(c1, 1);
    assert_eq!(c2, 1);
}

#[test]
fn first_check_always_admits() {
    // A huge interval on a brand-new gate still admits the first call.
    let gate = OnlyEvery::new();
    assert!(gate.check(Interval::from_secs(3600)));

    // So does a gate whose first check only happens a while after it was
    // built, with an interval far smaller than the wait.
    let gate2 = OnlyEvery::new();
    wait_until(Instant::now(), Duration::from_millis(5));
    assert!(gate2.check(Interval::from_nanos(1)));
}

#[test]
fn second_check_within_interval_rejected() {
    let gate = OnlyEvery::new();
    assert!(gate.check(Interval::from_secs(3600)));
    assert!(!gate.check(Interval::from_secs(3600)));
}

#[test]
fn shortest_interval_wins_transiently() {
    // One shared "last admission" timestamp: a caller passing a shorter
    // interval is admitted on the shorter schedule, even while a longer
    // interval is also in use.
    let gate = OnlyEvery::new();
    assert!(gate.check(Interval::from_secs(3600)));
    wait_until(Instant::now(), Duration::from_millis(5));
    assert!(gate.check(Interval::from_millis(1)));
    assert!(!gate.check(Interval::from_secs(3600)));
}

#[test]
fn calibrated_gate_admits() {
    let gate = OnlyEvery::with_time_source(TimeSource::calibrated());
    assert!(gate.check(Interval::from_millis(100)));
    assert!(!gate.check(Interval::from_millis(100)));
}

#[test]
fn round_up_edges() {
    // Exact milliseconds stay exact.
    assert_eq!(round_up(Interval::from_millis(200)), 200);
    assert_eq!(round_up(Interval::from_millis(1000)), 1000);
    assert_eq!(round_up(Interval::from_secs(2)), 2000);
    // Zero and sub-millisecond intervals clamp up to one millisecond.
    assert_eq!(round_up(Interval::from_nanos(0)), 1);
    assert_eq!(round_up(Interval::from_nanos(999_999)), 1);
    assert_eq!(round_up(Interval::new(0, 0)), 1);
    // A sub-millisecond remainder rounds a whole number of milliseconds up
    // by exactly one.
    assert_eq!(round_up(Interval::new(0, 1_000_001)), 2);
    // Nanoseconds beyond one second count toward the total.
    assert_eq!(round_up(Interval::new(5, 2_000_000_000)), 7000);
    // An interval beyond the representable range saturates.
    assert_eq!(round_up(Interval::from_secs(u64::MAX)), i64::MAX);
}

#[test]
fn time_sources_do_not_go_backwards() {
    let direct = TimeSource::direct();
    let a = direct.now_ms();
    let b = direct.now_ms();
    assert!(a <= b);

    let calibrated = TimeSource::calibrated();
    let c = calibrated.now_ms();
    let d = calibrated.now_ms();
    assert!(c <= d);
}
