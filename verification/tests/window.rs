use adaptive_load::window::{within_window, SlidingWindowCounter};

#[test]
fn a_new_counter_counts_nothing() {
    let mut w = SlidingWindowCounter::new();
    assert_eq!(w.stored(), 0);
    assert_eq!(w.count_recent(5_000_000), 0);
}

#[test]
fn counts_the_starts_of_the_trailing_second() {
    let mut w = SlidingWindowCounter::new();
    for t in [100_000u64, 600_000, 1_200_000, 1_900_000, 2_000_000] {
        w.record_start(t);
    }
    assert_eq!(w.stored(), 5);
    assert_eq!(w.count_recent(2_000_000), 3);
    assert_eq!(w.stored(), 3);
}

#[test]
fn a_start_exactly_one_second_old_is_stale() {
    let mut w = SlidingWindowCounter::new();
    w.record_start(1_000_000);
    w.record_start(1_000_001);
    assert_eq!(w.count_recent(2_000_000), 1);
    assert_eq!(w.stored(), 1);
    assert_eq!(w.count_recent(2_000_001), 0);
    assert_eq!(w.stored(), 0);
}

#[test]
fn a_start_ahead_of_the_clock_counts() {
    let mut w = SlidingWindowCounter::new();
    w.record_start(9_000_000);
    w.record_start(u64::MAX);
    assert_eq!(w.count_recent(0), 2);
    assert_eq!(w.count_recent(9_999_999), 2);
    assert_eq!(w.count_recent(10_000_000), 1);
    assert_eq!(w.count_recent(u64::MAX), 1);
}

#[test]
fn the_order_of_recording_does_not_matter() {
    let mut w = SlidingWindowCounter::new();
    for t in [5_000_000u64, 100, 4_500_000, 3_999_999, 4_000_001, 7] {
        w.record_start(t);
    }
    assert_eq!(w.count_recent(5_000_000), 3);
    assert_eq!(w.stored(), 3);
    assert_eq!(w.count_recent(5_000_001), 2);
}

#[test]
fn memory_is_bounded_by_the_window() {
    let mut w = SlidingWindowCounter::new();
    let mut now = 0u64;
    for _ in 0..50_000 {
        now += 1_000;
        w.record_start(now);
        let counted = w.count_recent(now);
        assert!(counted <= 1000);
        assert_eq!(w.stored(), counted);
    }
    assert_eq!(w.count_recent(now), 1000);
}

#[test]
fn eviction_does_not_change_a_later_count() {
    let stamps = [10u64, 400_000, 900_000, 1_300_000, 1_700_000, 2_050_000];
    let mut read_twice = SlidingWindowCounter::new();
    let mut read_once = SlidingWindowCounter::new();
    for t in stamps {
        read_twice.record_start(t);
        read_once.record_start(t);
    }
    assert_eq!(read_twice.count_recent(1_500_000), 4);
    read_twice.record_start(2_100_000);
    read_once.record_start(2_100_000);
    assert_eq!(read_twice.count_recent(2_200_000), 4);
    assert_eq!(read_once.count_recent(2_200_000), 4);
}

#[test]
fn recency_is_a_strict_second() {
    assert!(within_window(0, 999_999));
    assert!(!within_window(0, 1_000_000));
    assert!(within_window(5, 5));
    assert!(within_window(6, 5));
    assert!(!within_window(0, u64::MAX));
    assert!(within_window(u64::MAX, 0));
}
