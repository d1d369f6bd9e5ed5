use flight_core::chrono::{Stopwatch, NANOS_PER_SECOND, ROLLOVER};

#[test]
fn zero_frequency_is_refused() {
    assert!(Stopwatch::new(0).is_none());
    assert!(Stopwatch::new(1).is_some());
}

#[test]
fn new_stopwatch_begins_at_reading_zero() {
    let watch = Stopwatch::new(64_000_000).unwrap();
    assert_eq!(watch.last(), 0);
    assert_eq!(watch.frequency_hz(), 64_000_000);
}

#[test]
fn split_counts_ticks_and_rebases() {
    let mut watch = Stopwatch::new(1_000).unwrap();
    watch.reset(100);
    assert_eq!(watch.split_ticks(350), 250);
    assert_eq!(watch.last(), 350);
    assert_eq!(watch.split_ticks(350), 0);
    assert_eq!(watch.split_ticks(351), 1);
}

#[test]
fn split_is_independent_of_rollover() {
    let mut plain = Stopwatch::new(1_000_000).unwrap();
    plain.reset(1_000);
    let mut wrapped = Stopwatch::new(1_000_000).unwrap();
    wrapped.reset(u32::MAX - 9);
    // 10_000 ticks later in both cases; the second counter wrapped on the way.
    assert_eq!(plain.split_ticks(11_000), 10_000);
    assert_eq!(wrapped.split_ticks(9_990), 10_000);
    assert_eq!(wrapped.last(), 9_990);
}

#[test]
fn split_just_short_of_a_whole_rollover() {
    let mut watch = Stopwatch::new(1).unwrap();
    watch.reset(5);
    assert_eq!(watch.split_ticks(4) as u64, ROLLOVER - 1);
}

#[test]
fn reset_discards_the_time_before_it() {
    let mut watch = Stopwatch::new(1_000).unwrap();
    watch.reset(0xffff_0000);
    watch.reset(0x10);
    assert_eq!(watch.split_ticks(0x30), 0x20);
}

#[test]
fn nanoseconds_follow_the_frequency() {
    let mut watch = Stopwatch::new(64_000_000).unwrap();
    watch.reset(0);
    // 640_000 ticks at 64 MHz are 10 ms.
    assert_eq!(watch.split_time_ns(640_000), 10_000_000);
    // One tick at 64 MHz is 15.625 ns, rounded down.
    assert_eq!(watch.split_time_ns(640_001), 15);
    assert_eq!(watch.last(), 640_001);
}

#[test]
fn nanoseconds_round_down_and_never_overflow() {
    let mut slow = Stopwatch::new(3).unwrap();
    slow.reset(0);
    assert_eq!(slow.split_time_ns(1), 333_333_333);
    assert_eq!(slow.split_time_ns(3), 666_666_666);
    let mut slowest = Stopwatch::new(1).unwrap();
    slowest.reset(1);
    assert_eq!(slowest.split_time_ns(0), (ROLLOVER - 1) * NANOS_PER_SECOND);
}

#[test]
fn nanoseconds_across_rollover() {
    let mut watch = Stopwatch::new(1_000_000).unwrap();
    watch.reset(0xffff_fff0);
    assert_eq!(watch.split_time_ns(0x10), 32_000);
}

#[test]
fn consecutive_splits_add_up() {
    let mut stepwise = Stopwatch::new(8_000_000).unwrap();
    stepwise.reset(0xffff_ff00);
    let first = stepwise.split_ticks(0xffff_fff0) as u64;
    let second = stepwise.split_ticks(0x0000_0123) as u64;
    let mut whole = Stopwatch::new(8_000_000).unwrap();
    whole.reset(0xffff_ff00);
    assert_eq!(first + second, whole.split_ticks(0x0000_0123) as u64);
}

#[test]
fn split_is_within_one_tick_of_the_time_between_readings() {
    // Time in microseconds, a counter of 1 kHz: 1000 microseconds per tick.
    let per_tick: u64 = 1_000;
    for (t0, t1) in [(1_500u64, 4_200u64), (999, 1_000), (0, 999), (2_000, 5_000), (7_001, 7_999)] {
        let mut watch = Stopwatch::new(1_000).unwrap();
        watch.reset((t0 / per_tick) as u32);
        let ticks = watch.split_ticks((t1 / per_tick) as u32) as u64;
        let measured = (ticks * per_tick) as i64;
        let passed = (t1 - t0) as i64;
        assert!((measured - passed).abs() < per_tick as i64, "{} vs {}", measured, passed);
    }
}
