use futures_native::time::{Duration, Instant};

#[test]
fn durations_count_nanoseconds() {
    assert_eq!(Duration::from_secs(2).as_nanos(), 2_000_000_000);
    assert_eq!(Duration::from_millis(3).as_nanos(), 3_000_000);
    assert_eq!(Duration::from_micros(4).as_nanos(), 4_000);
    assert_eq!(Duration::from_nanos(5).as_nanos(), 5);
    assert!(Duration::zero().is_zero());
    assert!(!Duration::from_nanos(1).is_zero());
}

#[test]
fn duration_arithmetic_is_checked() {
    assert_eq!(Duration::from_nanos(2).checked_add(Duration::from_nanos(3)), Some(Duration::from_nanos(5)));
    assert_eq!(Duration::from_nanos(u64::MAX).checked_add(Duration::from_nanos(1)), None);
    assert_eq!(Duration::from_nanos(7).checked_mul(3), Some(Duration::from_nanos(21)));
    assert_eq!(Duration::from_nanos(u64::MAX).checked_mul(2), None);
}

#[test]
fn instants_move_along_the_clock() {
    let t = Instant::from_nanos(100);
    assert_eq!(t.as_nanos(), 100);
    assert_eq!(t.add_duration(Duration::from_nanos(5)), Instant::from_nanos(105));
    assert_eq!(t.checked_add(Duration::from_nanos(5)), Some(Instant::from_nanos(105)));
    assert_eq!(Instant::from_nanos(u64::MAX).checked_add(Duration::from_nanos(1)), None);
    assert_eq!(t.checked_sub(Duration::from_nanos(100)), Some(Instant::from_nanos(0)));
    assert_eq!(t.checked_sub(Duration::from_nanos(101)), None);
}

#[test]
fn durations_between_instants_saturate() {
    let early = Instant::from_nanos(10);
    let late = Instant::from_nanos(25);
    assert_eq!(late.saturating_duration_since(early), Duration::from_nanos(15));
    assert_eq!(early.saturating_duration_since(late), Duration::zero());
    assert_eq!(late.duration_since(early), Duration::from_nanos(15));
    assert_eq!(early.duration_since(late), Duration::zero());
    assert!(late.is_after(early));
    assert!(!early.is_after(late));
    assert!(!early.is_after(early));
}
