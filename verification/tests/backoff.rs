use edgewarden::backoff::Backoff;
use std::time::Duration;

#[test]
fn backoff_grows_then_caps() {
    let base = Duration::from_millis(100);
    let cap = Duration::from_secs(5);
    assert_eq!(Backoff::delay_for_attempt(base, cap, 0), Duration::from_millis(100));
    assert_eq!(Backoff::delay_for_attempt(base, cap, 1), Duration::from_millis(200));
    assert_eq!(Backoff::delay_for_attempt(base, cap, 10), Duration::from_secs(5));
    assert_eq!(Backoff::delay_for_attempt(base, cap, 20), Duration::from_secs(5));
}

#[test]
fn backoff_jitter_stays_within_cap() {
    let mut b = Backoff::new(Duration::from_millis(100), Duration::from_secs(2));
    for _ in 0..100 {
        let d = b.next_delay();
        assert!(d <= Duration::from_secs(2));
    }
}

#[test]
fn backoff_reset_clears_attempts() {
    let mut b = Backoff::new(Duration::from_millis(100), Duration::from_secs(2));
    b.next_delay();
    b.next_delay();
    assert_eq!(b.attempts(), 2);
    b.reset();
    assert_eq!(b.attempts(), 0);
}

#[test]
fn jitter_is_half_plus_half_draw() {
    assert_eq!(Backoff::jittered(1000, 0), Duration::from_millis(500));
    assert_eq!(Backoff::jittered(1000, 1000), Duration::from_millis(1000));
    assert_eq!(Backoff::jittered(1000, 401), Duration::from_millis(700));
    assert_eq!(Backoff::jittered(0, 1), Duration::from_millis(0));
}

#[test]
fn delay_saturates_without_overflow() {
    let huge = Duration::from_secs(u64::MAX / 1000);
    let d = Backoff::delay_for_attempt(huge, huge, 10);
    assert_eq!(d, Duration::from_millis(((u64::MAX / 1000) * 1000) as u64));
}

#[test]
fn delay_keeps_doubling_past_ten_attempts() {
    let base = Duration::from_millis(1);
    let cap = Duration::from_secs(10);
    assert_eq!(Backoff::delay_for_attempt(base, cap, 10), Duration::from_millis(1024));
    assert_eq!(Backoff::delay_for_attempt(base, cap, 11), Duration::from_millis(2048));
    assert_eq!(Backoff::delay_for_attempt(base, cap, 13), Duration::from_millis(8192));
    assert_eq!(Backoff::delay_for_attempt(base, cap, 14), Duration::from_secs(10));
    assert_eq!(Backoff::delay_for_attempt(base, cap, u32::MAX), Duration::from_secs(10));
    assert_eq!(Backoff::delay_for_attempt(Duration::ZERO, cap, u32::MAX), Duration::ZERO);
}
