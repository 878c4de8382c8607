use cyberguardian::rate::RateLimiter;

#[test]
fn third_call_within_window_is_refused() {
    let mut lim = RateLimiter::new(2);
    assert!(lim.allow_at(0));
    assert!(lim.allow_at(1_000));
    assert!(!lim.allow_at(2_000));
    assert_eq!(lim.recorded(), 2);
}

#[test]
fn capacity_returns_after_oldest_leaves_window() {
    let mut lim = RateLimiter::new(2);
    assert!(lim.allow_at(0));
    assert!(lim.allow_at(1_000));
    assert!(!lim.allow_at(60_000));
    assert!(lim.allow_at(60_001));
    assert!(!lim.allow_at(60_500));
    assert!(lim.allow_at(61_001));
}

#[test]
fn zero_capacity_refuses_everything() {
    let mut lim = RateLimiter::new(0);
    assert!(!lim.allow());
    assert!(!lim.allow_at(5));
    assert_eq!(lim.limit_per_minute(), 0);
}

#[test]
fn clock_based_calls_fill_capacity() {
    let mut lim = RateLimiter::new(3);
    assert!(lim.allow());
    assert!(lim.allow());
    assert!(lim.allow());
    assert!(!lim.allow());
}
