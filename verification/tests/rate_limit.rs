use vocai::rate_limit::{ai_rate_key, image_rate_key, RateLimiter};

const SEC: u64 = 1_000_000_000;

#[test]
fn twenty_requests_per_hour_then_refused() {
    let mut l = RateLimiter::new(20, 3600);
    for i in 0..20u64 {
        assert!(l.is_allowed("ai:u1", i * SEC));
    }
    assert!(!l.is_allowed("ai:u1", 25 * SEC));
    assert!(!l.is_allowed("ai:u1", 3599 * SEC));
}

#[test]
fn requests_are_admitted_again_once_the_window_has_passed() {
    let mut l = RateLimiter::new(2, 10);
    assert!(l.is_allowed("k", 0));
    assert!(l.is_allowed("k", 5 * SEC));
    assert!(!l.is_allowed("k", 9 * SEC));
    assert!(l.is_allowed("k", 10 * SEC));
    assert!(!l.is_allowed("k", 11 * SEC));
    assert!(l.is_allowed("k", 15 * SEC));
}

#[test]
fn keys_are_limited_independently() {
    let mut l = RateLimiter::new(1, 60);
    assert!(l.is_allowed("ai:a", 0));
    assert!(l.is_allowed("ai:b", 0));
    assert!(!l.is_allowed("ai:a", SEC));
    assert!(l.is_allowed("image:a", SEC));
}

#[test]
fn zero_limit_refuses_everything() {
    let mut l = RateLimiter::new(0, 60);
    assert!(!l.is_allowed("k", 0));
    assert!(!l.is_allowed("k", 1000 * SEC));
}

#[test]
fn refused_requests_do_not_count() {
    let mut l = RateLimiter::new(1, 10);
    assert!(l.is_allowed("k", 0));
    for t in 1..10u64 {
        assert!(!l.is_allowed("k", t * SEC));
    }
    assert!(l.is_allowed("k", 10 * SEC));
}

#[test]
fn limiter_keys_name_the_purpose() {
    assert_eq!(ai_rate_key("abc"), "ai:abc");
    assert_eq!(image_rate_key("abc"), "image:abc");
}
