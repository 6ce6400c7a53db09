use manguins::rate_limit::{RateLimitError, RateLimiter};

const SEC: i128 = 1_000_000_000;

#[test]
fn rate_limiter_blocks_within_cooldown() {
    let mut l = RateLimiter::new(2);
    assert_eq!(l.check_at(1, 10 * SEC), Ok(()));
    assert_eq!(l.check_at(1, 11 * SEC), Err(RateLimitError { wait_secs: 2 }));
    assert_eq!(l.check_at(1, 12 * SEC - 1), Err(RateLimitError { wait_secs: 2 }));
    assert_eq!(l.check_at(1, 12 * SEC), Ok(()));
}

#[test]
fn rate_limiter_refusal_does_not_extend_cooldown() {
    let mut l = RateLimiter::new(2);
    assert_eq!(l.check_at(1, 0), Ok(()));
    assert!(l.check_at(1, SEC).is_err());
    assert_eq!(l.check_at(1, 2 * SEC), Ok(()));
}

#[test]
fn rate_limiter_users_independent() {
    let mut l = RateLimiter::new(5);
    assert_eq!(l.check_at(1, SEC), Ok(()));
    assert_eq!(l.check_at(2, SEC), Ok(()));
    assert!(l.check_at(1, 2 * SEC).is_err());
}

#[test]
fn rate_limiter_clock_going_back() {
    let mut l = RateLimiter::new(1);
    assert_eq!(l.check_at(1, 100 * SEC), Ok(()));
    assert!(l.check_at(1, 50 * SEC).is_err());
}

#[test]
fn rate_limiter_zero_cooldown() {
    let mut l = RateLimiter::new(0);
    assert_eq!(l.check_at(1, SEC), Ok(()));
    assert_eq!(l.check_at(1, SEC), Ok(()));
}

#[test]
fn rate_limiter_with_clock() {
    let mut l = RateLimiter::new(3600);
    assert_eq!(l.check(9), Ok(()));
    assert_eq!(l.check(9), Err(RateLimitError { wait_secs: 3600 }));
}

#[test]
fn rate_limit_message() {
    assert_eq!(
        RateLimitError { wait_secs: 2 }.message(),
        "Rate limit exceeded. Please wait 2 seconds."
    );
}

#[test]
fn rate_limiter_before_epoch() {
    let mut l = RateLimiter::new(2);
    assert_eq!(l.check_at(1, -10 * SEC), Ok(()));
    assert!(l.check_at(1, -9 * SEC).is_err());
    assert_eq!(l.check_at(1, -8 * SEC), Ok(()));
}

#[test]
fn rate_limiter_extreme_times() {
    let mut l = RateLimiter::new(u64::MAX);
    assert_eq!(l.check_at(1, i128::MIN), Ok(()));
    assert_eq!(l.check_at(1, i128::MAX), Ok(()));
    assert!(l.check_at(1, 0).is_err());
}

#[test]
fn rate_limiter_history_with_many_refusals() {
    let mut l = RateLimiter::new(10);
    assert_eq!(l.check_at(1, 0), Ok(()));
    for k in 1..10 {
        assert!(l.check_at(1, k * SEC).is_err());
        assert_eq!(l.check_at(100 + k as u64, k * SEC), Ok(()));
    }
    assert!(l.check_at(1, 10 * SEC - 1).is_err());
    assert_eq!(l.check_at(1, 10 * SEC), Ok(()));
}

#[test]
fn fresh_limiter_admits_every_first_request() {
    let mut l = RateLimiter::new(u64::MAX);
    assert_eq!(l.check_at(5, i128::MIN), Ok(()));
    assert_eq!(l.check_at(6, i128::MIN), Ok(()));
    assert_eq!(l.check_at(7, 0), Ok(()));
}
