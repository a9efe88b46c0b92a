use vincents_llm::rate_limiter::{
    AcquireStep, RateLimitError, RateLimitStatus, RateLimiter, RetryConfig, RetryPolicy,
    RetryStrategy,
};
use vincents_llm::types::Float64;

const SECOND: u64 = 1_000_000_000;

#[test]
fn bucket_starts_full_and_empties() {
    let mut limiter = RateLimiter::new(3, 0);
    assert!(limiter.try_acquire(0));
    assert!(limiter.try_acquire(0));
    assert!(limiter.try_acquire(0));
    assert!(!limiter.try_acquire(0));
    assert!(!limiter.try_acquire(20 * SECOND - 1));
    assert!(limiter.try_acquire(20 * SECOND));
    assert!(!limiter.try_acquire(20 * SECOND));
}

#[test]
fn requests_per_minute_are_capped() {
    let mut limiter = RateLimiter::new(30, 0);
    for _ in 0..30 {
        assert!(limiter.try_acquire(0));
    }
    let mut taken = 0;
    for second in 1..=60 {
        if limiter.try_acquire(second * SECOND) {
            taken += 1;
        }
    }
    assert_eq!(taken, 30);
}

#[test]
fn parts_of_a_token_are_credited() {
    let mut limiter = RateLimiter::new(45, 0);
    for _ in 0..45 {
        assert!(limiter.try_acquire(0));
    }
    assert_eq!(limiter.status(SECOND).remaining, Some(0));
    assert_eq!(limiter.status(2 * SECOND).remaining, Some(1));
    assert_eq!(limiter.status(2 * SECOND + SECOND / 2).remaining, Some(1));
    assert_eq!(limiter.status(4 * SECOND).remaining, Some(3));
    // A clock that goes back adds nothing.
    assert_eq!(limiter.status(0).remaining, Some(3));
    let mut closed = RateLimiter::new(0, 0);
    assert!(!closed.try_acquire(1000 * SECOND));
}

#[test]
fn sixty_and_more_per_minute_refill_by_whole_seconds() {
    let mut limiter = RateLimiter::new(60, 0);
    assert!(limiter.try_acquire(0) && limiter.try_acquire(0));
    assert!(limiter.try_acquire(SECOND + SECOND / 2));
    assert_eq!(limiter.status(SECOND + SECOND / 2).remaining, Some(58));
    // Half a second after the last refill nothing is added.
    assert!(!limiter.refill(2 * SECOND));
    assert_eq!(limiter.status(2 * SECOND).remaining, Some(58));
    assert_eq!(limiter.status(2 * SECOND + SECOND / 2).remaining, Some(59));

    let mut uneven = RateLimiter::new(90, 0);
    for _ in 0..90 {
        assert!(uneven.try_acquire(0));
    }
    let taken = (1..=60).filter(|second| uneven.try_acquire(second * SECOND)).count();
    assert_eq!(taken, 60);
    assert_eq!(uneven.acquire_step(60 * SECOND, 0), AcquireStep::Wait(1000));
}

#[test]
fn bucket_never_exceeds_its_capacity() {
    let mut limiter = RateLimiter::new(120, 0);
    let status = limiter.status(1_000_000 * SECOND);
    assert_eq!(
        status,
        RateLimitStatus {
            remaining: Some(120),
            limit: Some(120),
            tokens_remaining: Some(120),
            tokens_limit: Some(120),
            reset_at: None,
            retry_after: None,
        }
    );
    assert!(!limiter.refill(2_000_000 * SECOND));
}

#[test]
fn refill_follows_the_rate() {
    let mut limiter = RateLimiter::with_tokens(10, 2, 0);
    for _ in 0..10 {
        assert!(limiter.try_acquire(0));
    }
    assert!(limiter.refill(3 * SECOND + 1));
    assert_eq!(limiter.status(3 * SECOND + 1).remaining, Some(6));
    // The rest of the second is lost with the refill.
    assert_eq!(limiter.status(4 * SECOND).remaining, Some(6));
    limiter.reset(4 * SECOND);
    assert_eq!(limiter.status(4 * SECOND).remaining, Some(10));
    // A clock that goes back adds nothing.
    assert_eq!(limiter.status(0).remaining, Some(10));
}

#[test]
fn waiting_for_a_token() {
    let mut limiter = RateLimiter::with_tokens(1, 4, 0);
    assert_eq!(limiter.acquire_step(0, 0), AcquireStep::Acquired);
    assert_eq!(limiter.acquire_step(0, 0), AcquireStep::Wait(250));
    assert_eq!(limiter.acquire_step(0, 60 * SECOND), AcquireStep::Wait(250));
    assert_eq!(limiter.acquire_step(0, 60 * SECOND + 1), AcquireStep::TimedOut);
    assert_eq!(limiter.acquire_step(SECOND, 60 * SECOND + 1), AcquireStep::Acquired);
    let mut fast = RateLimiter::with_tokens(0, 5000, 0);
    assert_eq!(fast.acquire_step(0, 0), AcquireStep::Wait(1));
    let mut slow = RateLimiter::with_tokens(0, 0, 0);
    assert_eq!(slow.acquire_step(0, 0), AcquireStep::Wait(1000));
    for (rpm, ms) in [(0, 1000), (1, 1000), (60, 1000), (120, 500), (100_000, 1)] {
        let mut limiter = RateLimiter::new(rpm, 0);
        for _ in 0..rpm {
            assert!(limiter.try_acquire(0));
        }
        assert_eq!(limiter.acquire_step(0, 0), AcquireStep::Wait(ms));
    }
}

#[test]
fn rate_limit_errors_are_displayed() {
    assert_eq!(RateLimitError::Exceeded.display(), "Rate limit exceeded");
    assert_eq!(RateLimitError::Timeout.display(), "Timeout waiting for rate limit");
}

fn policy(strategy: RetryStrategy, jitter: bool, max_total_time_sec: u64) -> RetryPolicy {
    RetryPolicy::new(RetryConfig {
        strategy,
        jitter,
        jitter_factor: Float64 { bits: 0.1f64.to_bits() },
        max_total_time_sec,
        retry_on_status: vec![429, 503],
    })
}

#[test]
fn defaults_of_retries() {
    let config = RetryConfig::default();
    match config.strategy {
        RetryStrategy::Exponential { initial_delay_ms, max_delay_ms, multiplier, max_retries } => {
            assert_eq!(initial_delay_ms, 1000);
            assert_eq!(max_delay_ms, 60000);
            assert_eq!(f64::from_bits(multiplier.bits), 2.0);
            assert_eq!(max_retries, 5);
        }
        _ => panic!("the default is exponential"),
    }
    assert!(config.jitter);
    assert_eq!(f64::from_bits(config.jitter_factor.bits), 0.1);
    assert_eq!(config.max_total_time_sec, 300);
    assert_eq!(config.retry_on_status, vec![429, 500, 502, 503, 504]);
}

#[test]
fn delays_of_the_strategies() {
    let exponential = RetryStrategy::default();
    assert_eq!(exponential.delay_for_attempt(1, 2000), 2000);
    assert_eq!(exponential.delay_for_attempt(9, 512_000), 60_000);
    let linear = RetryStrategy::Linear { delay_ms: 100, max_retries: 3 };
    assert_eq!(linear.delay_for_attempt(0, 0), 300);
    assert_eq!(linear.delay_for_attempt(2, 0), 100);
    assert_eq!(linear.delay_for_attempt(7, 0), 0);
    let huge = RetryStrategy::Linear { delay_ms: u64::MAX, max_retries: 3 };
    assert_eq!(huge.delay_for_attempt(0, 0), u64::MAX);
    let fixed = RetryStrategy::Fixed { delay_ms: 70, max_retries: 2 };
    assert_eq!(fixed.delay_for_attempt(1, 0), 70);
    assert_eq!(fixed.max_retries(), 2);
}

#[test]
fn retries_run_out() {
    let mut p = policy(RetryStrategy::Fixed { delay_ms: 70, max_retries: 2 }, false, 300);
    assert_eq!(p.remaining_retries(), 2);
    assert_eq!(p.next_delay(0, 0), Some(70));
    assert_eq!(p.next_delay(0, 0), Some(70));
    assert_eq!(p.attempt(), 2);
    assert_eq!(p.remaining_retries(), 0);
    assert_eq!(p.next_delay(0, 0), None);
    p.reset();
    assert_eq!(p.attempt(), 0);
    assert_eq!(p.upcoming_delay(0), Some(70));
}

#[test]
fn retries_stop_at_the_time_limit() {
    let mut p = policy(RetryStrategy::Fixed { delay_ms: 600, max_retries: 9 }, false, 1);
    assert_eq!(p.next_delay(0, 0), Some(600));
    assert_eq!(p.next_delay(0, 0), None);
    assert_eq!(p.attempt(), 1);
}

#[test]
fn jitter_comes_from_the_random_word() {
    let strategy = RetryStrategy::Fixed { delay_ms: 1000, max_retries: 9 };
    let mut p = policy(strategy, true, 300);
    assert!(p.can_advance(0, 100));
    assert_eq!(p.next_delay_with(0, 100, 250), Some(1050));
    assert_eq!(p.next_delay_with(0, 0, 250), Some(1000));
    let mut q = policy(strategy, true, 300);
    for _ in 0..9 {
        let delay = q.next_delay(0, 100).unwrap();
        assert!(delay >= 1000 && delay < 1100);
    }
    assert!(!policy(strategy, true, u64::MAX).can_advance(0, 100));
}

#[test]
fn status_codes_that_call_for_a_retry() {
    let p = policy(RetryStrategy::Fixed { delay_ms: 1, max_retries: 1 }, false, 1);
    assert!(p.should_retry_on_status(429));
    assert!(p.should_retry_on_status(503));
    assert!(!p.should_retry_on_status(500));
}

#[test]
fn no_more_requests_than_the_rate_allows() {
    let mut limiter = RateLimiter::with_tokens(5, 2, 0);
    let mut taken = 0;
    for tenth in 0..=100 {
        if limiter.try_acquire(tenth * SECOND / 10) {
            taken += 1;
        }
    }
    // Five at first, two in each of the first nine seconds, and one at the start of the tenth.
    assert_eq!(taken, 24);
    assert!(taken <= 5 + 2 * 10);
}
