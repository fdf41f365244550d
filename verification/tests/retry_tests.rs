use durable_streams::retry::apply_jitter;
use durable_streams::{JitterMode, RetryConfig};

#[test]
fn defaults_follow_the_protocol() {
    let c = RetryConfig::new();
    assert_eq!(c.initial_backoff_ms, 100);
    assert_eq!(c.max_backoff_ms, 60000);
    assert_eq!(c.multiplier_permille, 1300);
    assert_eq!(c.max_retries, 10);
    assert_eq!(c.jitter, JitterMode::Full);
}

#[test]
fn builders_update_one_field_each() {
    let c = RetryConfig::new()
        .with_initial_backoff(50)
        .with_max_backoff(1000)
        .with_multiplier(2000)
        .with_max_retries(3)
        .with_jitter(JitterMode::NoJitter);
    assert_eq!(c.initial_backoff_ms, 50);
    assert_eq!(c.max_backoff_ms, 1000);
    assert_eq!(c.multiplier_permille, 2000);
    assert_eq!(c.max_retries, 3);
    assert_eq!(c.jitter, JitterMode::NoJitter);
}

#[test]
fn should_retry_respects_the_budget() {
    let c = RetryConfig::new().with_max_retries(3);
    assert!(c.should_retry(0));
    assert!(c.should_retry(2));
    assert!(!c.should_retry(3));
    assert!(!c.should_retry(10));
}

#[test]
fn unjittered_backoff_grows_by_the_multiplier_and_caps() {
    let c = RetryConfig::new()
        .with_initial_backoff(100)
        .with_max_backoff(200)
        .with_multiplier(1300)
        .with_jitter(JitterMode::NoJitter);
    assert_eq!(c.next_backoff(0, 0), 100);
    assert_eq!(c.next_backoff(1, 100), 130);
    assert_eq!(c.next_backoff(2, 130), 169);
    // 169 * 1.3 = 219.7, clipped to the ceiling.
    assert_eq!(c.next_backoff(3, 169), 200);
}

#[test]
fn jitter_stays_in_each_modes_band() {
    for _ in 0..50 {
        assert_eq!(apply_jitter(1000, &JitterMode::NoJitter), 1000);
        let full = apply_jitter(1000, &JitterMode::Full);
        assert!(full <= 1000);
        let equal = apply_jitter(1000, &JitterMode::Equal);
        assert!((500..=1000).contains(&equal));
        let deco = apply_jitter(1000, &JitterMode::Decorrelated);
        assert!((333..=3000).contains(&deco));
    }
}

#[test]
fn zero_delay_stays_zero_under_any_jitter() {
    assert_eq!(apply_jitter(0, &JitterMode::NoJitter), 0);
    assert_eq!(apply_jitter(0, &JitterMode::Full), 0);
    assert_eq!(apply_jitter(0, &JitterMode::Equal), 0);
    assert_eq!(apply_jitter(0, &JitterMode::Decorrelated), 0);
}
