use resilient_rs::strategies::RetryStrategy;
use std::time::Duration;

#[test]
fn test_linear_strategy() {
    let base_delay = Duration::from_secs(2);
    let linear = RetryStrategy::Linear;

    assert_eq!(linear.calculate_delay(base_delay, 0), Duration::from_secs(2));
    assert_eq!(linear.calculate_delay(base_delay, 1), Duration::from_secs(2));
    assert_eq!(linear.calculate_delay(base_delay, 2), Duration::from_secs(2));
    assert_eq!(linear.calculate_delay(base_delay, 3), Duration::from_secs(2));
}

#[test]
fn test_exponential_backoff_strategy() {
    let base_delay = Duration::from_secs(2);
    let expo = RetryStrategy::ExponentialBackoff;

    assert_eq!(expo.calculate_delay(base_delay, 0), Duration::from_secs(2));
    assert_eq!(expo.calculate_delay(base_delay, 1), Duration::from_secs(2));
    assert_eq!(expo.calculate_delay(base_delay, 2), Duration::from_secs(4));
    assert_eq!(expo.calculate_delay(base_delay, 3), Duration::from_secs(8));
    assert_eq!(expo.calculate_delay(base_delay, 4), Duration::from_secs(16));
}

#[test]
fn exponential_backoff_with_sub_second_base() {
    let expo = RetryStrategy::ExponentialBackoff;
    assert_eq!(
        expo.calculate_delay(Duration::from_millis(300), 5),
        Duration::from_millis(4800)
    );
    assert_eq!(
        expo.calculate_delay(Duration::new(1, 500_000_000), 3),
        Duration::from_secs(6)
    );
}

#[test]
fn exponential_backoff_largest_factor() {
    let expo = RetryStrategy::ExponentialBackoff;
    // Attempt 32 multiplies by 2^31, the largest power of two that fits a u32.
    assert_eq!(
        expo.calculate_delay(Duration::from_nanos(1), 32),
        Duration::from_nanos(1 << 31)
    );
}

#[test]
fn linear_strategy_keeps_large_delays() {
    let linear = RetryStrategy::Linear;
    assert_eq!(linear.calculate_delay(Duration::MAX, 1000), Duration::MAX);
}

#[test]
fn checked_delay_reports_overflow() {
    let expo = RetryStrategy::ExponentialBackoff;
    assert_eq!(
        expo.checked_delay(Duration::from_secs(2), 3),
        Some(Duration::from_secs(8))
    );
    assert_eq!(expo.checked_delay(Duration::from_nanos(1), 33), None);
    assert_eq!(expo.checked_delay(Duration::MAX, 2), None);
    assert_eq!(expo.checked_delay(Duration::MAX, 1), Some(Duration::MAX));
    assert_eq!(
        RetryStrategy::Linear.checked_delay(Duration::MAX, 99),
        Some(Duration::MAX)
    );
}

#[test]
fn exponential_backoff_has_no_wraparound() {
    let expo = RetryStrategy::ExponentialBackoff;
    let attempt = (u32::MAX as usize).wrapping_add(2);
    if attempt > 33 {
        assert_eq!(expo.checked_delay(Duration::from_nanos(1), attempt), None);
    }
    assert_eq!(expo.checked_delay(Duration::from_nanos(1), 34), None);
}
