use resilient_rs::config::{CircuitBreakerConfig, ExecConfig, RetryConfig, RetryStrategy};
use std::time::Duration;

type Condition = fn(&String) -> bool;

#[test]
fn retry_config_default_values() {
    let config: RetryConfig<Condition> = RetryConfig::default();
    assert_eq!(config.max_attempts, 3);
    assert_eq!(config.delay, Duration::from_secs(2));
    assert_eq!(config.strategy, RetryStrategy::Linear);
    assert!(config.retry_condition.is_none());
}

#[test]
fn retry_config_new_has_no_condition() {
    let config: RetryConfig<Condition> =
        RetryConfig::<Condition>::new(3, Duration::from_secs(1), RetryStrategy::Linear);
    assert_eq!(config.max_attempts, 3);
    assert_eq!(config.delay, Duration::from_secs(1));
    assert_eq!(config.strategy, RetryStrategy::Linear);
    assert!(config.retry_condition.is_none());
}

#[test]
fn retry_config_builders() {
    let config: RetryConfig<Condition> =
        RetryConfig::<Condition>::new(4, Duration::from_millis(5), RetryStrategy::Linear)
            .with_retry_condition(|e: &String| e.contains("transient"))
            .with_strategy(RetryStrategy::ExponentialBackoff);
    assert_eq!(config.max_attempts, 4);
    assert_eq!(config.delay, Duration::from_millis(5));
    assert_eq!(config.strategy, RetryStrategy::ExponentialBackoff);
    let condition = config.retry_condition.unwrap();
    assert!(condition(&"transient error".to_string()));
    assert!(!condition(&"403".to_string()));
}

#[test]
fn exec_config_with_fallback() {
    let mut config: ExecConfig<fn() -> Result<String, String>> =
        ExecConfig::new(Duration::from_millis(10));
    assert!(config.fallback.is_none());
    config.with_fallback(|| Ok("fallback success".to_string()));
    assert_eq!(config.timeout_duration, Duration::from_millis(10));
    assert_eq!(config.fallback.unwrap()(), Ok("fallback success".to_string()));
}

#[test]
fn circuit_breaker_config_new_and_default() {
    let config = CircuitBreakerConfig::new(3, 5, Duration::from_secs(10));
    assert_eq!(config.success_threshold, 3);
    assert_eq!(config.failure_threshold, 5);
    assert_eq!(config.cooldown_period, Duration::from_secs(10));

    let default = CircuitBreakerConfig::default();
    assert_eq!(default.failure_threshold, 5);
    assert_eq!(default.success_threshold, 2);
    assert_eq!(default.cooldown_period, Duration::from_secs(2));
}

#[test]
fn circuit_breaker_config_builders() {
    let config = CircuitBreakerConfig::default()
        .with_failure_threshold(3)
        .with_success_threshold(4)
        .with_cooldown_period(Duration::from_secs(5));
    assert_eq!(config.failure_threshold, 3);
    assert_eq!(config.success_threshold, 4);
    assert_eq!(config.cooldown_period, Duration::from_secs(5));
}

#[test]
fn circuit_breaker_config_checked_constructors() {
    let config = CircuitBreakerConfig::try_new(3, 5, Duration::from_secs(10)).unwrap();
    assert_eq!(config.failure_threshold, 5);
    assert!(CircuitBreakerConfig::try_new(0, 5, Duration::from_secs(10)).is_none());
    assert!(CircuitBreakerConfig::try_new(3, 0, Duration::from_secs(10)).is_none());
    assert!(CircuitBreakerConfig::try_new(3, 5, Duration::ZERO).is_none());
    assert!(CircuitBreakerConfig::try_new(3, 5, Duration::from_nanos(1)).is_some());

    let changed = config.try_with_cooldown_period(Duration::from_secs(7)).unwrap();
    assert_eq!(changed.cooldown_period, Duration::from_secs(7));
    assert_eq!(changed.success_threshold, 3);
    assert!(config.try_with_cooldown_period(Duration::ZERO).is_none());
}
