use resilient_rs::config::{RetryConfig, RetryStrategy};
use resilient_rs::schedule::{RetrySchedule, RetryStep};
use std::time::Duration;

type Condition = fn(&String) -> bool;

/// Runs a retry loop over scripted outcomes, without sleeping, and returns the
/// result, the number of attempts made and the delays that would have been waited.
fn run_script(
    schedule: &mut RetrySchedule,
    condition: &Option<Condition>,
    outcomes: &[Result<&str, &str>],
) -> (Result<String, String>, usize, Vec<Duration>) {
    let mut delays = Vec::new();
    let mut attempts = 0;
    loop {
        let outcome = outcomes[attempts];
        attempts += 1;
        match outcome {
            Ok(v) => return (Ok(v.to_string()), attempts, delays),
            Err(e) => {
                let err = e.to_string();
                match schedule.on_error(condition, &err) {
                    RetryStep::Retry(d) => {
                        delays.push(d);
                        assert!(schedule.advance());
                    }
                    RetryStep::GiveUp => return (Err(err), attempts, delays),
                }
            }
        }
    }
}

#[test]
fn schedule_stops_after_max_attempts() {
    let config: RetryConfig<Condition> =
        RetryConfig::<Condition>::new(3, Duration::from_millis(10), RetryStrategy::Linear);
    let mut schedule = RetrySchedule::new(&config);
    let (result, attempts, delays) = run_script(
        &mut schedule,
        &config.retry_condition,
        &[Err("Failure"), Err("Failure"), Err("Failure"), Ok("never")],
    );
    assert_eq!(result, Err("Failure".to_string()));
    assert_eq!(attempts, 3);
    assert_eq!(delays, vec![Duration::from_millis(10); 2]);
    assert_eq!(schedule.attempts(), 3);
}

#[test]
fn schedule_returns_first_success() {
    let config: RetryConfig<Condition> =
        RetryConfig::<Condition>::new(5, Duration::from_millis(100), RetryStrategy::ExponentialBackoff);
    let mut schedule = RetrySchedule::new(&config);
    let (result, attempts, delays) = run_script(
        &mut schedule,
        &config.retry_condition,
        &[Err("Temporary failure"), Err("Temporary failure"), Ok("42")],
    );
    assert_eq!(result, Ok("42".to_string()));
    assert_eq!(attempts, 3);
    assert_eq!(
        delays,
        vec![Duration::from_millis(100), Duration::from_millis(200)]
    );
}

#[test]
fn schedule_exponential_delays_double() {
    let config: RetryConfig<Condition> =
        RetryConfig::<Condition>::new(5, Duration::from_secs(2), RetryStrategy::ExponentialBackoff);
    let mut schedule = RetrySchedule::new(&config);
    let (_, attempts, delays) = run_script(
        &mut schedule,
        &config.retry_condition,
        &[Err("e"), Err("e"), Err("e"), Err("e"), Err("e")],
    );
    assert_eq!(attempts, 5);
    assert_eq!(
        delays,
        vec![
            Duration::from_secs(2),
            Duration::from_secs(4),
            Duration::from_secs(8),
            Duration::from_secs(16)
        ]
    );
}

#[test]
fn schedule_condition_stops_non_retryable_error() {
    let config: RetryConfig<Condition> =
        RetryConfig::<Condition>::new(3, Duration::from_millis(1), RetryStrategy::ExponentialBackoff)
            .with_retry_condition(|e: &String| e.contains("500"));
    let mut schedule = RetrySchedule::new(&config);
    let (result, attempts, delays) = run_script(
        &mut schedule,
        &config.retry_condition,
        &[Err("403"), Ok("success")],
    );
    assert_eq!(result, Err("403".to_string()));
    assert_eq!(attempts, 1);
    assert!(delays.is_empty());
}

#[test]
fn schedule_condition_retries_matching_error() {
    let config: RetryConfig<Condition> =
        RetryConfig::<Condition>::new(3, Duration::from_millis(1), RetryStrategy::ExponentialBackoff)
            .with_retry_condition(|e: &String| e.contains("transient"));
    let mut schedule = RetrySchedule::new(&config);
    let (result, attempts, _) = run_script(
        &mut schedule,
        &config.retry_condition,
        &[Err("transient error"), Ok("success")],
    );
    assert_eq!(result, Ok("success".to_string()));
    assert_eq!(attempts, 2);
}

#[test]
fn schedule_zero_max_attempts_still_attempts_once() {
    let config: RetryConfig<Condition> =
        RetryConfig::<Condition>::new(0, Duration::from_millis(1), RetryStrategy::Linear);
    let mut schedule = RetrySchedule::new(&config);
    assert!(!schedule.has_attempts_left());
    let (result, attempts, _) =
        run_script(&mut schedule, &config.retry_condition, &[Err("e"), Ok("x")]);
    assert_eq!(result, Err("e".to_string()));
    assert_eq!(attempts, 1);
}

#[test]
fn doubling_schedule_ignores_strategy() {
    let config: RetryConfig<Condition> =
        RetryConfig::<Condition>::new(4, Duration::from_millis(100), RetryStrategy::Linear);
    let mut schedule = RetrySchedule::doubling(&config);
    let (_, attempts, delays) = run_script(
        &mut schedule,
        &config.retry_condition,
        &[Err("Not yet"), Err("Not yet"), Err("Not yet"), Err("Not yet")],
    );
    assert_eq!(attempts, 4);
    assert_eq!(
        delays,
        vec![
            Duration::from_millis(100),
            Duration::from_millis(200),
            Duration::from_millis(400)
        ]
    );
}

#[test]
fn advance_reports_delay_overflow() {
    let config: RetryConfig<Condition> =
        RetryConfig::<Condition>::new(3, Duration::MAX, RetryStrategy::ExponentialBackoff);
    let mut schedule = RetrySchedule::new(&config);
    assert_eq!(schedule.next_delay(), Duration::MAX);
    assert!(!schedule.advance());
    assert_eq!(schedule.attempts(), 1);

    let mut doubling = RetrySchedule::doubling(&config);
    assert!(!doubling.advance());
}

#[test]
fn linear_schedule_never_overflows() {
    let config: RetryConfig<Condition> =
        RetryConfig::<Condition>::new(3, Duration::MAX, RetryStrategy::Linear);
    let mut schedule = RetrySchedule::new(&config);
    assert!(schedule.advance());
    assert_eq!(schedule.next_delay(), Duration::MAX);
    assert_eq!(schedule.max_attempts(), 3);
}
