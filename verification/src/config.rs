//! Configuration of retries, timeouts with fallback, and circuit breakers.

use crate::duration::{as_nanos, duration_nanos, from_secs, nanos_per_sec};
pub use crate::strategies::RetryStrategy;
use std::time::Duration;
use vstd::prelude::*;

verus! {

/// Configuration for retrying operations.
///
/// `C` is the type of the optional retry condition: a function that takes a
/// reference to the error of a failed attempt and says whether to retry.
#[derive(Debug)]
pub struct RetryConfig<C> {
    /// The maximum number of attempts, the first one included: with 3, the operation
    /// is attempted up to 3 times (1 initial attempt + 2 retries). The operation is
    /// always attempted at least once.
    pub max_attempts: usize,
    /// The base delay between attempts, which `strategy` turns into the delay of
    /// each retry.
    pub delay: Duration,
    /// How the delay grows from one retry to the next.
    pub strategy: RetryStrategy,
    /// Decides which errors are retried. `None` retries every error, up to
    /// `max_attempts`; `Some(f)` retries only the errors for which `f` returns `true`.
    pub retry_condition: Option<C>,
}

impl<C> Default for RetryConfig<C> {
    /// Three attempts, 2 seconds apart, with the `Linear` strategy and no retry
    /// condition.
    fn default() -> (r: Self)
        ensures
            r.max_attempts == 3,
            duration_nanos(r.delay) == 2 * nanos_per_sec(),
            r.strategy == RetryStrategy::Linear,
            r.retry_condition is None,
    {
        RetryConfig {
            max_attempts: 3,
            delay: from_secs(2),
            strategy: RetryStrategy::Linear,
            retry_condition: None,
        }
    }
}

impl<C> RetryConfig<C> {
    /// Creates a `RetryConfig` with the given maximum attempts, delay and strategy,
    /// and no retry condition, so that every error is retried.
    pub fn new(max_attempts: usize, delay: Duration, strategy: RetryStrategy) -> (r: Self)
        ensures
            r.max_attempts == max_attempts,
            r.delay == delay,
            r.strategy == strategy,
            r.retry_condition is None,
    {
        RetryConfig { max_attempts, delay, strategy, retry_condition: None }
    }

    /// Sets the retry condition and returns the updated configuration.
    pub fn with_retry_condition(self, retry_condition: C) -> (r: Self)
        ensures
            r.max_attempts == self.max_attempts,
            r.delay == self.delay,
            r.strategy == self.strategy,
            r.retry_condition == Some(retry_condition),
    {
        RetryConfig { retry_condition: Some(retry_condition), ..self }
    }

    /// Sets the retry strategy and returns the updated configuration.
    pub fn with_strategy(self, strategy: RetryStrategy) -> (r: Self)
        ensures
            r.max_attempts == self.max_attempts,
            r.delay == self.delay,
            r.strategy == strategy,
            r.retry_condition == self.retry_condition,
    {
        RetryConfig { strategy, ..self }
    }
}

/// Configuration for running a task under a timeout, with an optional fallback.
///
/// `F` is the type of the fallback: a function that produces the task's result
/// when the task does not finish in time.
#[derive(Debug)]
pub struct ExecConfig<F> {
    /// The longest the task may run before it counts as timed out.
    pub timeout_duration: Duration,
    /// Called in place of the task when it times out; `None` makes a timeout an error.
    pub fallback: Option<F>,
}

impl<F> ExecConfig<F> {
    /// Creates an execution configuration with the given timeout and no fallback.
    pub fn new(timeout_duration: Duration) -> (r: Self)
        ensures
            r.timeout_duration == timeout_duration,
            r.fallback is None,
    {
        ExecConfig { timeout_duration, fallback: None }
    }

    /// Sets the fallback that runs when the task times out.
    pub fn with_fallback(&mut self, fallback: F)
        ensures
            final(self).timeout_duration == old(self).timeout_duration,
            final(self).fallback == Some(fallback),
    {
        self.fallback = Some(fallback);
    }
}

/// Configuration of a circuit breaker.
///
/// - `failure_threshold`: the number of consecutive failures that opens a closed
///   breaker.
/// - `success_threshold`: the number of successes in the half-open state that close
///   the breaker again.
/// - `cooldown_period`: how long an open breaker blocks calls before it lets a trial
///   call through (half-open).
#[derive(Debug, Clone, Copy)]
pub struct CircuitBreakerConfig {
    pub failure_threshold: usize,
    pub success_threshold: usize,
    pub cooldown_period: Duration,
}

impl Default for CircuitBreakerConfig {
    /// Opens after 5 failures, closes after 2 half-open successes, cools down for
    /// 2 seconds.
    fn default() -> (r: Self)
        ensures
            r.failure_threshold == 5,
            r.success_threshold == 2,
            duration_nanos(r.cooldown_period) == 2 * nanos_per_sec(),
    {
        CircuitBreakerConfig {
            success_threshold: 2,
            failure_threshold: 5,
            cooldown_period: from_secs(2),
        }
    }
}

impl CircuitBreakerConfig {
    /// Creates a circuit breaker configuration. Both thresholds and the cooldown
    /// period must be greater than zero.
    pub fn new(success_threshold: usize, failure_threshold: usize, cooldown_period: Duration) -> (r:
        Self)
        requires
            success_threshold > 0,
            failure_threshold > 0,
            duration_nanos(cooldown_period) > 0,
        ensures
            r.success_threshold == success_threshold,
            r.failure_threshold == failure_threshold,
            r.cooldown_period == cooldown_period,
    {
        CircuitBreakerConfig { failure_threshold, success_threshold, cooldown_period }
    }

    /// Creates a circuit breaker configuration as `new` does, or returns `None` when
    /// a threshold is zero or the cooldown period spans no time.
    pub fn try_new(success_threshold: usize, failure_threshold: usize, cooldown_period: Duration)
        -> (r: Option<Self>)
        ensures
            r is Some <==> (success_threshold > 0 && failure_threshold > 0 && duration_nanos(
                cooldown_period,
            ) > 0),
            r matches Some(c) ==> c.success_threshold == success_threshold
                && c.failure_threshold == failure_threshold && c.cooldown_period
                == cooldown_period,
    {
        if success_threshold > 0 && failure_threshold > 0 && as_nanos(&cooldown_period) > 0 {
            Some(Self::new(success_threshold, failure_threshold, cooldown_period))
        } else {
            None
        }
    }

    /// Returns the configuration with `failure_threshold` replaced; it must be
    /// greater than zero.
    pub fn with_failure_threshold(self, threshold: usize) -> (r: Self)
        requires
            threshold > 0,
        ensures
            r.failure_threshold == threshold,
            r.success_threshold == self.success_threshold,
            r.cooldown_period == self.cooldown_period,
    {
        CircuitBreakerConfig { failure_threshold: threshold, ..self }
    }

    /// Returns the configuration with `success_threshold` replaced; it must be
    /// greater than zero.
    pub fn with_success_threshold(self, threshold: usize) -> (r: Self)
        requires
            threshold > 0,
        ensures
            r.success_threshold == threshold,
            r.failure_threshold == self.failure_threshold,
            r.cooldown_period == self.cooldown_period,
    {
        CircuitBreakerConfig { success_threshold: threshold, ..self }
    }

    /// Returns the configuration with `cooldown_period` replaced; it must span more
    /// than zero time.
    pub fn with_cooldown_period(self, period: Duration) -> (r: Self)
        requires
            duration_nanos(period) > 0,
        ensures
            r.cooldown_period == period,
            r.failure_threshold == self.failure_threshold,
            r.success_threshold == self.success_threshold,
    {
        CircuitBreakerConfig { cooldown_period: period, ..self }
    }

    /// Returns the configuration with `cooldown_period` replaced, as
    /// `with_cooldown_period` does, or `None` when the period spans no time.
    pub fn try_with_cooldown_period(self, period: Duration) -> (r: Option<Self>)
        ensures
            r is Some <==> duration_nanos(period) > 0,
            r matches Some(c) ==> c.cooldown_period == period && c.failure_threshold
                == self.failure_threshold && c.success_threshold == self.success_threshold,
    {
        if as_nanos(&period) > 0 {
            Some(self.with_cooldown_period(period))
        } else {
            None
        }
    }
}

} // verus!
