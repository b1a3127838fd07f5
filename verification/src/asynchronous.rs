//! The decisions of the asynchronous resilience patterns: the circuit breaker's
//! state machine and the fallback taken when a task times out.
//!
//! Awaiting the operation, the timer and the clock stay with the caller; every
//! decision about what to do with their outcome is taken here.

use crate::config::{CircuitBreakerConfig, ExecConfig};
use crate::duration::{as_nanos, duration_nanos, instant_span, now, saturating_duration_since};
use std::time::{Duration, Instant};
use vstd::prelude::*;

verus! {

/// Resolves a task that ran under a timeout.
///
/// `outcome` is `Ok(result)` when the task finished in time and `Err(timeout_error)`
/// when it did not. A task that finished gives its own result, success or failure.
/// A task that timed out gives the fallback's result when the configuration has a
/// fallback, and the timeout error otherwise.
pub fn fallback_on_timeout<T, E, F: Fn() -> Result<T, E>>(
    outcome: Result<Result<T, E>, E>,
    exec_config: &ExecConfig<F>,
) -> (r: Result<T, E>)
    requires
        exec_config.fallback matches Some(f) ==> f.requires(()),
    ensures
        match outcome {
            Ok(result) => r == result,
            Err(timeout_error) => match exec_config.fallback {
                Some(f) => f.ensures((), r),
                None => r == Err::<T, E>(timeout_error),
            },
        },
{
    match outcome {
        Ok(result) => result,
        Err(timeout_error) => match &exec_config.fallback {
            Some(fallback) => fallback(),
            None => Err(timeout_error),
        },
    }
}

/// The states of a circuit breaker.
///
/// - `Close`: calls go through normally.
/// - `Open`: calls are blocked after repeated failures, until the cooldown period
///   has elapsed since the last failure.
/// - `HalfOpen`: after the cooldown, calls go through on trial to test whether the
///   system has recovered.
#[derive(Debug, Clone, Copy, PartialEq, Eq, Structural)]
pub enum CircuitBreakerState {
    Close,
    Open,
    HalfOpen,
}

/// The abstract state of a circuit breaker.
pub struct CircuitBreakerView {
    pub config: CircuitBreakerConfig,
    pub state: CircuitBreakerState,
    /// Consecutive failures since the counter was last reset.
    pub failure_count: nat,
    /// Successes counted in the half-open state.
    pub success_count: nat,
    /// The time of the failure that last opened the breaker, if it ever opened.
    pub last_failure_time: Option<Instant>,
}

impl CircuitBreakerView {
    /// The states that a circuit breaker can reach.
    pub open spec fn wf(self) -> bool {
        &&& self.state == CircuitBreakerState::Close ==> (self.failure_count
            < self.config.failure_threshold || self.failure_count == 0)
        &&& self.state == CircuitBreakerState::Open ==> self.last_failure_time is Some
        &&& self.state != CircuitBreakerState::Close ==> self.failure_count
            >= self.config.failure_threshold
        &&& self.state == CircuitBreakerState::HalfOpen ==> (self.success_count
            < self.config.success_threshold || self.success_count == 0)
    }

    /// The breaker after a successful call.
    pub open spec fn after_success(self) -> CircuitBreakerView {
        match self.state {
            CircuitBreakerState::HalfOpen => if self.success_count + 1
                >= self.config.success_threshold {
                CircuitBreakerView {
                    state: CircuitBreakerState::Close,
                    success_count: self.success_count + 1,
                    failure_count: 0,
                    ..self
                }
            } else {
                CircuitBreakerView { success_count: self.success_count + 1, ..self }
            },
            CircuitBreakerState::Close => CircuitBreakerView { failure_count: 0, ..self },
            CircuitBreakerState::Open => self,
        }
    }

    /// Whether one more failure opens the breaker.
    pub open spec fn opens_on_failure(self) -> bool {
        self.failure_count + 1 >= self.config.failure_threshold
    }

    /// The breaker after a call that failed at time `at`: a failure that opens the
    /// breaker records `at` as the time the cooldown runs from.
    pub open spec fn after_failure(self, at: Instant) -> CircuitBreakerView {
        if self.opens_on_failure() {
            CircuitBreakerView {
                state: CircuitBreakerState::Open,
                failure_count: self.failure_count + 1,
                last_failure_time: Some(at),
                ..self
            }
        } else {
            CircuitBreakerView { failure_count: self.failure_count + 1, ..self }
        }
    }

    /// Whether a call is let through when `elapsed` nanoseconds have passed since the
    /// last failure.
    pub open spec fn admits(self, elapsed: int) -> bool {
        self.state != CircuitBreakerState::Open || elapsed >= duration_nanos(
            self.config.cooldown_period,
        )
    }

    /// Whether a call is let through at time `now`: the time elapsed since the
    /// recorded failure is measured up to `now`.
    pub open spec fn admits_at(self, now: Instant) -> bool {
        match self.last_failure_time {
            Some(t) => self.admits(duration_nanos(instant_span(now, t)) as int),
            None => true,
        }
    }

    /// The breaker after it let a call through: an open breaker turns half-open and
    /// starts counting successes from zero; any other breaker is unchanged.
    pub open spec fn after_admission(self) -> CircuitBreakerView {
        if self.state == CircuitBreakerState::Open {
            CircuitBreakerView {
                state: CircuitBreakerState::HalfOpen,
                success_count: 0,
                ..self
            }
        } else {
            self
        }
    }
}

/// A circuit breaker, which stops calling a failing system until it had time to
/// recover.
///
/// It counts consecutive failures while closed and opens at `failure_threshold`.
/// While open it blocks calls until `cooldown_period` has elapsed since the failure
/// that opened it; then it lets calls through half-open, closes again after
/// `success_threshold` successes and reopens on a failure.
pub struct CircuitBreaker {
    config: CircuitBreakerConfig,
    state: CircuitBreakerState,
    failure_count: usize,
    success_count: usize,
    last_failure_time: Option<Instant>,
}

impl View for CircuitBreaker {
    type V = CircuitBreakerView;

    closed spec fn view(&self) -> CircuitBreakerView {
        CircuitBreakerView {
            config: self.config,
            state: self.state,
            failure_count: self.failure_count as nat,
            success_count: self.success_count as nat,
            last_failure_time: self.last_failure_time,
        }
    }
}

impl CircuitBreaker {
    #[verifier::type_invariant]
    closed spec fn inv(self) -> bool {
        self@.wf()
    }

    /// Creates a closed circuit breaker with no failure recorded.
    pub fn new(config: CircuitBreakerConfig) -> (cb: Self)
        ensures
            cb@ == (CircuitBreakerView {
                config,
                state: CircuitBreakerState::Close,
                failure_count: 0,
                success_count: 0,
                last_failure_time: None,
            }),
            cb@.wf(),
    {
        CircuitBreaker {
            config,
            state: CircuitBreakerState::Close,
            failure_count: 0,
            success_count: 0,
            last_failure_time: None,
        }
    }

    /// The configuration of the breaker.
    pub fn config(&self) -> (c: CircuitBreakerConfig)
        ensures
            c == self@.config,
    {
        self.config
    }

    /// The current state of the breaker.
    pub fn state(&self) -> (s: CircuitBreakerState)
        ensures
            s == self@.state,
    {
        self.state
    }

    /// The number of consecutive failures counted.
    pub fn failure_count(&self) -> (n: usize)
        ensures
            n == self@.failure_count,
    {
        self.failure_count
    }

    /// The number of successes counted in the half-open state.
    pub fn success_count(&self) -> (n: usize)
        ensures
            n == self@.success_count,
    {
        self.success_count
    }

    /// The time of the failure that last opened the breaker, if it ever opened.
    pub fn last_failure_time(&self) -> (t: Option<Instant>)
        ensures
            t == self@.last_failure_time,
    {
        self.last_failure_time
    }

    /// Decides whether to let a call through, `elapsed` being the time since the
    /// failure that opened the breaker. A breaker that is not open lets every call
    /// through; an open one lets it through, turning half-open, once the cooldown
    /// period has elapsed, and blocks it before.
    pub fn admit_after(&mut self, elapsed: Duration) -> (admitted: bool)
        ensures
            admitted == old(self)@.admits(duration_nanos(elapsed) as int),
            admitted ==> final(self)@ == old(self)@.after_admission(),
            !admitted ==> final(self)@ == old(self)@,
            final(self)@.wf(),
    {
        proof {
            use_type_invariant(&*self);
        }
        match self.state {
            CircuitBreakerState::Open => {
                if as_nanos(&elapsed) >= as_nanos(&self.config.cooldown_period) {
                    self.success_count = 0;
                    self.state = CircuitBreakerState::HalfOpen;
                    true
                } else {
                    false
                }
            },
            _ => true,
        }
    }

    /// Decides whether to let a call through at time `now`. For an open breaker it
    /// measures the time elapsed from the recorded failure that opened it up to
    /// `now`, and decides as `admit_after` does for that elapsed time.
    pub fn try_admit_at(&mut self, now: Instant) -> (admitted: bool)
        ensures
            admitted == old(self)@.admits_at(now),
            admitted ==> final(self)@ == old(self)@.after_admission(),
            !admitted ==> final(self)@ == old(self)@,
            final(self)@.wf(),
    {
        proof {
            use_type_invariant(&*self);
        }
        if self.state() != CircuitBreakerState::Open {
            return true;
        }
        match self.last_failure_time() {
            Some(opened_at) => {
                let elapsed = saturating_duration_since(&now, &opened_at);
                self.admit_after(elapsed)
            },
            None => true,
        }
    }

    /// Decides whether to let a call through now, reading the time on the clock, as
    /// `try_admit_at` does.
    pub fn try_admit(&mut self) -> (admitted: bool)
        ensures
            exists|at: Instant| admitted == old(self)@.admits_at(at),
            old(self)@.state != CircuitBreakerState::Open ==> admitted && final(self)@ == old(
                self,
            )@,
            admitted ==> final(self)@ == old(self)@.after_admission(),
            !admitted ==> final(self)@ == old(self)@,
            final(self)@.wf(),
    {
        let at = now();
        self.try_admit_at(at)
    }

    /// Records a successful call: in the half-open state it counts the success and
    /// closes the breaker, resetting the failure count, once `success_threshold`
    /// successes are counted; in the closed state it resets the failure count; in the
    /// open state it does nothing.
    pub fn on_success(&mut self)
        ensures
            final(self)@ == old(self)@.after_success(),
            final(self)@.wf(),
    {
        proof {
            use_type_invariant(&*self);
        }
        match self.state {
            CircuitBreakerState::HalfOpen => {
                let count = self.success_count + 1;
                if count >= self.config.success_threshold {
                    *self = CircuitBreaker {
                        success_count: count,
                        failure_count: 0,
                        state: CircuitBreakerState::Close,
                        ..*self
                    };
                } else {
                    self.success_count = count;
                }
            },
            CircuitBreakerState::Close => {
                self.failure_count = 0;
            },
            CircuitBreakerState::Open => {},
        }
    }

    /// Records a call that failed at time `at`: counts the failure and, once
    /// `failure_threshold` consecutive failures are counted, opens the breaker and
    /// records `at` as the time its cooldown runs from. A failure that does not open
    /// the breaker keeps the recorded time.
    pub fn on_failure_at(&mut self, at: Instant)
        requires
            old(self)@.failure_count < usize::MAX,
        ensures
            final(self)@ == old(self)@.after_failure(at),
            final(self)@.wf(),
    {
        proof {
            use_type_invariant(&*self);
        }
        let count = self.failure_count + 1;
        if count >= self.config.failure_threshold {
            *self = CircuitBreaker {
                failure_count: count,
                state: CircuitBreakerState::Open,
                last_failure_time: Some(at),
                ..*self
            };
        } else {
            self.failure_count = count;
        }
    }

    /// Records a call that failed now, reading the time on the clock, as
    /// `on_failure_at` does.
    pub fn on_failure(&mut self)
        requires
            old(self)@.failure_count < usize::MAX,
        ensures
            exists|at: Instant| final(self)@ == old(self)@.after_failure(at),
            final(self)@.failure_count == old(self)@.failure_count + 1,
            final(self)@.state == if old(self)@.opens_on_failure() {
                CircuitBreakerState::Open
            } else {
                old(self)@.state
            },
            old(self)@.opens_on_failure() ==> final(self)@.last_failure_time is Some,
            !old(self)@.opens_on_failure() ==> final(self)@.last_failure_time == old(
                self,
            )@.last_failure_time,
            final(self)@.wf(),
    {
        let at = now();
        self.on_failure_at(at);
    }
}

/// The breaker after `k` consecutive calls that failed at time `at`.
pub open spec fn after_failures(v: CircuitBreakerView, k: nat, at: Instant) -> CircuitBreakerView
    decreases k,
{
    if k == 0 {
        v
    } else {
        after_failures(v, (k - 1) as nat, at).after_failure(at)
    }
}

/// The breaker after `k` consecutive successful calls.
pub open spec fn after_successes(v: CircuitBreakerView, k: nat) -> CircuitBreakerView
    decreases k,
{
    if k == 0 {
        v
    } else {
        after_successes(v, (k - 1) as nat).after_success()
    }
}

/// A closed breaker that meets `k` consecutive failures counts all of them, and is
/// open afterwards exactly when its count has reached `failure_threshold`: it stays
/// closed below the threshold, keeping its recorded time, and at it opens and
/// records the time of the failures.
pub proof fn lemma_consecutive_failures_open(v: CircuitBreakerView, k: nat, at: Instant)
    requires
        v.state == CircuitBreakerState::Close,
        1 <= k,
    ensures
        after_failures(v, k, at).failure_count == v.failure_count + k,
        after_failures(v, k, at).state == (if v.failure_count + k
            >= v.config.failure_threshold {
            CircuitBreakerState::Open
        } else {
            CircuitBreakerState::Close
        }),
        after_failures(v, k, at).last_failure_time == (if v.failure_count + k
            >= v.config.failure_threshold {
            Some(at)
        } else {
            v.last_failure_time
        }),
        after_failures(v, k, at).config == v.config,
    decreases k,
{
    if k > 1 {
        lemma_consecutive_failures_open(v, (k - 1) as nat, at);
    } else {
        assert(after_failures(v, 0, at) == v);
    }
}

/// The breaker after a call whose operation failed at time `at`, the call coming
/// `elapsed` nanoseconds after the recorded failure: a call that the breaker blocks
/// leaves it as it was.
pub open spec fn after_failed_call(v: CircuitBreakerView, at: Instant, elapsed: int) -> CircuitBreakerView {
    if v.admits(elapsed) {
        v.after_admission().after_failure(at)
    } else {
        v
    }
}

/// The breaker after a sequence of calls that each failed or were blocked, each
/// given by the time its operation failed and the time elapsed since the recorded
/// failure when it came.
pub open spec fn after_failed_calls(v: CircuitBreakerView, calls: Seq<(Instant, int)>) -> CircuitBreakerView
    decreases calls.len(),
{
    if calls.len() == 0 {
        v
    } else {
        after_failed_call(
            after_failed_calls(v, calls.drop_last()),
            calls.last().0,
            calls.last().1,
        )
    }
}

/// From a closed breaker with no failure counted, a run of calls that all fail or
/// are blocked leaves it open exactly when there were at least `failure_threshold`
/// of them, and closed, counting them, when there were fewer: blocked calls and
/// failed half-open trials never close it again.
pub proof fn lemma_failed_calls_open(v: CircuitBreakerView, calls: Seq<(Instant, int)>)
    requires
        v.state == CircuitBreakerState::Close,
        v.failure_count == 0,
        calls.len() >= 1,
    ensures
        after_failed_calls(v, calls).state == (if calls.len() >= v.config.failure_threshold {
            CircuitBreakerState::Open
        } else {
            CircuitBreakerState::Close
        }),
        calls.len() < v.config.failure_threshold ==> after_failed_calls(v, calls).failure_count
            == calls.len(),
        after_failed_calls(v, calls).state == CircuitBreakerState::Open ==> after_failed_calls(
            v,
            calls,
        ).failure_count >= v.config.failure_threshold,
        after_failed_calls(v, calls).config == v.config,
    decreases calls.len(),
{
    if calls.len() == 1 {
        assert(after_failed_calls(v, calls.drop_last()) == v);
    } else {
        lemma_failed_calls_open(v, calls.drop_last());
    }
}

/// A success while closed clears the count of consecutive failures and keeps the
/// breaker closed, whatever the count was; the next failure then counts from one.
pub proof fn lemma_success_resets_closed_breaker(v: CircuitBreakerView, at: Instant)
    requires
        v.state == CircuitBreakerState::Close,
    ensures
        v.after_success().failure_count == 0,
        v.after_success().state == CircuitBreakerState::Close,
        v.after_success().after_failure(at).failure_count == 1,
        v.config.failure_threshold > 1 ==> v.after_success().after_failure(at).state
            == CircuitBreakerState::Close,
{
}

/// An open breaker lets a call through at time `now` exactly when the cooldown
/// period has elapsed from the recorded failure that opened it up to `now`.
pub proof fn lemma_admits_once_cooldown_elapsed(v: CircuitBreakerView, t: Instant, now: Instant)
    requires
        v.state == CircuitBreakerState::Open,
        v.last_failure_time == Some(t),
    ensures
        v.admits_at(now) <==> duration_nanos(instant_span(now, t)) >= duration_nanos(
            v.config.cooldown_period,
        ),
{
}

/// A breaker that has just turned half-open closes again after exactly
/// `success_threshold` consecutive successes (one, for a threshold of zero), with a
/// success count equal to that threshold and the failure count reset; before that it
/// stays half-open and counts the successes. Successes never touch the recorded
/// failure time.
pub proof fn lemma_consecutive_successes_close(v: CircuitBreakerView, k: nat)
    requires
        v.state == CircuitBreakerState::HalfOpen,
        v.success_count == 0,
        1 <= k,
        k <= v.config.success_threshold || k == 1,
    ensures
        after_successes(v, k).success_count == k,
        after_successes(v, k).state == (if k >= v.config.success_threshold {
            CircuitBreakerState::Close
        } else {
            CircuitBreakerState::HalfOpen
        }),
        k >= v.config.success_threshold ==> after_successes(v, k).failure_count == 0,
        after_successes(v, k).config == v.config,
        after_successes(v, k).last_failure_time == v.last_failure_time,
    decreases k,
{
    if k > 1 {
        lemma_consecutive_successes_close(v, (k - 1) as nat);
    } else {
        assert(after_successes(v, 0) == v);
    }
}

/// A failure while half-open opens the breaker again and restarts the cooldown
/// from the time of that failure.
pub proof fn lemma_half_open_failure_reopens(v: CircuitBreakerView, at: Instant)
    requires
        v.wf(),
        v.state == CircuitBreakerState::HalfOpen,
    ensures
        v.after_failure(at).state == CircuitBreakerState::Open,
        v.after_failure(at).last_failure_time == Some(at),
{
}

/// An open breaker blocks every call until the cooldown period has elapsed since the
/// failure that opened it, and lets the first call after that through half-open;
/// neither decision moves the recorded failure time.
pub proof fn lemma_open_blocks_until_cooldown(v: CircuitBreakerView, elapsed: int)
    requires
        v.state == CircuitBreakerState::Open,
    ensures
        v.admits(elapsed) <==> elapsed >= duration_nanos(v.config.cooldown_period),
        v.admits(elapsed) ==> v.after_admission().state == CircuitBreakerState::HalfOpen
            && v.after_admission().success_count == 0,
        v.after_admission().last_failure_time == v.last_failure_time,
{
}

} // verus!
