//! The retry schedule: which attempt is running, whether another one is allowed,
//! and how long to wait before it.
//!
//! Both retry loops, the blocking one and the asynchronous one, take every
//! decision from a `RetrySchedule`; they only run the operation, consult the retry
//! condition and sleep.

use crate::config::RetryConfig;
use crate::duration::{checked_mul, duration_nanos, max_nanos};
use crate::strategies::RetryStrategy;
use std::time::Duration;
use vstd::arithmetic::power2::{lemma2_to64, lemma_pow2_unfold, pow2};
use vstd::prelude::*;

verus! {

/// How the delay changes from one retry to the next.
#[derive(Debug, Clone, Copy, PartialEq, Eq, Structural)]
pub enum Backoff {
    /// The delay before retry `n` is the strategy's delay for attempt `n` on the base
    /// delay.
    Strategy(RetryStrategy),
    /// The delay doubles after every retry, starting from the base delay.
    Doubling,
}

/// Nanoseconds to wait before retry number `n` (the first retry is 1), for a base
/// delay of `base` nanoseconds.
pub open spec fn wait_nanos(backoff: Backoff, base: int, n: nat) -> int {
    match backoff {
        Backoff::Strategy(s) => s.delay_nanos(base, n as usize),
        Backoff::Doubling => base * pow2((n - 1) as nat),
    }
}

/// Whether the wait before retry `n` can be computed without overflow.
pub open spec fn wait_is_defined(backoff: Backoff, base: int, n: nat) -> bool {
    match backoff {
        Backoff::Strategy(s) => s.delay_is_defined(base, n as usize),
        Backoff::Doubling => base * pow2((n - 1) as nat) <= max_nanos(),
    }
}

/// What to do after a failed attempt.
#[derive(Debug, Clone, Copy, PartialEq, Eq)]
pub enum RetryStep {
    /// Wait this long, then attempt the operation again.
    Retry(Duration),
    /// Stop and return the error of the failed attempt.
    GiveUp,
}

/// The abstract state of a retry schedule.
pub struct RetryScheduleView {
    /// The configured maximum number of attempts.
    pub max_attempts: nat,
    /// The base delay, in nanoseconds.
    pub base: nat,
    pub backoff: Backoff,
    /// The number of retries already scheduled; the attempt in progress is number
    /// `retries + 1`.
    pub retries: nat,
}

impl RetryScheduleView {
    /// Whether another attempt may follow the one in progress.
    pub open spec fn has_attempts_left(self) -> bool {
        self.retries + 1 < self.max_attempts
    }

    /// Nanoseconds to wait before the next retry.
    pub open spec fn next_wait(self) -> int {
        wait_nanos(self.backoff, self.base as int, self.retries + 1)
    }

    /// The schedule once the next retry has been taken.
    pub open spec fn advanced(self) -> RetryScheduleView {
        RetryScheduleView { retries: self.retries + 1, ..self }
    }
}

/// The number of attempts a retry loop following schedule `v` makes.
///
/// `outcomes[i]` is `None` when attempt `i + 1` succeeds, and `Some(verdict)` when it
/// fails, `verdict` being whether the retry condition lets that error be retried
/// (`true` when there is no condition). The loop stops at the first success, and at
/// the first failure that has no attempt left or is not to be retried; it returns
/// the outcome of its last attempt.
pub open spec fn attempts_made(v: RetryScheduleView, outcomes: Seq<Option<bool>>) -> nat
    decreases outcomes.len(),
{
    if outcomes.len() == 0 {
        0
    } else if outcomes[0] is Some && v.has_attempts_left() && outcomes[0]->0 {
        1 + attempts_made(v.advanced(), outcomes.drop_first())
    } else {
        1
    }
}

/// Whether that loop consults the retry condition on the error of attempt `i + 1`:
/// the attempt is made, fails, and is not the last one allowed.
pub open spec fn consults_condition(v: RetryScheduleView, outcomes: Seq<Option<bool>>, i: nat) -> bool {
    &&& i < attempts_made(v, outcomes)
    &&& outcomes[i as int] is Some
    &&& v.retries + i + 1 < v.max_attempts
}

/// The state of a retry loop.
pub struct RetrySchedule {
    max_attempts: usize,
    base_delay: Duration,
    backoff: Backoff,
    retries: usize,
    delay: Duration,
}

impl View for RetrySchedule {
    type V = RetryScheduleView;

    closed spec fn view(&self) -> RetryScheduleView {
        RetryScheduleView {
            max_attempts: self.max_attempts as nat,
            base: duration_nanos(self.base_delay) as nat,
            backoff: self.backoff,
            retries: self.retries as nat,
        }
    }
}

impl RetrySchedule {
    #[verifier::type_invariant]
    closed spec fn inv(self) -> bool {
        &&& (self.retries < self.max_attempts || self.retries == 0)
        &&& duration_nanos(self.delay) == wait_nanos(
            self.backoff,
            duration_nanos(self.base_delay) as int,
            self.retries as nat + 1,
        )
    }

    fn start(max_attempts: usize, base_delay: Duration, backoff: Backoff) -> (s: Self)
        ensures
            s@ == (RetryScheduleView {
                max_attempts: max_attempts as nat,
                base: duration_nanos(base_delay) as nat,
                backoff,
                retries: 0,
            }),
    {
        proof {
            lemma2_to64();
            assert(crate::strategies::backoff_exponent(1) == 0);
        }
        RetrySchedule { max_attempts, base_delay, backoff, retries: 0, delay: base_delay }
    }

    /// The schedule of `retry`: the delay before retry `n` is
    /// `config.strategy.calculate_delay(config.delay, n)`.
    pub fn new<C>(config: &RetryConfig<C>) -> (s: Self)
        ensures
            s@ == (RetryScheduleView {
                max_attempts: config.max_attempts as nat,
                base: duration_nanos(config.delay) as nat,
                backoff: Backoff::Strategy(config.strategy),
                retries: 0,
            }),
    {
        Self::start(config.max_attempts, config.delay, Backoff::Strategy(config.strategy))
    }

    /// The schedule of `retry_with_exponential_backoff`: the delay starts at
    /// `config.delay` and doubles after every retry, whatever `config.strategy` says.
    pub fn doubling<C>(config: &RetryConfig<C>) -> (s: Self)
        ensures
            s@ == (RetryScheduleView {
                max_attempts: config.max_attempts as nat,
                base: duration_nanos(config.delay) as nat,
                backoff: Backoff::Doubling,
                retries: 0,
            }),
    {
        Self::start(config.max_attempts, config.delay, Backoff::Doubling)
    }

    /// The number of the attempt in progress (the first attempt is 1). It never
    /// exceeds the configured maximum, except that one attempt is always made.
    pub fn attempts(&self) -> (n: usize)
        ensures
            n == self@.retries + 1,
            n <= self@.max_attempts || n == 1,
    {
        proof {
            use_type_invariant(self);
        }
        self.retries + 1
    }

    /// The configured maximum number of attempts.
    pub fn max_attempts(&self) -> (n: usize)
        ensures
            n == self@.max_attempts,
    {
        self.max_attempts
    }

    /// Whether the attempt in progress may be followed by another one.
    pub fn has_attempts_left(&self) -> (b: bool)
        ensures
            b == self@.has_attempts_left(),
            b == (self@.retries + 1 < self@.max_attempts),
    {
        proof {
            use_type_invariant(self);
        }
        self.retries + 1 < self.max_attempts
    }

    /// The delay to wait before the next retry.
    pub fn next_delay(&self) -> (d: Duration)
        ensures
            duration_nanos(d) == self@.next_wait(),
    {
        proof {
            use_type_invariant(self);
        }
        self.delay
    }

    /// Decides what follows a failed attempt that returned `err`.
    ///
    /// When the attempt was the last one allowed, the answer is to give up, and the
    /// retry condition is not consulted. Otherwise the error is retried, after the
    /// next delay, unless the retry condition says it must not be.
    pub fn on_error<E, C: Fn(&E) -> bool>(&self, retry_condition: &Option<C>, err: &E) -> (step:
        RetryStep)
        requires
            retry_condition matches Some(f) ==> f.requires((err,)),
        ensures
            !self@.has_attempts_left() ==> step == RetryStep::GiveUp,
            self@.has_attempts_left() ==> match retry_condition {
                None => step is Retry,
                Some(f) => (step is Retry ==> f.ensures((err,), true)) && (step is GiveUp
                    ==> f.ensures((err,), false)),
            },
            step matches RetryStep::Retry(d) ==> duration_nanos(d) == self@.next_wait(),
    {
        if !self.has_attempts_left() {
            return RetryStep::GiveUp;
        }
        let retryable = match retry_condition {
            Some(condition) => condition(err),
            None => true,
        };
        if retryable {
            RetryStep::Retry(self.next_delay())
        } else {
            RetryStep::GiveUp
        }
    }

    /// Moves to the next attempt, once the delay before it has been waited. Returns
    /// `false`, and changes nothing, when the delay of the retry after that one
    /// overflows a `Duration`.
    pub fn advance(&mut self) -> (ok: bool)
        requires
            old(self)@.has_attempts_left(),
        ensures
            ok == wait_is_defined(old(self)@.backoff, old(self)@.base as int, old(self)@.retries + 2),
            ok ==> final(self)@ == (RetryScheduleView { retries: old(self)@.retries + 1, ..old(self)@ }),
            !ok ==> final(self)@ == old(self)@,
    {
        proof {
            use_type_invariant(&*self);
        }
        let next: usize = self.retries + 1;
        let following: usize = next + 1;
        let ghost base = duration_nanos(self.base_delay) as int;
        let delay = match self.backoff {
            Backoff::Strategy(s) => s.checked_delay(self.base_delay, following),
            Backoff::Doubling => {
                let r = checked_mul(self.delay, 2);
                proof {
                    let p = pow2(self.retries as nat);
                    lemma_pow2_unfold(next as nat);
                    assert(base * p * 2 == base * (2 * p)) by (nonlinear_arith);
                }
                r
            },
        };
        match delay {
            Some(d) => {
                *self = RetrySchedule { retries: next, delay: d, ..*self };
                true
            },
            None => false,
        }
    }
}

/// With the linear strategy every retry waits exactly the base delay.
pub proof fn lemma_linear_waits_are_constant(base: int, n: nat)
    requires
        1 <= n <= usize::MAX,
    ensures
        wait_nanos(Backoff::Strategy(RetryStrategy::Linear), base, n) == base,
{
}

/// With exponential backoff the first retry waits the base delay and each later
/// retry waits twice as long as the one before.
pub proof fn lemma_exponential_waits_double(base: int, n: nat)
    requires
        1 <= n,
        n + 1 <= usize::MAX,
    ensures
        wait_nanos(Backoff::Strategy(RetryStrategy::ExponentialBackoff), base, 1) == base,
        wait_nanos(Backoff::Strategy(RetryStrategy::ExponentialBackoff), base, n + 1) == 2
            * wait_nanos(Backoff::Strategy(RetryStrategy::ExponentialBackoff), base, n),
{
    lemma2_to64();
    assert(crate::strategies::backoff_exponent(1) == 0);
    assert(base * pow2(0) == base);
    let e = crate::strategies::backoff_exponent(n as usize);
    assert(e == n - 1);
    assert(crate::strategies::backoff_exponent((n + 1) as usize) == n);
    lemma_pow2_unfold(n);
    assert(base * pow2(n) == 2 * (base * pow2((n - 1) as nat))) by (nonlinear_arith)
        requires
            pow2(n) == 2 * pow2((n - 1) as nat),
    ;
}

/// The doubling schedule waits `base * 2^(n - 1)` before retry `n`, so each retry
/// waits twice as long as the one before.
pub proof fn lemma_doubling_waits_double(base: int, n: nat)
    requires
        1 <= n,
    ensures
        wait_nanos(Backoff::Doubling, base, 1) == base,
        wait_nanos(Backoff::Doubling, base, n + 1) == 2 * wait_nanos(Backoff::Doubling, base, n),
{
    lemma2_to64();
    assert(base * pow2(0) == base);
    lemma_pow2_unfold(n);
    assert(base * pow2(n) == 2 * (base * pow2((n - 1) as nat))) by (nonlinear_arith)
        requires
            pow2(n) == 2 * pow2((n - 1) as nat),
    ;
}

/// A retry loop makes at most `max_attempts` attempts in all, and always makes one
/// when there is an outcome for it.
pub proof fn lemma_attempts_made_bounded(v: RetryScheduleView, outcomes: Seq<Option<bool>>)
    ensures
        v.retries + attempts_made(v, outcomes) <= v.max_attempts || attempts_made(v, outcomes)
            <= 1,
        outcomes.len() > 0 ==> attempts_made(v, outcomes) >= 1,
        attempts_made(v, outcomes) <= outcomes.len(),
    decreases outcomes.len(),
{
    if outcomes.len() > 0 {
        lemma_attempts_made_bounded(v.advanced(), outcomes.drop_first());
    }
}

/// A retry loop whose attempts all fail with errors that may be retried uses every
/// attempt the configuration allows: from a schedule with `retries` retries taken,
/// it makes `max_attempts - retries` more attempts (one, when none is left), so a
/// fresh schedule makes exactly `max_attempts` attempts (1 initial + the retries).
pub proof fn lemma_retryable_failures_use_every_attempt(
    v: RetryScheduleView,
    outcomes: Seq<Option<bool>>,
)
    requires
        outcomes.len() + v.retries >= v.max_attempts,
        outcomes.len() >= 1,
        forall|i: int| 0 <= i < outcomes.len() ==> outcomes[i] == Some(true),
    ensures
        v.retries < v.max_attempts ==> attempts_made(v, outcomes) == v.max_attempts - v.retries,
        v.retries >= v.max_attempts ==> attempts_made(v, outcomes) == 1,
        v.retries == 0 && v.max_attempts >= 1 ==> attempts_made(v, outcomes) == v.max_attempts,
    decreases v.max_attempts - v.retries,
{
    if v.retries + 1 < v.max_attempts {
        let rest = outcomes.drop_first();
        assert forall|i: int| 0 <= i < rest.len() implies rest[i] == Some(true) by {
            assert(rest[i] == outcomes[i + 1]);
        }
        lemma_retryable_failures_use_every_attempt(v.advanced(), rest);
    }
}

/// The backoff and the base delay change only the waits of a retry loop, never its
/// decisions: two schedules with the same maximum and the same retries taken make
/// the same number of attempts over the same outcomes, and so return the same
/// outcome, and consult the retry condition on the same errors. In particular
/// `retry_with_exponential_backoff` and `retry` decide alike.
pub proof fn lemma_backoff_does_not_change_decisions(
    v1: RetryScheduleView,
    v2: RetryScheduleView,
    outcomes: Seq<Option<bool>>,
)
    requires
        v1.max_attempts == v2.max_attempts,
        v1.retries == v2.retries,
    ensures
        attempts_made(v1, outcomes) == attempts_made(v2, outcomes),
        forall|i: nat| consults_condition(v1, outcomes, i) == consults_condition(v2, outcomes, i),
    decreases outcomes.len(),
{
    if outcomes.len() > 0 {
        lemma_backoff_does_not_change_decisions(v1.advanced(), v2.advanced(), outcomes.drop_first());
    }
}

/// The doubling schedule can compute the wait before retry `n` whenever
/// `base * 2^(n - 1)` fits in a `Duration`, and never otherwise.
pub proof fn lemma_doubling_wait_defined_when_it_fits(base: int, n: nat)
    requires
        1 <= n,
    ensures
        wait_is_defined(Backoff::Doubling, base, n) <==> base * pow2((n - 1) as nat)
            <= max_nanos(),
{
}

/// Retrying with the doubling schedule waits as long before every retry as
/// retrying with the exponential backoff strategy, and up to the 32nd retry (the last
/// whose factor fits a `u32`) both can compute the same waits.
pub proof fn lemma_doubling_matches_exponential(base: int, n: nat)
    requires
        1 <= n <= usize::MAX,
    ensures
        wait_nanos(Backoff::Doubling, base, n) == wait_nanos(
            Backoff::Strategy(RetryStrategy::ExponentialBackoff),
            base,
            n,
        ),
        n <= 32 ==> (wait_is_defined(Backoff::Doubling, base, n) == wait_is_defined(
            Backoff::Strategy(RetryStrategy::ExponentialBackoff),
            base,
            n,
        )),
{
    assert(crate::strategies::backoff_exponent(n as usize) == n - 1);
}

} // verus!
