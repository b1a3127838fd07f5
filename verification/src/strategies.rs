//! Retry strategies: how the delay before a retry grows with the attempt number.

use crate::duration::{checked_mul, duration_nanos, max_nanos};
use std::time::Duration;
use vstd::arithmetic::power2::{lemma2_to64, lemma_pow2_strictly_increases, pow2};
use vstd::prelude::*;

verus! {

/// Defines the retry strategy to use when scheduling retry attempts.
#[derive(Debug, Clone, Copy, PartialEq, Eq, Structural)]
pub enum RetryStrategy {
    /// The delay between retries stays constant: every retry waits the base delay.
    Linear,
    /// The delay doubles with each retry: with a base delay of 2 seconds, retries wait
    /// 2s, 4s, 8s, and so on.
    ExponentialBackoff,
}

/// The power of two that exponential backoff applies to the base delay for `attempt`
/// (one or more): `attempt - 1`.
pub open spec fn backoff_exponent(attempt: usize) -> nat {
    (attempt - 1) as nat
}

impl RetryStrategy {
    /// The delay, in nanoseconds, that the strategy gives `attempt` for a base delay of
    /// `base` nanoseconds.
    pub open spec fn delay_nanos(self, base: int, attempt: usize) -> int {
        match self {
            RetryStrategy::Linear => base,
            RetryStrategy::ExponentialBackoff => if attempt == 0 {
                base
            } else {
                base * pow2(backoff_exponent(attempt))
            },
        }
    }

    /// Whether that delay can be computed: the factor `2^(attempt - 1)` fits in a `u32`
    /// and the product fits in a `Duration`.
    pub open spec fn delay_is_defined(self, base: int, attempt: usize) -> bool {
        match self {
            RetryStrategy::Linear => true,
            RetryStrategy::ExponentialBackoff => attempt == 0 || (backoff_exponent(attempt) < 32
                && base * pow2(backoff_exponent(attempt)) <= max_nanos()),
        }
    }

    /// Calculates the delay before a retry attempt.
    ///
    /// `Linear` returns `base_delay` for every attempt; `ExponentialBackoff` returns
    /// `base_delay` for attempt 0 and `base_delay * 2^(attempt - 1)` for later attempts.
    pub fn calculate_delay(&self, base_delay: Duration, attempt: usize) -> (d: Duration)
        requires
            self.delay_is_defined(duration_nanos(base_delay) as int, attempt),
        ensures
            duration_nanos(d) == self.delay_nanos(duration_nanos(base_delay) as int, attempt),
            (*self == RetryStrategy::Linear || attempt == 0) ==> d == base_delay,
    {
        match self.checked_delay(base_delay, attempt) {
            Some(d) => d,
            None => base_delay,
        }
    }

    /// The delay of `calculate_delay`, or `None` where it cannot be computed.
    pub fn checked_delay(&self, base_delay: Duration, attempt: usize) -> (r: Option<Duration>)
        ensures
            r is Some <==> self.delay_is_defined(duration_nanos(base_delay) as int, attempt),
            r matches Some(d) ==> duration_nanos(d) == self.delay_nanos(
                duration_nanos(base_delay) as int,
                attempt,
            ),
            r matches Some(d) ==> ((*self == RetryStrategy::Linear || attempt == 0) ==> d
                == base_delay),
    {
        match self {
            RetryStrategy::Linear => Some(base_delay),
            RetryStrategy::ExponentialBackoff => {
                if attempt == 0 {
                    Some(base_delay)
                } else {
                    let e: usize = attempt - 1;
                    if e >= 32 {
                        None
                    } else {
                        let factor = pow2_u32(e as u32);
                        checked_mul(base_delay, factor)
                    }
                }
            },
        }
    }
}

/// Exponential backoff can compute the delay of every attempt whose factor
/// `2^(attempt - 1)` fits in a `u32` and whose product with the base delay fits in
/// a `Duration`, and of no other attempt after the first; the linear strategy can
/// compute every delay.
pub proof fn lemma_delay_defined_when_it_fits(base: int, attempt: usize)
    ensures
        RetryStrategy::Linear.delay_is_defined(base, attempt),
        RetryStrategy::ExponentialBackoff.delay_is_defined(base, attempt) <==> (attempt == 0 || (
        attempt - 1 < 32 && base * pow2((attempt - 1) as nat) <= max_nanos())),
{
}

/// `2^e` for an exponent below 32.
fn pow2_u32(e: u32) -> (r: u32)
    requires
        e < 32,
    ensures
        r == pow2(e as nat),
{
    let mut p: u32 = 1;
    let mut i: u32 = 0;
    proof {
        lemma2_to64();
    }
    while i < e
        invariant
            i <= e < 32,
            p == pow2(i as nat),
            pow2(31) == 0x8000_0000,
        decreases e - i,
    {
        proof {
            if i < 31 {
                lemma_pow2_strictly_increases(i as nat, 31);
            }
            vstd::arithmetic::power2::lemma_pow2_unfold((i + 1) as nat);
        }
        p = p * 2;
        i = i + 1;
    }
    p
}

} // verus!
