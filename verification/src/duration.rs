//! The model of `std::time::Duration` and `std::time::Instant` used by the contracts.
//!
//! A `Duration` is seen through the total number of whole nanoseconds that it spans,
//! as `Duration::as_nanos` reports it.

use std::time::{Duration, Instant};
use vstd::prelude::*;

verus! {

#[verifier::external_type_specification]
#[verifier::external_body]
pub struct ExInstant(Instant);

/// Number of nanoseconds in one second.
pub open spec fn nanos_per_sec() -> int {
    1_000_000_000
}

/// The number of nanoseconds spanned by `Duration::MAX`: `u64::MAX` seconds plus
/// 999 999 999 nanoseconds.
pub open spec fn max_nanos() -> int {
    18_446_744_073_709_551_615 * nanos_per_sec() + 999_999_999
}

/// What `Duration::as_nanos` returns: the total number of whole nanoseconds that a
/// duration spans.
pub uninterp spec fn duration_nanos(d: Duration) -> u128;

/// Calls `Duration::as_nanos`, which std documents as the total number of whole
/// nanoseconds contained by the duration.
#[verifier::external_body]
pub(crate) fn as_nanos(d: &Duration) -> (r: u128)
    ensures
        r == duration_nanos(*d),
{
    d.as_nanos()
}

/// Calls `Duration::checked_mul`, which std documents as `self * rhs`, or `None` when
/// the product overflows a `Duration` (whose largest value is `Duration::MAX`).
#[verifier::external_body]
pub(crate) fn checked_mul(d: Duration, rhs: u32) -> (r: Option<Duration>)
    ensures
        r is None <==> duration_nanos(d) * rhs > max_nanos(),
        r matches Some(p) ==> duration_nanos(p) == duration_nanos(d) * rhs,
{
    d.checked_mul(rhs)
}

/// Calls `Duration::from_secs`, which std documents as a duration of exactly `secs`
/// whole seconds.
#[verifier::external_body]
pub(crate) fn from_secs(secs: u64) -> (r: Duration)
    ensures
        duration_nanos(r) == secs * nanos_per_sec(),
{
    Duration::from_secs(secs)
}

/// Calls `Instant::now`. The instant depends on the clock, so nothing is stated of it.
#[verifier::external_body]
pub(crate) fn now() -> Instant {
    Instant::now()
}

/// What `Instant::saturating_duration_since` returns: the time elapsed from
/// `earlier` to `later`, or zero when `earlier` is the later one.
pub uninterp spec fn instant_span(later: Instant, earlier: Instant) -> Duration;

/// Calls `Instant::saturating_duration_since`, whose result std determines from the
/// two instants alone.
#[verifier::external_body]
pub(crate) fn saturating_duration_since(later: &Instant, earlier: &Instant) -> (d: Duration)
    ensures
        d == instant_span(*later, *earlier),
{
    later.saturating_duration_since(*earlier)
}

} // verus!
