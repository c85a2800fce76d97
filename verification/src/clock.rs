//! Durations and wall-clock time, as the rest of the library sees them.

use std::time::{Duration, SystemTime, SystemTimeError, UNIX_EPOCH};
use vstd::prelude::*;

verus! {

#[verifier::external_type_specification]
#[verifier::external_body]
pub struct ExSystemTime(SystemTime);

#[verifier::external_type_specification]
#[verifier::external_body]
pub struct ExSystemTimeError(SystemTimeError);

/// What `Duration::as_millis` returns for a duration: its whole number of
/// milliseconds.
pub uninterp spec fn duration_millis(d: Duration) -> u128;

/// `Duration::as_millis`; its result is named [`duration_millis`].
#[verifier::external_body]
pub(crate) fn millis_of(d: &Duration) -> (r: u128)
    ensures
        r == duration_millis(*d),
{
    d.as_millis()
}

/// `Duration::from_millis`: a duration of `ms` milliseconds, whose
/// `as_millis` gives `ms` back (std documents both).
#[verifier::external_body]
pub(crate) fn duration_from_millis(ms: u64) -> (d: Duration)
    ensures
        duration_millis(d) == ms as u128,
{
    Duration::from_millis(ms)
}

/// `Duration::from_secs`: a duration of `secs` whole seconds, that is
/// `secs * 1000` milliseconds.
#[verifier::external_body]
pub(crate) fn duration_from_secs(secs: u64) -> (d: Duration)
    ensures
        duration_millis(d) == secs as u128 * 1000,
{
    Duration::from_secs(secs)
}

/// `Duration::as_secs`: the whole seconds of a duration, which is its
/// milliseconds divided by 1000.
#[verifier::external_body]
pub(crate) fn whole_secs(d: &Duration) -> (r: u64)
    ensures
        r as u128 == duration_millis(*d) / 1000,
{
    d.as_secs()
}

/// `SystemTime::now`; the result depends on the clock, so nothing is
/// stated of it.
#[verifier::external_body]
fn system_now() -> SystemTime {
    SystemTime::now()
}

/// `SystemTime::duration_since` the Unix epoch; fails when the clock is set
/// before 1970. Nothing is stated of the value, which rests on the clock.
#[verifier::external_body]
fn since_unix_epoch(t: &SystemTime) -> Result<Duration, SystemTimeError> {
    t.duration_since(UNIX_EPOCH)
}

/// Seconds since the Unix epoch, or 0 when the clock is set before it.
pub fn now_secs() -> u64 {
    let now = system_now();
    match since_unix_epoch(&now) {
        Ok(d) => whole_secs(&d),
        Err(_) => 0,
    }
}

} // verus!
