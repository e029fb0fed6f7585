//! The wall clock, which decides when a status message has been shown long enough.

use std::time::{Duration, SystemTime, SystemTimeError};
use vstd::prelude::*;

verus! {

#[verifier::external_type_specification]
#[verifier::external_body]
pub struct ExSystemTime(SystemTime);

#[verifier::external_type_specification]
#[verifier::external_body]
pub struct ExSystemTimeError(SystemTimeError);

/// Calls `SystemTime::now`. Nothing is claimed of the instant it returns:
/// it is read from the clock.
#[verifier::external_body]
pub(crate) fn now() -> SystemTime {
    SystemTime::now()
}

/// Calls `SystemTime::elapsed`. Nothing is claimed of the result: it depends
/// on the clock, and is an error when the clock has gone backwards.
#[verifier::external_body]
pub(crate) fn elapsed(t: &SystemTime) -> Result<Duration, SystemTimeError> {
    t.elapsed()
}

/// Calls `Duration::as_secs`. Nothing is claimed of the result, since a
/// `Duration` is opaque here.
#[verifier::external_body]
pub(crate) fn as_secs(d: &Duration) -> u64 {
    d.as_secs()
}

} // verus!
