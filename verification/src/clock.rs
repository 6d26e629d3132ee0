use std::time::{Duration, SystemTime, SystemTimeError, UNIX_EPOCH};
use vstd::prelude::*;

use crate::capability::CapabilityError;

verus! {

#[verifier::external_type_specification]
#[verifier::external_body]
pub struct ExSystemTime(SystemTime);

#[verifier::external_type_specification]
#[verifier::external_body]
pub struct ExSystemTimeError(SystemTimeError);

/// Calls `SystemTime::now`. Nothing is stated of the result: it is whatever the
/// system clock reads at the moment of the call.
#[verifier::external_body]
fn system_now() -> (now: SystemTime) {
    SystemTime::now()
}

/// Calls `SystemTime::duration_since` with `UNIX_EPOCH`. Nothing is stated of the
/// result: the time value is opaque here, and the call fails when it lies before
/// the epoch.
#[verifier::external_body]
fn since_unix_epoch(t: &SystemTime) -> (elapsed: Result<Duration, SystemTimeError>) {
    t.duration_since(UNIX_EPOCH)
}

/// Calls `Duration::as_secs`. Nothing is stated of the result: the duration is
/// opaque here.
#[verifier::external_body]
fn whole_seconds(d: &Duration) -> (secs: u64) {
    d.as_secs()
}

/// Whole seconds since the Unix epoch by the system clock; `Clock` when the
/// clock reads a time before the epoch.
pub(crate) fn unix_seconds() -> (secs: Result<u64, CapabilityError>)
    ensures
        secs is Err ==> secs == Err::<u64, CapabilityError>(CapabilityError::Clock),
{
    let now = system_now();
    match since_unix_epoch(&now) {
        Ok(elapsed) => Ok(whole_seconds(&elapsed)),
        Err(_) => Err(CapabilityError::Clock),
    }
}

} // verus!
