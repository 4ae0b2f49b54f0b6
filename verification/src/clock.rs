//! The wall clock, read as nanoseconds since the Unix epoch.
//!
//! Nothing is claimed of what the clock returns: two readings may differ in
//! either direction, and the rest of the library is verified for every
//! reading.

use vstd::prelude::*;
use std::time::{Duration, SystemTime, SystemTimeError};

verus! {

/// `std::time::SystemTime`, carried through as an opaque value.
#[verifier::external_type_specification]
#[verifier::external_body]
pub struct ExSystemTime(SystemTime);

/// `std::time::SystemTimeError`, carried through as an opaque value.
#[verifier::external_type_specification]
#[verifier::external_body]
pub struct ExSystemTimeError(SystemTimeError);

/// Calls `SystemTime::now`. The reading depends on the machine's clock, so
/// nothing is promised of it.
#[verifier::external_body]
fn system_now() -> (now: SystemTime) {
    SystemTime::now()
}

/// Calls `SystemTime::duration_since` with `UNIX_EPOCH` as the earlier
/// instant. It fails when `instant` lies before the epoch; nothing more is
/// promised of the result.
#[verifier::external_body]
fn since_epoch(instant: &SystemTime) -> (elapsed: Result<Duration, SystemTimeError>) {
    instant.duration_since(std::time::UNIX_EPOCH)
}

/// Calls `Duration::as_nanos`: the whole duration in nanoseconds. Nothing is
/// promised of the number.
#[verifier::external_body]
fn whole_nanos(duration: &Duration) -> (nanos: u128) {
    duration.as_nanos()
}

/// Reads the wall clock. A clock set before the Unix epoch reads as the
/// epoch itself, zero.
pub(crate) fn now() -> (nanos: u128) {
    let instant = system_now();
    match since_epoch(&instant) {
        Ok(elapsed) => whole_nanos(&elapsed),
        Err(_) => 0,
    }
}

} // verus!
