//! Reading the system clock.
//!
//! The three functions of `std::time` that the reading takes stand here, each
//! behind a function of its own whose body Verus does not look into. None of
//! them promises anything about what it returns: the clock may read any
//! instant, and the code that uses the reading is verified for every one.

use std::time::{Duration, SystemTime};
use vstd::prelude::*;
use crate::time::Timestamp;

verus! {

#[verifier::external_type_specification]
#[verifier::external_body]
pub struct ExSystemTime(std::time::SystemTime);

/// Calls `SystemTime::now`, which reads the system clock. Two readings need
/// not agree, and a later one need not be the greater; nothing is claimed of
/// the value.
#[verifier::external_body]
fn system_time_now() -> (reading: SystemTime) {
    SystemTime::now()
}

/// Calls `SystemTime::duration_since` with `SystemTime::UNIX_EPOCH` as the
/// earlier instant. That call fails when `instant` lies before the epoch;
/// `None` stands for that failure. Nothing is claimed of the span returned.
#[verifier::external_body]
fn since_unix_epoch(instant: &SystemTime) -> (elapsed: Option<Duration>) {
    match instant.duration_since(SystemTime::UNIX_EPOCH) {
        Ok(elapsed) => Some(elapsed),
        Err(_) => None,
    }
}

/// Calls `Duration::as_nanos`, the whole span counted in nanoseconds. Nothing
/// is claimed of the number returned.
#[verifier::external_body]
fn duration_as_nanos(span: &Duration) -> (nanos: u128) {
    span.as_nanos()
}

/// The instant that the system clock shows, made from the reading by
/// [`Timestamp::from_unix_nanos`]. The clock may show any instant.
pub(crate) fn now() -> Timestamp {
    let reading = system_time_now();
    let elapsed = match since_unix_epoch(&reading) {
        Some(span) => Some(duration_as_nanos(&span)),
        None => None,
    };
    Timestamp::from_unix_nanos(elapsed)
}

} // verus!
