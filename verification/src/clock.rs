//! The wall clock.  What it reads depends on the moment; the library only
//! states how a reading becomes a timestamp.

use vstd::prelude::*;

verus! {

#[verifier::external_type_specification]
#[verifier::external_body]
pub struct ExSystemTime(std::time::SystemTime);

/// `std::time::SystemTime::now()`.
///
/// Trusted: nothing is claimed of the reading, which depends on the moment.
#[verifier::external_body]
fn system_now() -> std::time::SystemTime {
    std::time::SystemTime::now()
}

/// `t.duration_since(UNIX_EPOCH)`, with the error (a time before 1970) as
/// `None`.
///
/// Trusted: nothing is claimed of the duration; it is opaque here.
#[verifier::external_body]
fn since_epoch(t: &std::time::SystemTime) -> Option<std::time::Duration> {
    t.duration_since(std::time::UNIX_EPOCH).ok()
}

/// `d.as_millis()`.
///
/// Trusted: a duration is opaque here, so nothing is claimed of its
/// milliseconds.
#[verifier::external_body]
fn duration_millis(d: &std::time::Duration) -> u128 {
    d.as_millis()
}

/// The time since 1970 in whole milliseconds; `None` when the clock is
/// before 1970.
fn unix_time_millis() -> (r: Option<u128>) {
    match since_epoch(&system_now()) {
        Some(d) => Some(duration_millis(&d)),
        None => None,
    }
}

/// A clock reading as epoch milliseconds: a clock before 1970 reads 0.
pub fn millis_of(reading: Option<u128>) -> (r: i64)
    ensures
        r == (match reading {
            Some(ms) => ms as i64,
            None => 0,
        }),
{
    match reading {
        Some(ms) => #[verifier::truncate] (ms as i64),
        None => 0,
    }
}

/// A clock reading as epoch seconds: a clock before 1970 reads 0.
pub fn seconds_of(reading: Option<u128>) -> (r: i64)
    ensures
        r == (match reading {
            Some(ms) => (ms / 1000) as i64,
            None => 0,
        }),
{
    match reading {
        Some(ms) => #[verifier::truncate] ((ms / 1000) as i64),
        None => 0,
    }
}

/// The current time in epoch milliseconds.
pub fn epoch_millis() -> (r: i64) {
    millis_of(unix_time_millis())
}

/// The current time in epoch seconds.
pub fn now_unix_seconds() -> (r: i64) {
    seconds_of(unix_time_millis())
}

} // verus!
