use vstd::prelude::*;
use core::time::Duration;
use std::time::{SystemTime, SystemTimeError, UNIX_EPOCH};

verus! {

#[verifier::external_type_specification]
#[verifier::external_body]
pub struct ExSystemTime(SystemTime);

/// `std::time::SystemTime::now`: the current time of the system clock.
/// Nothing is stated of it.
#[verifier::external_body]
fn clock_now() -> (r: SystemTime) {
    SystemTime::now()
}

/// `std::time::SystemTime::duration_since`, from the Unix epoch: fails when
/// the time lies before the epoch. Nothing is stated of the duration.
#[verifier::external_body]
fn since_unix_epoch(t: &SystemTime) -> (r: Result<Duration, SystemTimeError>) {
    t.duration_since(UNIX_EPOCH)
}

/// `core::time::Duration::as_millis`: the whole milliseconds of a duration.
/// A `Duration` is opaque here, so nothing is stated of the number.
#[verifier::external_body]
fn whole_millis(d: &Duration) -> (r: u128) {
    d.as_millis()
}

/// A count of whole milliseconds as a 64-bit integer, truncated to 64 bits
/// as an `as i64` cast does.
pub fn millis_as_i64(whole: u128) -> (r: i64)
    ensures
        r == whole as i64,
{
    whole as i64
}

/// Milliseconds since the Unix epoch, as a 64-bit integer (the count is
/// truncated to 64 bits, as an `as i64` cast does). Fails when the clock is
/// set before the epoch.
pub fn unix_millis_now() -> (r: Result<i64, SystemTimeError>) {
    let now = clock_now();
    match since_unix_epoch(&now) {
        Ok(d) => {
            let whole = whole_millis(&d);
            Ok(millis_as_i64(whole))
        },
        Err(e) => Err(e),
    }
}

} // verus!
