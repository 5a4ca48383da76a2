//! Wall-clock time since the Unix epoch, in seconds and in milliseconds.
//!
//! The clock is the one input of this crate that no argument carries. Of a
//! reading nothing can be said beforehand; every function that reads it has a
//! twin that takes the reading as a parameter and whose contract is exact.

use std::time::Duration;
use std::time::SystemTime;
use std::time::SystemTimeError;
use vstd::prelude::*;

verus! {

/// `std::time::SystemTime`, a reading of the system clock. Its content is
/// not looked at.
#[verifier::external_type_specification]
#[verifier::external_body]
pub struct ExSystemTime(SystemTime);

/// `std::time::SystemTimeError`, the error of a clock that reads earlier
/// than the time it is compared with. Its content is not looked at.
#[verifier::external_type_specification]
#[verifier::external_body]
pub struct ExSystemTimeError(SystemTimeError);

/// `SystemTime::now` reads the system clock. Nothing is claimed of the value.
pub assume_specification[ SystemTime::now ]() -> (t: SystemTime);

/// `Duration::as_secs` gives the whole seconds of a duration. Nothing is
/// claimed of the value, since the durations met here come from the clock.
pub assume_specification[ Duration::as_secs ](d: &Duration) -> (secs: u64);

/// `SystemTime::duration_since`, taken against `UNIX_EPOCH`: the time elapsed
/// since the epoch, or an error when `t` lies before it. Nothing is claimed
/// of the value.
#[verifier::external_body]
fn since_epoch(t: &SystemTime) -> (d: Result<Duration, SystemTimeError>) {
    t.duration_since(SystemTime::UNIX_EPOCH)
}

/// Seconds since the Unix epoch; a clock set before the epoch reads as 0.
pub fn unix_seconds() -> (secs: u64) {
    let elapsed = match since_epoch(&SystemTime::now()) {
        Ok(elapsed) => Some(elapsed.as_secs()),
        Err(_) => None,
    };
    seconds_or_epoch(elapsed)
}

/// Seconds since the Unix epoch as a signed value, capped at `i64::MAX`.
pub fn unix_timestamp() -> (secs: i64)
    ensures
        secs >= 0,
{
    timestamp_of(unix_seconds())
}

/// What a clock reads in whole seconds, given the seconds that have elapsed
/// since the epoch, or nothing for a clock set before the epoch: such a
/// clock reads as the epoch itself.
pub open spec fn reading_or_epoch(elapsed: Option<u64>) -> u64 {
    match elapsed {
        Some(seconds) => seconds,
        None => 0,
    }
}

/// Seconds as a signed timestamp: the same number where a signed value can
/// hold it, and the highest signed value beyond that.
pub open spec fn capped_timestamp(seconds: u64) -> i64 {
    if seconds > 0x7fff_ffff_ffff_ffff {
        0x7fff_ffff_ffff_ffff
    } else {
        seconds as i64
    }
}

/// What a clock reads in whole seconds, given the seconds that have elapsed
/// since the epoch, or nothing for a clock set before the epoch.
pub fn seconds_or_epoch(elapsed: Option<u64>) -> (secs: u64)
    ensures
        secs == reading_or_epoch(elapsed),
{
    match elapsed {
        Some(seconds) => seconds,
        None => 0,
    }
}

/// Seconds as a signed timestamp, capped at `i64::MAX`.
pub fn timestamp_of(seconds: u64) -> (secs: i64)
    ensures
        secs == capped_timestamp(seconds),
        secs >= 0,
{
    if seconds > 0x7fff_ffff_ffff_ffff {
        0x7fff_ffff_ffff_ffff
    } else {
        seconds as i64
    }
}

/// `Duration::as_millis` gives the whole milliseconds of a duration. Nothing
/// is claimed of the value, since the durations met here come from the
/// clock.
pub assume_specification[ Duration::as_millis ](d: &Duration) -> (millis: u128);

/// What a clock reads in milliseconds as a signed timestamp, given the
/// milliseconds that have elapsed since the epoch, or nothing for a clock
/// set before the epoch: the same number where a signed value can hold it,
/// the highest signed value beyond that, and 0 for a clock set before the
/// epoch.
pub open spec fn millis_timestamp(elapsed: Option<u128>) -> i64 {
    match elapsed {
        Some(millis) => if millis > 0x7fff_ffff_ffff_ffff {
            0x7fff_ffff_ffff_ffff
        } else {
            millis as i64
        },
        None => 0,
    }
}

/// What a clock reads in milliseconds as a signed timestamp, capped at
/// `i64::MAX`.
pub fn timestamp_of_millis(elapsed: Option<u128>) -> (stamp: i64)
    ensures
        stamp == millis_timestamp(elapsed),
        stamp >= 0,
{
    match elapsed {
        Some(millis) => {
            if millis > 0x7fff_ffff_ffff_ffff {
                0x7fff_ffff_ffff_ffff
            } else {
                millis as i64
            }
        },
        None => 0,
    }
}

/// Milliseconds since the Unix epoch as a signed value, capped at
/// `i64::MAX`; a clock set before the epoch reads as 0.
pub fn unix_millis() -> (stamp: i64)
    ensures
        stamp >= 0,
{
    let elapsed = match since_epoch(&SystemTime::now()) {
        Ok(elapsed) => Some(elapsed.as_millis()),
        Err(_) => None,
    };
    timestamp_of_millis(elapsed)
}

} // verus!
