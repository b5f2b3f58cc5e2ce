//! The host's clock.

use std::time::{Duration, SystemTime};
use vstd::prelude::*;

verus! {

/// `std::time::SystemTime`: a reading of the system clock.
#[verifier::external_type_specification]
#[verifier::external_body]
pub struct ExSystemTime(SystemTime);

/// `SystemTime::now`: the reading of the system clock. Nothing is claimed of it.
#[verifier::external_body]
fn system_now() -> SystemTime {
    SystemTime::now()
}

/// `SystemTime::duration_since`, from the Unix epoch: the time that has passed
/// since then, or nothing where the clock stands before the epoch. Nothing is
/// claimed of the result.
#[verifier::external_body]
fn since_unix_epoch(t: &SystemTime) -> Option<Duration> {
    t.duration_since(SystemTime::UNIX_EPOCH).ok()
}

/// `Duration::as_secs`: the whole seconds of a duration. Nothing is claimed of
/// the result.
pub assume_specification[ Duration::as_secs ](d: &Duration) -> u64;

/// `Duration::as_millis`: the whole milliseconds of a duration. Nothing is
/// claimed of the result.
pub assume_specification[ Duration::as_millis ](d: &Duration) -> u128;

/// `Duration::as_nanos`: the whole nanoseconds of a duration. Nothing is
/// claimed of the result.
pub assume_specification[ Duration::as_nanos ](d: &Duration) -> u128;

/// The largest value of a `u64`, as a `u128`.
pub const U64_LIMIT: u128 = 0xffff_ffff_ffff_ffff;

/// The largest value of an `i64`, as a `u128`.
pub const I64_LIMIT: u128 = 0x7fff_ffff_ffff_ffff;

/// `n` as a `u64`, or the largest `u64` where it does not fit.
pub open spec fn saturated_u64(n: u128) -> u64 {
    if n > U64_LIMIT {
        0xffff_ffff_ffff_ffffu64
    } else {
        n as u64
    }
}

/// `n` as an `i64`, or the largest `i64` where it does not fit.
pub open spec fn saturated_i64(n: u128) -> i64 {
    if n > I64_LIMIT {
        0x7fff_ffff_ffff_ffffi64
    } else {
        n as i64
    }
}

/// `n` as a `u64`, or the largest `u64` where it does not fit.
pub fn saturate_u64(n: u128) -> (r: u64)
    ensures
        r == saturated_u64(n),
{
    if n > U64_LIMIT {
        u64::MAX
    } else {
        n as u64
    }
}

/// `n` as an `i64`, or the largest `i64` where it does not fit.
pub fn saturate_i64(n: u128) -> (r: i64)
    ensures
        r == saturated_i64(n),
        r >= 0,
{
    if n > I64_LIMIT {
        i64::MAX
    } else {
        n as i64
    }
}

/// The milliseconds since the Unix epoch by the system clock; 0 where the
/// clock stands before the epoch. Two readings may differ in either direction.
pub fn unix_millis() -> u64 {
    let now = system_now();
    millis_of(match since_unix_epoch(&now) {
        Some(d) => Some(d.as_millis()),
        None => None,
    })
}

/// The seconds since the Unix epoch by the system clock; 0 where the clock
/// stands before the epoch.
pub fn unix_seconds() -> (r: i64)
    ensures
        r >= 0,
{
    let now = system_now();
    seconds_of(match since_unix_epoch(&now) {
        Some(d) => {
            let secs: u64 = d.as_secs();
            Some(secs)
        },
        None => None,
    })
}

/// The nanoseconds since the Unix epoch by the system clock; 0 where the
/// clock stands before the epoch.
pub fn unix_nanos() -> (r: i64)
    ensures
        r >= 0,
{
    let now = system_now();
    nanos_of(match since_unix_epoch(&now) {
        Some(d) => Some(d.as_nanos()),
        None => None,
    })
}

/// The milliseconds that a reading of the clock stands for, where `elapsed`
/// milliseconds have passed since the Unix epoch, or the clock stands before
/// it: the milliseconds, at most the largest `u64`, and 0 before the epoch.
pub open spec fn millis_since_epoch(elapsed: Option<u128>) -> u64 {
    match elapsed {
        Some(n) => saturated_u64(n),
        None => 0,
    }
}

/// The seconds that a reading of the clock stands for, where `elapsed`
/// seconds have passed since the Unix epoch, or the clock stands before it:
/// the seconds, at most the largest `i64`, and 0 before the epoch.
pub open spec fn seconds_since_epoch(elapsed: Option<u64>) -> i64 {
    match elapsed {
        Some(n) => saturated_i64(n as u128),
        None => 0,
    }
}

/// The nanoseconds that a reading of the clock stands for, where `elapsed`
/// nanoseconds have passed since the Unix epoch, or the clock stands before
/// it: the nanoseconds, at most the largest `i64`, and 0 before the epoch.
pub open spec fn nanos_since_epoch(elapsed: Option<u128>) -> i64 {
    match elapsed {
        Some(n) => saturated_i64(n),
        None => 0,
    }
}

/// The milliseconds that a reading of the clock stands for.
pub fn millis_of(elapsed: Option<u128>) -> (r: u64)
    ensures
        r == millis_since_epoch(elapsed),
{
    match elapsed {
        Some(n) => saturate_u64(n),
        None => 0,
    }
}

/// The seconds that a reading of the clock stands for.
pub fn seconds_of(elapsed: Option<u64>) -> (r: i64)
    ensures
        r == seconds_since_epoch(elapsed),
        r >= 0,
{
    match elapsed {
        Some(n) => saturate_i64(n as u128),
        None => 0,
    }
}

/// The nanoseconds that a reading of the clock stands for.
pub fn nanos_of(elapsed: Option<u128>) -> (r: i64)
    ensures
        r == nanos_since_epoch(elapsed),
        r >= 0,
{
    match elapsed {
        Some(n) => saturate_i64(n),
        None => 0,
    }
}

} // verus!
