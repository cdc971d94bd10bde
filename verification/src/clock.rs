//! Points in time as the records carry them, and the system clock.
use vstd::prelude::*;

use std::time::SystemTime;

verus! {

/// A point in time: whole seconds since the Unix epoch (UTC) and the
/// nanoseconds past that second.
#[derive(Clone, Copy, Debug, PartialEq, Eq, Structural)]
pub struct Timestamp {
    pub secs: i64,
    pub nanos: u32,
}

#[verifier::external_type_specification]
#[verifier::external_body]
pub struct ExSystemTime(SystemTime);

/// Reads the system clock through `std::time::SystemTime::now`. What the
/// clock reads is up to the machine: nothing is said of it.
#[verifier::external_body]
fn system_time_now() -> (t: SystemTime) {
    SystemTime::now()
}

/// `SystemTime::duration_since(UNIX_EPOCH)`, as the whole seconds and the
/// sub-second nanoseconds of the `Duration` it returns; `None` when the time
/// lies before the epoch. The standard library keeps a duration's sub-second
/// nanoseconds below one second.
#[verifier::external_body]
fn since_unix_epoch(t: &SystemTime) -> (r: Option<(u64, u32)>)
    ensures
        r matches Some((_, n)) ==> n < 1_000_000_000,
{
    match t.duration_since(std::time::UNIX_EPOCH) {
        Ok(d) => Some((d.as_secs(), d.subsec_nanos())),
        Err(_) => None,
    }
}

/// chrono's `DateTime::<Utc>::from_timestamp`, read back through
/// `timestamp` and `timestamp_subsec_nanos`. chrono documents that the two
/// round-trip, so a result holds the seconds and nanoseconds it was made
/// from. Its source returns a value for every second of the day and every
/// nanosecond below one second on every date up to its last year (262142);
/// the contract claims that for seconds from the epoch below eight trillion
/// (around the year 255000). Where chrono returns `None` beyond that is not
/// stated.
#[verifier::external_body]
fn utc_from_timestamp(secs: i64, nanos: u32) -> (r: Option<Timestamp>)
    ensures
        r matches Some(t) ==> t.secs == secs && t.nanos == nanos,
        0 <= secs < 8_000_000_000_000 && nanos < 1_000_000_000 ==> r is Some,
{
    match chrono::DateTime::from_timestamp(secs, nanos) {
        Some(t) => Some(Timestamp { secs: t.timestamp(), nanos: t.timestamp_subsec_nanos() }),
        None => None,
    }
}

/// The point in time of a clock reading given as whole seconds and
/// nanoseconds since the Unix epoch; `None` for no reading and for seconds
/// that do not fit an `i64` or that chrono cannot represent.
pub fn from_epoch_reading(reading: Option<(u64, u32)>) -> (r: Option<Timestamp>)
    ensures
        match reading {
            None => r is None,
            Some((secs, nanos)) => {
                &&& secs > i64::MAX ==> r is None
                &&& r matches Some(t) ==> t.secs == secs && t.nanos == nanos
                &&& secs < 8_000_000_000_000 && nanos < 1_000_000_000 ==> r == Some(
                    (Timestamp { secs: secs as i64, nanos }),
                )
            },
        },
{
    match reading {
        None => None,
        Some((secs, nanos)) => {
            if secs <= 9223372036854775807u64 {
                utc_from_timestamp(secs as i64, nanos)
            } else {
                None
            }
        },
    }
}

/// The current time; `None` when the system clock reads a time before the
/// Unix epoch or one chrono cannot represent.
pub fn now() -> (r: Option<Timestamp>)
    ensures
        r matches Some(t) ==> t.secs >= 0 && t.nanos < 1_000_000_000,
{
    let t = system_time_now();
    from_epoch_reading(since_unix_epoch(&t))
}

} // verus!
