//! Wall-clock time in Unix milliseconds.

use std::time::{Duration, SystemTime, UNIX_EPOCH};
use vstd::prelude::*;

verus! {

#[verifier::external_type_specification]
#[verifier::external_body]
pub struct ExSystemTime(SystemTime);

/// Calls `SystemTime::now`. The value read from the system clock depends on the
/// moment of the call, so nothing is stated of it.
#[verifier::external_body]
fn system_now() -> SystemTime {
    SystemTime::now()
}

/// Calls `SystemTime::duration_since` with `UNIX_EPOCH`, keeping the error case as
/// `None` (the clock reads before the epoch). What the duration is rests on a clock
/// reading that Verus cannot see, so nothing more is stated.
#[verifier::external_body]
fn since_unix_epoch(t: &SystemTime) -> Option<Duration> {
    t.duration_since(UNIX_EPOCH).ok()
}

/// Calls `Duration::as_millis`: the whole milliseconds of `d`. A `Duration` is
/// opaque to Verus, so the value is not related to `d` here.
#[verifier::external_body]
fn whole_millis(d: &Duration) -> u128 {
    d.as_millis()
}

/// Milliseconds since the epoch as the tracker stores them: a missing reading is 0
/// (a default duration), a reading is truncated to `i64` as `as` does.
pub open spec fn millis_reading(ms: Option<u128>) -> i64 {
    match ms {
        Some(v) => v as i64,
        None => 0,
    }
}

/// Turns a clock reading into stored milliseconds.
pub fn millis_from_reading(ms: Option<u128>) -> (r: i64)
    ensures
        r == millis_reading(ms),
{
    match ms {
        Some(v) => v as i64,
        None => 0,
    }
}

/// The current time in milliseconds since the Unix epoch, 0 when the clock reads
/// before the epoch. The value is whatever the clock reads, so no clause is stated
/// of it; `millis_from_reading` states the conversion.
pub fn unix_millis_now() -> i64 {
    let now = system_now();
    let reading = match since_unix_epoch(&now) {
        Some(d) => Some(whole_millis(&d)),
        None => None,
    };
    millis_from_reading(reading)
}

} // verus!
