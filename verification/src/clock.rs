//! The system clock, as the time since the Unix epoch.

use vstd::prelude::*;

use std::time::SystemTime;

use crate::text::{decimal, decimal_text, error_text};

verus! {

#[verifier::external_type_specification]
#[verifier::external_body]
pub struct ExSystemTime(SystemTime);

/// `SystemTime::now`. Nothing is said of the result: it is the time of the call.
pub assume_specification[ SystemTime::now ]() -> SystemTime
;

/// The nanoseconds from the Unix epoch to a point in time, below zero if it lies before the epoch.
pub uninterp spec fn nanos_since_unix_epoch(time: SystemTime) -> int;

/// `SystemTime::duration_since` with the Unix epoch as the earlier point: the time that has
/// passed since then or, as the error, if the point in time lies before the epoch, the time
/// still to pass until then. Either comes as whole seconds and the nanoseconds beyond them,
/// which never make up a second.
#[verifier::external_body]
fn since_unix_epoch(time: &SystemTime) -> (r: Result<(u64, u32), (u64, u32)>)
    ensures
        r is Ok <==> nanos_since_unix_epoch(*time) >= 0,
        r matches Ok(passed) ==> passed.1 < 1_000_000_000,
        r matches Ok(passed) ==> passed.0 * 1_000_000_000 + passed.1 == nanos_since_unix_epoch(
            *time,
        ),
        r matches Err(left) ==> left.1 < 1_000_000_000,
        r matches Err(left) ==> left.0 * 1_000_000_000 + left.1 == -nanos_since_unix_epoch(*time),
{
    match time.duration_since(SystemTime::UNIX_EPOCH) {
        Ok(passed) => Ok((passed.as_secs(), passed.subsec_nanos())),
        Err(error) => Err((error.duration().as_secs(), error.duration().subsec_nanos())),
    }
}

/// What a clock shows at a point in time: the whole seconds since the epoch or, before the
/// epoch, the nanoseconds that are left until then.
pub open spec fn reading_at(time: SystemTime) -> Result<u64, u128> {
    let nanos = nanos_since_unix_epoch(time);
    if nanos >= 0 {
        Ok((nanos / 1_000_000_000) as u64)
    } else {
        Err((-nanos) as u128)
    }
}

/// The reading of a clock that shows the given point in time.
pub fn read_time(time: &SystemTime) -> (reading: Result<u64, u128>)
    ensures
        reading == reading_at(*time),
        reading matches Err(nanos) ==> nanos < (u64::MAX + 1) * 1_000_000_000,
{
    match since_unix_epoch(time) {
        Ok((secs, _)) => Ok(secs),
        Err((secs, nanos)) => Err(secs as u128 * 1_000_000_000 + nanos as u128),
    }
}

/// Reads the clock: the whole seconds since the epoch or, if the clock is before the epoch, the
/// nanoseconds that are left until then. At which point in time the clock is read is that of
/// the call.
pub fn read_clock() -> (reading: Result<u64, u128>)
    ensures
        exists|time: SystemTime| reading == #[trigger] reading_at(time),
        reading matches Err(nanos) ==> nanos < (u64::MAX + 1) * 1_000_000_000,
{
    let now = SystemTime::now();
    read_time(&now)
}

/// The second that a reading of the clock stands for. A clock before the epoch is an error.
pub open spec fn second_of_reading(reading: Result<u64, u128>) -> Result<usize, Seq<char>> {
    match reading {
        Ok(secs) => Ok(secs as usize),
        Err(nanos) => Err(
            "Impossible duration from Unix epoch to now: "@ + decimal(nanos as nat)
                + " nanoseconds"@,
        ),
    }
}

/// Turns a reading of the clock into seconds since the epoch.
pub fn second_from_reading(reading: Result<u64, u128>) -> (second: Result<usize, String>)
    ensures
        error_text(second) == second_of_reading(reading),
{
    match reading {
        Ok(secs) => Ok(secs as usize),
        Err(nanos) => {
            let mut message = "Impossible duration from Unix epoch to now: ".to_owned();
            let nanos_text = decimal_text(nanos);
            message.append(nanos_text.as_str());
            message.append(" nanoseconds");
            Err(message)
        },
    }
}

/// A clock shows the whole seconds that have passed since the epoch, or the nanoseconds that are
/// left until then.
pub proof fn law_reading_is_the_time(time: SystemTime)
    requires
        -(u128::MAX as int) <= nanos_since_unix_epoch(time) < (u64::MAX + 1) * 1_000_000_000,
    ensures
        nanos_since_unix_epoch(time) >= 0 ==> (reading_at(time) matches Ok(secs) && secs
            * 1_000_000_000 <= nanos_since_unix_epoch(time) < (secs + 1) * 1_000_000_000),
        nanos_since_unix_epoch(time) < 0 ==> (reading_at(time) matches Err(left)
            && nanos_since_unix_epoch(time) + left == 0),
{
}

/// A later point in time never has an earlier reading.
pub proof fn law_clock_goes_forward(a: SystemTime, b: SystemTime)
    requires
        0 <= nanos_since_unix_epoch(a) <= nanos_since_unix_epoch(b) < (u64::MAX + 1)
            * 1_000_000_000,
    ensures
        reading_at(a) matches Ok(x) && reading_at(b) matches Ok(y) && x <= y,
{
    law_reading_is_the_time(a);
    law_reading_is_the_time(b);
}

/// A reading in seconds is the second that it shows, if that is within range; a reading before
/// the epoch is an error that tells how far off it is.
pub proof fn law_second_is_the_reading(reading: Result<u64, u128>)
    ensures
        reading matches Ok(secs) ==> secs <= usize::MAX ==> (second_of_reading(reading) matches Ok(
            second,
        ) && second == secs),
        reading matches Ok(_) ==> second_of_reading(reading) is Ok,
        reading matches Err(nanos) ==> (second_of_reading(reading) matches Err(message) && message
            == "Impossible duration from Unix epoch to now: "@ + decimal(nanos as nat)
            + " nanoseconds"@),
{
}

} // verus!
