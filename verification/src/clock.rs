//! The system clock: the time since the Unix epoch as plain numbers, and the
//! whole milliseconds of such a time.

use std::time::{Duration, SystemTime, SystemTimeError};
use vstd::prelude::*;

verus! {

/// The number of nanoseconds in a second.
pub const NANOS_PER_SECOND: u64 = 1_000_000_000;

/// A time since the Unix epoch: whole seconds and the nanoseconds beyond
/// them.
#[derive(Debug, Clone, Copy, PartialEq, Eq, Structural)]
pub struct EpochTime {
    pub seconds: u64,
    pub subsec_nanos: u32,
}

/// The whole milliseconds in a time of `seconds` seconds and `subsec_nanos`
/// nanoseconds: what is left of a millisecond is dropped.
pub open spec fn whole_millis(seconds: u64, subsec_nanos: u32) -> nat {
    seconds as nat * 1000 + subsec_nanos as nat / 1_000_000
}

/// `std::time::SystemTime`, a reading of the system clock. Nothing is known
/// of what a value holds.
#[verifier::external_type_specification]
#[verifier::external_body]
pub struct ExSystemTime(SystemTime);

/// `std::time::SystemTimeError`, the error of a clock reading that lies before
/// the instant it is measured from.
#[verifier::external_type_specification]
#[verifier::external_body]
pub struct ExSystemTimeError(SystemTimeError);

/// `SystemTime::now` reads the system clock. Nothing is promised of the
/// reading.
pub assume_specification[ SystemTime::now ]() -> SystemTime;

/// `SystemTime::duration_since` measures the time from `earlier` to `later`,
/// and fails where `earlier` is the later of the two. Nothing is promised of
/// the result.
pub assume_specification[ SystemTime::duration_since ](
    later: &SystemTime,
    earlier: SystemTime,
) -> Result<Duration, SystemTimeError>;

/// `Duration::as_secs` gives the whole seconds of a duration. Nothing is
/// promised of the number.
pub assume_specification[ Duration::as_secs ](duration: &Duration) -> u64;

/// `Duration::subsec_nanos` gives what a duration holds beyond its whole
/// seconds, in nanoseconds: less than a second, as std documents.
pub assume_specification[ Duration::subsec_nanos ](duration: &Duration) -> (nanos: u32)
    ensures
        nanos < NANOS_PER_SECOND,
;

/// `std::time::UNIX_EPOCH`, the instant that Unix time counts from.
#[verifier::external_body]
fn unix_epoch() -> SystemTime {
    std::time::UNIX_EPOCH
}

/// The whole milliseconds in a time of `seconds` seconds and `subsec_nanos`
/// nanoseconds.
pub fn millis_from_parts(seconds: u64, subsec_nanos: u32) -> (millis: u128)
    ensures
        millis == whole_millis(seconds, subsec_nanos),
{
    seconds as u128 * 1000 + (subsec_nanos / 1_000_000) as u128
}

/// The whole milliseconds of a reading of the clock, or `None` where there
/// is no reading.
pub fn epoch_millis(reading: Option<EpochTime>) -> (millis: Option<u128>)
    ensures
        millis == (match reading {
            Some(time) => Some(whole_millis(time.seconds, time.subsec_nanos) as u128),
            None => None,
        }),
{
    match reading {
        Some(time) => Some(millis_from_parts(time.seconds, time.subsec_nanos)),
        None => None,
    }
}

/// The system clock's time since the Unix epoch, or `None` where the clock
/// stands before the epoch.
///
/// The time is a reading of the clock: the contract promises no more of it
/// than that its nanoseconds are less than a second.
pub fn read_system_clock() -> (reading: Option<EpochTime>)
    ensures
        reading is Some ==> reading.unwrap().subsec_nanos < NANOS_PER_SECOND,
{
    let now = SystemTime::now();
    match now.duration_since(unix_epoch()) {
        Ok(elapsed) => Some(
            EpochTime { seconds: elapsed.as_secs(), subsec_nanos: elapsed.subsec_nanos() },
        ),
        Err(_) => None,
    }
}

} // verus!
