//! The schedule of checks: one at the tenth minute of every hour, local time.
//!
//! The local clock is read by the caller and handed over as a
//! `ClockReading`.

use crate::clock::NANOS_PER_SECOND;
use vstd::prelude::*;

verus! {

/// The minute of the hour at which a check is due.
pub const CHECK_MINUTE: u32 = 10;

/// A reading of the local clock, as far as the schedule needs it.
#[derive(Debug, Clone, Copy, PartialEq, Eq, Structural)]
pub struct ClockReading {
    pub hour: u32,
    pub minute: u32,
    pub second: u32,
    pub nanosecond: u32,
}

/// A span of time: whole seconds and the nanoseconds beyond them.
#[derive(Debug, Clone, Copy, PartialEq, Eq, Structural)]
pub struct Delay {
    pub seconds: u64,
    pub nanoseconds: u32,
}

/// A time of day by hour and minute.
#[derive(Debug, Clone, Copy, PartialEq, Eq, Structural)]
pub struct CheckTime {
    pub hour: u32,
    pub minute: u32,
}

impl ClockReading {
    /// Whether the reading is a time of day: an hour below 24, a minute and a
    /// second below 60, and less than a second of nanoseconds.
    pub open spec fn is_time_of_day(self) -> bool {
        &&& self.hour < 24
        &&& self.minute < 60
        &&& self.second < 60
        &&& self.nanosecond < NANOS_PER_SECOND
    }

    /// The nanoseconds since the start of the hour.
    pub open spec fn nanos_into_hour(self) -> int {
        (self.minute * 60 + self.second) * NANOS_PER_SECOND + self.nanosecond
    }

    /// The nanoseconds from the start of this hour to the next check: to the
    /// tenth minute of this hour before that minute, to the tenth minute of
    /// the next hour from that minute on.
    pub open spec fn target_nanos(self) -> int {
        if self.minute >= CHECK_MINUTE {
            (60 + CHECK_MINUTE) * 60 * NANOS_PER_SECOND
        } else {
            CHECK_MINUTE * 60 * NANOS_PER_SECOND
        }
    }

    /// The nanoseconds from this reading to the next check.
    pub open spec fn nanos_to_next_check(self) -> int {
        self.target_nanos() - self.nanos_into_hour()
    }

    /// The time of day of the next check.
    pub open spec fn next_check(self) -> CheckTime {
        if self.minute >= CHECK_MINUTE {
            CheckTime { hour: ((self.hour + 1) % 24) as u32, minute: CHECK_MINUTE }
        } else {
            CheckTime { hour: self.hour, minute: CHECK_MINUTE }
        }
    }
}

impl Delay {
    /// The span in nanoseconds.
    pub open spec fn nanos(self) -> int {
        self.seconds * NANOS_PER_SECOND + self.nanoseconds
    }
}

/// The time of day of the check that follows `now`: the tenth minute of this
/// hour, or of the next hour where that minute has come.
pub fn next_check_time(now: ClockReading) -> (target: Option<CheckTime>)
    ensures
        target == (if now.is_time_of_day() {
            Some(now.next_check())
        } else {
            None
        }),
{
    if now.hour >= 24 || now.minute >= 60 || now.second >= 60 || now.nanosecond as u64
        >= NANOS_PER_SECOND {
        return None;
    }
    if now.minute >= CHECK_MINUTE {
        Some(CheckTime { hour: (now.hour + 1) % 24, minute: CHECK_MINUTE })
    } else {
        Some(CheckTime { hour: now.hour, minute: CHECK_MINUTE })
    }
}

/// The time from `now`, a reading of the local clock, to the next check: what
/// is left to the tenth minute of this hour, or of the next hour where that
/// minute has come. It is above zero and no more than an hour. A reading
/// that is no time of day gives `None`.
pub fn get_duration_to_next_check_time(now: ClockReading) -> (wait: Option<Delay>)
    ensures
        match wait {
            Some(d) => now.is_time_of_day() && d.nanos() == now.nanos_to_next_check()
                && d.nanoseconds < NANOS_PER_SECOND && 0 < d.nanos() <= 3600 * NANOS_PER_SECOND,
            None => !now.is_time_of_day(),
        },
{
    if now.hour >= 24 || now.minute >= 60 || now.second >= 60 || now.nanosecond as u64
        >= NANOS_PER_SECOND {
        return None;
    }
    let target_seconds: u64 = if now.minute >= CHECK_MINUTE {
        (60 + CHECK_MINUTE as u64) * 60
    } else {
        CHECK_MINUTE as u64 * 60
    };
    let elapsed_seconds: u64 = now.minute as u64 * 60 + now.second as u64;
    if now.nanosecond == 0 {
        Some(Delay { seconds: target_seconds - elapsed_seconds, nanoseconds: 0 })
    } else {
        let rest: u64 = NANOS_PER_SECOND - now.nanosecond as u64;
        Some(Delay { seconds: target_seconds - elapsed_seconds - 1, nanoseconds: rest as u32 })
    }
}

/// The wait for the next check is never zero and never more than an hour.
pub proof fn lemma_wait_within_the_hour(now: ClockReading)
    requires
        now.is_time_of_day(),
    ensures
        0 < now.nanos_to_next_check() <= 3600 * NANOS_PER_SECOND,
{
}

/// The next check falls on the tenth minute, in this hour or the next.
pub proof fn lemma_next_check_on_the_tenth_minute(now: ClockReading)
    requires
        now.is_time_of_day(),
    ensures
        now.next_check().minute == CHECK_MINUTE,
        now.next_check().hour < 24,
        now.minute < CHECK_MINUTE ==> now.next_check().hour == now.hour,
        now.minute >= CHECK_MINUTE ==> now.next_check().hour == (now.hour + 1) % 24,
        now.nanos_to_next_check() == (if now.minute < CHECK_MINUTE {
            0int
        } else {
            3600 * NANOS_PER_SECOND
        }) + CHECK_MINUTE * 60 * NANOS_PER_SECOND - now.nanos_into_hour(),
{
}

} // verus!
