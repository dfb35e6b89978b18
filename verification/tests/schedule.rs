use chrono::Timelike;

use bybit_hedger::schedule::{
    get_duration_to_next_check_time, next_check_time, CheckTime, ClockReading, Delay,
};

fn at(hour: u32, minute: u32, second: u32, nanosecond: u32) -> ClockReading {
    ClockReading { hour, minute, second, nanosecond }
}

#[test]
fn before_the_tenth_minute_the_check_is_in_this_hour() {
    assert_eq!(next_check_time(at(14, 5, 0, 0)), Some(CheckTime { hour: 14, minute: 10 }));
    assert_eq!(
        get_duration_to_next_check_time(at(14, 5, 0, 0)),
        Some(Delay { seconds: 300, nanoseconds: 0 })
    );
}

#[test]
fn from_the_tenth_minute_on_the_check_is_in_the_next_hour() {
    assert_eq!(next_check_time(at(14, 15, 0, 0)), Some(CheckTime { hour: 15, minute: 10 }));
    assert_eq!(
        get_duration_to_next_check_time(at(14, 15, 0, 0)),
        Some(Delay { seconds: 3300, nanoseconds: 0 })
    );
}

#[test]
fn at_the_tenth_minute_the_wait_is_a_whole_hour() {
    assert_eq!(next_check_time(at(9, 10, 0, 0)), Some(CheckTime { hour: 10, minute: 10 }));
    assert_eq!(
        get_duration_to_next_check_time(at(9, 10, 0, 0)),
        Some(Delay { seconds: 3600, nanoseconds: 0 })
    );
}

#[test]
fn just_before_the_tenth_minute_the_wait_is_short() {
    assert_eq!(
        get_duration_to_next_check_time(at(9, 9, 59, 999_999_999)),
        Some(Delay { seconds: 0, nanoseconds: 1 })
    );
    assert_eq!(next_check_time(at(9, 9, 59, 999_999_999)), Some(CheckTime { hour: 9, minute: 10 }));
}

#[test]
fn the_wait_counts_seconds_and_nanoseconds() {
    assert_eq!(
        get_duration_to_next_check_time(at(0, 0, 0, 0)),
        Some(Delay { seconds: 600, nanoseconds: 0 })
    );
    assert_eq!(
        get_duration_to_next_check_time(at(3, 59, 59, 500_000_000)),
        Some(Delay { seconds: 600, nanoseconds: 500_000_000 })
    );
    assert_eq!(
        get_duration_to_next_check_time(at(3, 10, 0, 1)),
        Some(Delay { seconds: 3599, nanoseconds: 999_999_999 })
    );
    assert_eq!(
        get_duration_to_next_check_time(at(3, 7, 30, 250_000_000)),
        Some(Delay { seconds: 149, nanoseconds: 750_000_000 })
    );
}

#[test]
fn the_last_hour_of_the_day_leads_to_the_first() {
    assert_eq!(next_check_time(at(23, 30, 0, 0)), Some(CheckTime { hour: 0, minute: 10 }));
    assert_eq!(next_check_time(at(23, 9, 0, 0)), Some(CheckTime { hour: 23, minute: 10 }));
}

#[test]
fn what_is_no_time_of_day_has_no_next_check() {
    assert_eq!(next_check_time(at(24, 0, 0, 0)), None);
    assert_eq!(get_duration_to_next_check_time(at(0, 60, 0, 0)), None);
    assert_eq!(get_duration_to_next_check_time(at(0, 0, 60, 0)), None);
    assert_eq!(get_duration_to_next_check_time(at(0, 0, 59, 1_000_000_000)), None);
    assert_eq!(get_duration_to_next_check_time(at(0, 0, 59, 1_999_999_999)), None);
}

fn local_reading(now: &chrono::DateTime<chrono::Local>) -> ClockReading {
    at(now.hour(), now.minute(), now.second(), now.nanosecond())
}

#[test]
fn the_wait_from_now_is_within_the_hour() {
    let wait = get_duration_to_next_check_time(local_reading(&chrono::Local::now())).unwrap();
    assert!(wait.nanoseconds < 1_000_000_000);
    assert!(wait.seconds < 3600 || (wait.seconds == 3600 && wait.nanoseconds == 0));
    assert!(wait.seconds > 0 || wait.nanoseconds > 0);
}

#[test]
fn the_wait_from_now_ends_on_the_tenth_minute() {
    let now = chrono::Local::now();
    let wait = get_duration_to_next_check_time(local_reading(&now)).unwrap();
    let target = now
        + chrono::Duration::seconds(wait.seconds as i64)
        + chrono::Duration::nanoseconds(wait.nanoseconds as i64);
    assert_eq!((target.minute(), target.second(), target.nanosecond()), (10, 0, 0));
    let check = next_check_time(local_reading(&now)).unwrap();
    assert_eq!((target.hour(), target.minute()), (check.hour, check.minute));
}
