use std::time::Duration;

use bybit_hedger::clock::{epoch_millis, millis_from_parts, read_system_clock, EpochTime};
use bybit_hedger::utils::get_unix_epoch_millis;

#[test]
fn milliseconds_are_whole_and_cut_off() {
    assert_eq!(millis_from_parts(1_700_000_000, 123_999_999), 1_700_000_000_123);
    assert_eq!(millis_from_parts(1_700_000_000, 999_999), 1_700_000_000_000);
    assert_eq!(millis_from_parts(1, 234_567_890), 1234);
    assert_eq!(millis_from_parts(0, 0), 0);
    assert_eq!(millis_from_parts(0, 999_999_999), 999);
}

#[test]
fn milliseconds_of_the_longest_time_fit() {
    assert_eq!(millis_from_parts(u64::MAX, 999_999_999), 18_446_744_073_709_551_615_999);
    assert_eq!(millis_from_parts(u64::MAX, u32::MAX), 18_446_744_073_709_551_615_000 + 4294);
}

#[test]
fn milliseconds_are_those_of_a_duration() {
    for (seconds, nanos) in
        [(0u64, 0u32), (1, 1), (59, 999_999_999), (1_700_000_000, 123_999_999), (u64::MAX, 5_000_000)]
    {
        assert_eq!(millis_from_parts(seconds, nanos), Duration::new(seconds, nanos).as_millis());
    }
}

#[test]
fn a_reading_gives_its_milliseconds_and_none_gives_none() {
    let reading = EpochTime { seconds: 1_700_000_000, subsec_nanos: 123_999_999 };
    assert_eq!(epoch_millis(Some(reading)), Some(1_700_000_000_123));
    assert_eq!(epoch_millis(None), None);
}

#[test]
fn the_system_clock_is_read_in_seconds_and_nanoseconds() {
    let first = read_system_clock().unwrap();
    let millis = get_unix_epoch_millis().unwrap();
    let second = read_system_clock().unwrap();
    assert!(first.subsec_nanos < 1_000_000_000);
    // 2020-01-01 in seconds
    assert!(first.seconds > 1_577_836_800);
    assert!(millis_from_parts(first.seconds, first.subsec_nanos) <= millis);
    assert!(millis <= millis_from_parts(second.seconds, second.subsec_nanos));
}
