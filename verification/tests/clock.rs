use moment_dispatch::clock::{LocalInstant, Weekday, NANOS_PER_SECOND, UTC_OFFSET_SECONDS};
use moment_dispatch::daytype::{DayType, Time};

fn local(year: i32, month: u32, day: u32, hour: u32, minute: u32, second: u32) -> chrono::NaiveDateTime {
    chrono::NaiveDate::from_ymd_opt(year, month, day)
        .unwrap()
        .and_hms_opt(hour, minute, second)
        .unwrap()
}

#[test]
fn the_offset_is_two_hours_east() {
    assert_eq!(UTC_OFFSET_SECONDS, 2 * 3600);
    assert_eq!(NANOS_PER_SECOND, 1_000_000_000);
}

#[test]
fn new_takes_what_a_clock_can_show() {
    let instant = LocalInstant::new(Weekday::Wed, 23, 59, 59, 999_999_999).unwrap();
    assert_eq!(instant.weekday(), Weekday::Wed);
    assert_eq!(instant.hour(), 23);
    assert_eq!(instant.minute(), 59);
    assert_eq!(instant.second(), 59);
    assert_eq!(instant.nanosecond(), 999_999_999);
    assert!(LocalInstant::new(Weekday::Mon, 0, 0, 0, 0).is_some());
    assert!(LocalInstant::new(Weekday::Mon, 23, 59, 59, 1_999_999_999).is_some());
}

#[test]
fn new_refuses_what_a_clock_cannot_show() {
    assert!(LocalInstant::new(Weekday::Mon, 24, 0, 0, 0).is_none());
    assert!(LocalInstant::new(Weekday::Mon, 0, 60, 0, 0).is_none());
    assert!(LocalInstant::new(Weekday::Mon, 0, 0, 60, 0).is_none());
    assert!(LocalInstant::new(Weekday::Mon, 0, 0, 0, 2_000_000_000).is_none());
    assert!(LocalInstant::new(Weekday::Mon, u32::MAX, u32::MAX, u32::MAX, u32::MAX).is_none());
}

#[test]
fn read_takes_the_parts_from_chrono() {
    let instant = LocalInstant::read(&local(2022, 9, 16, 16, 15, 42));
    assert_eq!(instant, LocalInstant::new(Weekday::Fri, 16, 15, 42, 0).unwrap());
    let instant = LocalInstant::read(
        &chrono::NaiveDate::from_ymd_opt(2024, 2, 29)
            .unwrap()
            .and_hms_nano_opt(6, 27, 3, 123_456_789)
            .unwrap(),
    );
    assert_eq!(instant, LocalInstant::new(Weekday::Thu, 6, 27, 3, 123_456_789).unwrap());
}

#[test]
fn read_knows_every_day_of_the_week() {
    let week = [
        Weekday::Mon,
        Weekday::Tue,
        Weekday::Wed,
        Weekday::Thu,
        Weekday::Fri,
        Weekday::Sat,
        Weekday::Sun,
    ];
    for (i, weekday) in week.iter().enumerate() {
        let instant = LocalInstant::read(&local(2022, 9, 12 + i as u32, 1, 2, 3));
        assert_eq!(instant.weekday(), *weekday);
        assert_eq!(instant.hour(), 1);
        assert_eq!(instant.minute(), 2);
        assert_eq!(instant.second(), 3);
        assert_eq!(instant.nanosecond(), 0);
    }
}

#[test]
fn read_keeps_a_leap_second_as_chrono_shows_it() {
    let leap = chrono::NaiveDate::from_ymd_opt(2016, 12, 31)
        .unwrap()
        .and_hms_nano_opt(23, 59, 59, 1_500_000_000)
        .unwrap();
    let instant = LocalInstant::read(&leap);
    assert_eq!(instant.second(), 59);
    assert_eq!(instant.nanosecond(), 1_500_000_000);
    assert_eq!(instant.until_next_minute(), 500_000_000);
}

#[test]
fn an_instant_is_read_in_the_fixed_offset() {
    let offset = chrono::FixedOffset::east_opt(UTC_OFFSET_SECONDS).unwrap();
    // Friday 2022-09-16 14:15:00 UTC is 16:15:00 two hours east.
    let utc = chrono::DateTime::from_timestamp(1_663_337_700, 0).unwrap();
    let instant = LocalInstant::read(&utc.with_timezone(&offset).naive_local());
    assert_eq!(instant, LocalInstant::new(Weekday::Fri, 16, 15, 0, 0).unwrap());
    assert_eq!(
        DayType::try_parse_from_date(&instant).unwrap().data,
        DayType::Friday(Time::AfterWork)
    );
    // Sunday 22:30 UTC is Monday 00:30 two hours east.
    let utc = chrono::DateTime::from_timestamp(1_663_540_200, 0).unwrap();
    let instant = LocalInstant::read(&utc.with_timezone(&offset).naive_local());
    assert_eq!(instant, LocalInstant::new(Weekday::Mon, 0, 30, 0, 0).unwrap());
}

#[test]
fn a_whole_minute_is_left_at_its_start() {
    let instant = LocalInstant::new(Weekday::Tue, 10, 0, 0, 0).unwrap();
    assert_eq!(instant.until_next_minute(), 60_000_000_000);
}

#[test]
fn one_nanosecond_is_left_at_its_end() {
    let instant = LocalInstant::new(Weekday::Tue, 10, 0, 59, 999_999_999).unwrap();
    assert_eq!(instant.until_next_minute(), 1);
}

#[test]
fn the_rest_of_the_minute_is_left_in_between() {
    let instant = LocalInstant::new(Weekday::Tue, 10, 0, 30, 500_000_000).unwrap();
    assert_eq!(instant.until_next_minute(), 29_500_000_000);
    let instant = LocalInstant::new(Weekday::Tue, 23, 59, 12, 1).unwrap();
    assert_eq!(instant.until_next_minute(), 47_999_999_999);
}

#[test]
fn a_leap_second_makes_the_minute_longer() {
    let instant = LocalInstant::new(Weekday::Sat, 23, 59, 59, 1_000_000_000).unwrap();
    assert_eq!(instant.until_next_minute(), 1_000_000_000);
    let instant = LocalInstant::new(Weekday::Sat, 23, 59, 59, 1_999_999_999).unwrap();
    assert_eq!(instant.until_next_minute(), 1);
}

#[test]
fn the_sleep_is_never_zero_and_never_over_a_minute() {
    for second in 0..60 {
        for nanosecond in [0, 1, 999_999_999, 1_000_000_000, 1_999_999_999] {
            let instant = LocalInstant::new(Weekday::Thu, 5, 5, second, nanosecond).unwrap();
            let sleep = instant.until_next_minute();
            assert!(0 < sleep && sleep <= 60_000_000_000);
        }
    }
}

#[test]
fn the_sleep_agrees_with_chrono() {
    let now = chrono::NaiveDate::from_ymd_opt(2022, 9, 16)
        .unwrap()
        .and_hms_nano_opt(16, 7, 21, 250_000_000)
        .unwrap();
    let next = local(2022, 9, 16, 16, 8, 0);
    let expected = (next - now).to_std().unwrap();
    let sleep = LocalInstant::read(&now).until_next_minute();
    assert_eq!(std::time::Duration::from_nanos(sleep), expected);
}
