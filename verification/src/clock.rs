//! Instants of the wall clock, read in a fixed offset from UTC.

use vstd::prelude::*;

verus! {

/// The fixed offset from UTC, in seconds east, in which instants are read.
/// It follows no daylight saving time.
pub const UTC_OFFSET_SECONDS: i32 = 7200;

/// Nanoseconds in a second.
pub const NANOS_PER_SECOND: u64 = 1_000_000_000;

/// A day of the week.
#[derive(Clone, Copy, Debug, PartialEq, Eq, Structural)]
pub enum Weekday {
    Mon,
    Tue,
    Wed,
    Thu,
    Fri,
    Sat,
    Sun,
}

/// A date and time of chrono without a time zone. Its parts are read
/// through the functions below.
#[verifier::external_type_specification]
#[verifier::external_body]
pub struct ExNaiveDateTime(chrono::NaiveDateTime);

/// The day of the week that `chrono::Datelike::weekday` gives for the date
/// and time.
pub uninterp spec fn shown_weekday(local: chrono::NaiveDateTime) -> Weekday;

/// The hour that `chrono::Timelike::hour` gives for the date and time.
pub uninterp spec fn shown_hour(local: chrono::NaiveDateTime) -> u32;

/// The minute that `chrono::Timelike::minute` gives for the date and time.
pub uninterp spec fn shown_minute(local: chrono::NaiveDateTime) -> u32;

/// The second that `chrono::Timelike::second` gives for the date and time.
pub uninterp spec fn shown_second(local: chrono::NaiveDateTime) -> u32;

/// The nanosecond that `chrono::Timelike::nanosecond` gives for the date
/// and time.
pub uninterp spec fn shown_nanosecond(local: chrono::NaiveDateTime) -> u32;

/// `chrono::Datelike::weekday` of a `NaiveDateTime`: the day of the week of
/// its date, which depends on the date alone. Nothing more is claimed of
/// which day it is.
#[verifier::external_body]
fn weekday_of(local: &chrono::NaiveDateTime) -> (weekday: Weekday)
    ensures
        weekday == shown_weekday(*local),
{
    match chrono::Datelike::weekday(local) {
        chrono::Weekday::Mon => Weekday::Mon,
        chrono::Weekday::Tue => Weekday::Tue,
        chrono::Weekday::Wed => Weekday::Wed,
        chrono::Weekday::Thu => Weekday::Thu,
        chrono::Weekday::Fri => Weekday::Fri,
        chrono::Weekday::Sat => Weekday::Sat,
        chrono::Weekday::Sun => Weekday::Sun,
    }
}

/// `chrono::Timelike::hour` of a `NaiveDateTime`: the hour of its time,
/// which depends on the time alone and which chrono documents as a number
/// from 0 to 23.
#[verifier::external_body]
fn hour_of(local: &chrono::NaiveDateTime) -> (hour: u32)
    ensures
        hour == shown_hour(*local),
        hour < 24,
{
    chrono::Timelike::hour(local)
}

/// `chrono::Timelike::minute` of a `NaiveDateTime`: the minute of its time,
/// which depends on the time alone and which chrono documents as a number
/// from 0 to 59.
#[verifier::external_body]
fn minute_of(local: &chrono::NaiveDateTime) -> (minute: u32)
    ensures
        minute == shown_minute(*local),
        minute < 60,
{
    chrono::Timelike::minute(local)
}

/// `chrono::Timelike::second` of a `NaiveDateTime`: the second of its time,
/// which depends on the time alone and which chrono documents as a number
/// from 0 to 59.
#[verifier::external_body]
fn second_of(local: &chrono::NaiveDateTime) -> (second: u32)
    ensures
        second == shown_second(*local),
        second < 60,
{
    chrono::Timelike::second(local)
}

/// `chrono::Timelike::nanosecond` of a `NaiveDateTime`: the nanoseconds
/// since the whole second, which depend on the time alone. chrono documents
/// the values from 1,000,000,000 to 1,999,999,999 as those of a leap
/// second, and none above them.
#[verifier::external_body]
fn nanosecond_of(local: &chrono::NaiveDateTime) -> (nanosecond: u32)
    ensures
        nanosecond == shown_nanosecond(*local),
        nanosecond < 2_000_000_000,
{
    chrono::Timelike::nanosecond(local)
}

/// An instant as a wall clock in the fixed offset shows it.
///
/// Every value has `hour < 24`, `minute < 60`, `second < 60` and
/// `nanosecond < 2_000_000_000`; a nanosecond of 1,000,000,000 or more
/// stands for a leap second, which makes its minute one second longer.
#[derive(Clone, Copy, Debug, PartialEq, Eq)]
pub struct LocalInstant {
    weekday: Weekday,
    hour: u32,
    minute: u32,
    second: u32,
    nanosecond: u32,
}

/// Whether the parts name an instant of the wall clock.
pub open spec fn is_instant(hour: int, minute: int, second: int, nanosecond: int) -> bool {
    &&& 0 <= hour < 24
    &&& 0 <= minute < 60
    &&& 0 <= second < 60
    &&& 0 <= nanosecond < 2_000_000_000
}

/// The nanoseconds from `second` and `nanosecond` past the minute to the
/// start of the next minute.
pub open spec fn nanos_to_next_minute(second: int, nanosecond: int) -> int {
    let minute_length: int = if nanosecond < 1_000_000_000 {
        60_000_000_000
    } else {
        61_000_000_000
    };
    minute_length - (second * 1_000_000_000 + nanosecond)
}

impl LocalInstant {
    #[verifier::type_invariant]
    pub closed spec fn wf(self) -> bool {
        is_instant(
            self.hour as int,
            self.minute as int,
            self.second as int,
            self.nanosecond as int,
        )
    }

    pub closed spec fn spec_weekday(self) -> Weekday {
        self.weekday
    }

    pub closed spec fn spec_hour(self) -> u32 {
        self.hour
    }

    pub closed spec fn spec_minute(self) -> u32 {
        self.minute
    }

    pub closed spec fn spec_second(self) -> u32 {
        self.second
    }

    pub closed spec fn spec_nanosecond(self) -> u32 {
        self.nanosecond
    }

    /// The instant with the given parts, where they name one.
    pub fn new(weekday: Weekday, hour: u32, minute: u32, second: u32, nanosecond: u32) -> (instant:
        Option<LocalInstant>)
        ensures
            instant is Some <==> is_instant(
                hour as int,
                minute as int,
                second as int,
                nanosecond as int,
            ),
            instant matches Some(i) ==> {
                &&& i.spec_weekday() == weekday
                &&& i.spec_hour() == hour
                &&& i.spec_minute() == minute
                &&& i.spec_second() == second
                &&& i.spec_nanosecond() == nanosecond
            },
    {
        if hour < 24 && minute < 60 && second < 60 && nanosecond < 2_000_000_000 {
            Some(LocalInstant { weekday, hour, minute, second, nanosecond })
        } else {
            None
        }
    }

    /// The instant that a date and time of chrono shows. The caller hands in
    /// the local date and time, that is the one in the fixed offset.
    ///
    /// The parts of the result are those that chrono gives for the date and
    /// time, and whatever they are, they name an instant of the wall clock.
    pub fn read(local: &chrono::NaiveDateTime) -> (instant: LocalInstant)
        ensures
            instant.spec_weekday() == shown_weekday(*local),
            instant.spec_hour() == shown_hour(*local),
            instant.spec_minute() == shown_minute(*local),
            instant.spec_second() == shown_second(*local),
            instant.spec_nanosecond() == shown_nanosecond(*local),
            is_instant(
                instant.spec_hour() as int,
                instant.spec_minute() as int,
                instant.spec_second() as int,
                instant.spec_nanosecond() as int,
            ),
    {
        LocalInstant {
            weekday: weekday_of(local),
            hour: hour_of(local),
            minute: minute_of(local),
            second: second_of(local),
            nanosecond: nanosecond_of(local),
        }
    }

    pub fn weekday(&self) -> (weekday: Weekday)
        ensures
            weekday == self.spec_weekday(),
    {
        self.weekday
    }

    pub fn hour(&self) -> (hour: u32)
        ensures
            hour == self.spec_hour(),
            hour < 24,
    {
        proof {
            use_type_invariant(self);
        }
        self.hour
    }

    pub fn minute(&self) -> (minute: u32)
        ensures
            minute == self.spec_minute(),
            minute < 60,
    {
        proof {
            use_type_invariant(self);
        }
        self.minute
    }

    pub fn second(&self) -> (second: u32)
        ensures
            second == self.spec_second(),
            second < 60,
    {
        proof {
            use_type_invariant(self);
        }
        self.second
    }

    pub fn nanosecond(&self) -> (nanosecond: u32)
        ensures
            nanosecond == self.spec_nanosecond(),
            nanosecond < 2_000_000_000,
    {
        proof {
            use_type_invariant(self);
        }
        self.nanosecond
    }

    /// How long to sleep, in nanoseconds, so as to wake at the start of the
    /// next minute. It is never zero and never more than a minute.
    pub fn until_next_minute(&self) -> (nanos: u64)
        ensures
            nanos == nanos_to_next_minute(self.spec_second() as int, self.spec_nanosecond() as int),
            0 < nanos <= 60_000_000_000,
    {
        proof {
            use_type_invariant(self);
        }
        let second: u64 = self.second as u64;
        let nanosecond: u64 = self.nanosecond as u64;
        let elapsed: u64 = second * NANOS_PER_SECOND + nanosecond;
        let minute_length: u64 = if nanosecond < NANOS_PER_SECOND {
            60 * NANOS_PER_SECOND
        } else {
            61 * NANOS_PER_SECOND
        };
        minute_length - elapsed
    }
}

} // verus!
