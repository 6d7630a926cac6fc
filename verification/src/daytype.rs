//! Moments: which window of the day an instant falls in, and on which class of day.

use vstd::prelude::*;
use crate::clock::{LocalInstant, Weekday};
use crate::policy::SkipOdds;
use crate::texts;
use vstd::string::StringExecFns;

verus! {

/// Why an instant classifies as nothing.
#[derive(Clone, Copy, Debug, PartialEq, Eq, Structural)]
pub enum DateConversionError {
    /// The instant lies in no window.
    NotSpecialTime,
}

/// A window of the day.
#[derive(Clone, Copy, Debug, PartialEq, Eq, Structural)]
pub enum Time {
    Morning,
    MidDay,
    AfterWork,
    Evening,
}

/// A moment: a window of the day on a class of day. Friday, Saturday and
/// Sunday are classes of their own; every other day is a work day.
#[derive(Clone, Copy, Debug, PartialEq, Eq, Structural)]
pub enum DayType {
    WorkDay(Time),
    Friday(Time),
    Saturday(Time),
    Sunday(Time),
}

/// What a classification carries beside the moment itself.
#[derive(Debug, PartialEq, Eq)]
pub struct DateConversionReturn<T> {
    pub data: T,
    /// The chance that a delivery is dropped at random.
    pub odds_to_skip: SkipOdds,
    /// Whether this is the last minute of the window.
    pub last_possible: bool,
}

/// The minute of the day that begins at `hour:minute`.
pub open spec fn minute_of_day(hour: int, minute: int) -> int {
    hour * 60 + minute
}

/// Whether `hour:minute` names a minute of the day.
pub open spec fn is_clock_time(hour: int, minute: int) -> bool {
    0 <= hour < 24 && 0 <= minute < 60
}

impl Time {
    /// The first minute of the window, as hour and minute.
    pub open spec fn opens(self) -> (int, int) {
        match self {
            Time::Morning => (6, 27),
            Time::MidDay => (11, 0),
            Time::AfterWork => (16, 0),
            Time::Evening => (22, 0),
        }
    }

    /// The last minute of the window, as hour and minute.
    pub open spec fn closes(self) -> (int, int) {
        match self {
            Time::Morning => (6, 33),
            Time::MidDay => (14, 59),
            Time::AfterWork => (16, 15),
            Time::Evening => (23, 59),
        }
    }

    /// Whether the window holds the minute `hour:minute`.
    pub open spec fn contains(self, hour: int, minute: int) -> bool {
        &&& is_clock_time(hour, minute)
        &&& minute_of_day(self.opens().0, self.opens().1) <= minute_of_day(hour, minute)
        &&& minute_of_day(hour, minute) <= minute_of_day(self.closes().0, self.closes().1)
    }

    /// The odds that a delivery in this window is dropped at random.
    pub open spec fn skip_odds(self) -> SkipOdds {
        match self {
            Time::Morning => SkipOdds::ratio(2, 3),
            Time::MidDay => SkipOdds::ratio(5, 6),
            Time::AfterWork => SkipOdds::ratio(20, 23),
            Time::Evening => SkipOdds::ratio(5, 6),
        }
    }

    /// The window that holds `hour:minute`, if one does.
    pub open spec fn at(hour: int, minute: int) -> Option<Time> {
        if Time::Morning.contains(hour, minute) {
            Some(Time::Morning)
        } else if Time::MidDay.contains(hour, minute) {
            Some(Time::MidDay)
        } else if Time::AfterWork.contains(hour, minute) {
            Some(Time::AfterWork)
        } else if Time::Evening.contains(hour, minute) {
            Some(Time::Evening)
        } else {
            None
        }
    }

    /// What `hour:minute` classifies as: its window, that window's odds, and
    /// whether it is the window's last minute.
    pub open spec fn parse(hour: int, minute: int) -> Result<
        DateConversionReturn<Time>,
        DateConversionError,
    > {
        match Time::at(hour, minute) {
            Some(window) => Ok(
                DateConversionReturn {
                    data: window,
                    odds_to_skip: window.skip_odds(),
                    last_possible: (hour, minute) == window.closes(),
                },
            ),
            None => Err(DateConversionError::NotSpecialTime),
        }
    }

    /// The odds that a delivery in this window is dropped at random.
    pub fn odds(self) -> (odds: SkipOdds)
        ensures
            odds == self.skip_odds(),
    {
        match self {
            Time::Morning => SkipOdds::fixed(2, 3),
            Time::MidDay => SkipOdds::fixed(5, 6),
            Time::AfterWork => SkipOdds::fixed(20, 23),
            Time::Evening => SkipOdds::fixed(5, 6),
        }
    }

    /// Classifies a time of day.
    pub fn try_parse_from_time(hour: u32, minute: u32) -> (parsed: Result<
        DateConversionReturn<Time>,
        DateConversionError,
    >)
        ensures
            parsed == Time::parse(hour as int, minute as int),
    {
        let (data, last_possible): (Time, bool) = if hour == 6 && 27 <= minute && minute <= 33 {
            (Time::Morning, minute == 33)
        } else if 11 <= hour && hour <= 14 && minute <= 59 {
            (Time::MidDay, hour == 14 && minute == 59)
        } else if hour == 16 && minute <= 15 {
            (Time::AfterWork, minute == 15)
        } else if 22 <= hour && hour <= 23 && minute <= 59 {
            (Time::Evening, hour == 23 && minute == 59)
        } else {
            return Err(DateConversionError::NotSpecialTime);
        };
        Ok(DateConversionReturn { data, odds_to_skip: data.odds(), last_possible })
    }
}

impl<T> DateConversionReturn<T> {
    /// Puts `data` in the place of the window that `time` was found for, and
    /// keeps the odds and the last-minute mark of `time`.
    pub fn from_time(data: T, time: DateConversionReturn<Time>) -> (found: Self)
        ensures
            found == (DateConversionReturn {
                data,
                odds_to_skip: time.odds_to_skip,
                last_possible: time.last_possible,
            }),
    {
        Self { data, odds_to_skip: time.odds_to_skip, last_possible: time.last_possible }
    }
}

impl DayType {
    /// The moment of the window `time` on a day `weekday`.
    pub open spec fn on(weekday: Weekday, time: Time) -> DayType {
        match weekday {
            Weekday::Fri => DayType::Friday(time),
            Weekday::Sat => DayType::Saturday(time),
            Weekday::Sun => DayType::Sunday(time),
            _ => DayType::WorkDay(time),
        }
    }

    /// The window of the moment.
    pub open spec fn window(self) -> Time {
        match self {
            DayType::WorkDay(time) => time,
            DayType::Friday(time) => time,
            DayType::Saturday(time) => time,
            DayType::Sunday(time) => time,
        }
    }

    /// The text that is sent for the moment.
    pub open spec fn display_text(self) -> Seq<char> {
        match self {
            DayType::WorkDay(Time::Morning) => texts::WORKDAY_MORNING@,
            DayType::WorkDay(Time::MidDay) => texts::WORKDAY_MIDDAY@,
            DayType::WorkDay(Time::AfterWork) => texts::WORKDAY_AFTER_WORK@,
            DayType::WorkDay(Time::Evening) => texts::WORKDAY_EVENING@,
            DayType::Friday(Time::Morning) => texts::FRIDAY_MORNING@,
            DayType::Friday(Time::MidDay) => texts::FRIDAY_MIDDAY@,
            DayType::Friday(Time::AfterWork) => texts::FRIDAY_AFTER_WORK@,
            DayType::Friday(Time::Evening) => texts::FRIDAY_EVENING@,
            DayType::Saturday(Time::Morning) => texts::SATURDAY_MORNING@,
            DayType::Saturday(Time::MidDay) | DayType::Sunday(Time::Morning) => texts::ASLEEP@,
            DayType::Saturday(Time::AfterWork) => texts::SATURDAY_AFTER_WORK@,
            DayType::Saturday(Time::Evening) => texts::SATURDAY_EVENING@,
            DayType::Sunday(Time::MidDay) => texts::SUNDAY_MIDDAY@,
            DayType::Sunday(Time::AfterWork) => texts::SUNDAY_AFTER_WORK@,
            DayType::Sunday(Time::Evening) => texts::SUNDAY_EVENING@,
        }
    }

    /// The text that is sent for the moment.
    pub fn to_text(&self) -> (text: String)
        ensures
            text@ == self.display_text(),
    {
        let text: &'static str = match self {
            DayType::WorkDay(Time::Morning) => texts::WORKDAY_MORNING,
            DayType::WorkDay(Time::MidDay) => texts::WORKDAY_MIDDAY,
            DayType::WorkDay(Time::AfterWork) => texts::WORKDAY_AFTER_WORK,
            DayType::WorkDay(Time::Evening) => texts::WORKDAY_EVENING,
            DayType::Friday(Time::Morning) => texts::FRIDAY_MORNING,
            DayType::Friday(Time::MidDay) => texts::FRIDAY_MIDDAY,
            DayType::Friday(Time::AfterWork) => texts::FRIDAY_AFTER_WORK,
            DayType::Friday(Time::Evening) => texts::FRIDAY_EVENING,
            DayType::Saturday(Time::Morning) => texts::SATURDAY_MORNING,
            DayType::Saturday(Time::MidDay) | DayType::Sunday(Time::Morning) => texts::ASLEEP,
            DayType::Saturday(Time::AfterWork) => texts::SATURDAY_AFTER_WORK,
            DayType::Saturday(Time::Evening) => texts::SATURDAY_EVENING,
            DayType::Sunday(Time::MidDay) => texts::SUNDAY_MIDDAY,
            DayType::Sunday(Time::AfterWork) => texts::SUNDAY_AFTER_WORK,
            DayType::Sunday(Time::Evening) => texts::SUNDAY_EVENING,
        };
        String::from_str(text)
    }

    /// What the minute `hour:minute` of a day `weekday` classifies as.
    pub open spec fn parse(weekday: Weekday, hour: int, minute: int) -> Result<
        DateConversionReturn<DayType>,
        DateConversionError,
    > {
        match Time::parse(hour, minute) {
            Ok(time) => Ok(
                DateConversionReturn {
                    data: DayType::on(weekday, time.data),
                    odds_to_skip: time.odds_to_skip,
                    last_possible: time.last_possible,
                },
            ),
            Err(e) => Err(e),
        }
    }

    /// Classifies an instant: its window of the day, if it lies in one, on
    /// the class of its day.
    pub fn try_parse_from_date(date: &LocalInstant) -> (parsed: Result<
        DateConversionReturn<DayType>,
        DateConversionError,
    >)
        ensures
            parsed == DayType::parse(
                date.spec_weekday(),
                date.spec_hour() as int,
                date.spec_minute() as int,
            ),
    {
        let time = match Time::try_parse_from_time(date.hour(), date.minute()) {
            Ok(time) => time,
            Err(e) => {
                return Err(e);
            },
        };
        match date.weekday() {
            Weekday::Fri => Ok(DateConversionReturn::from_time(DayType::Friday(time.data), time)),
            Weekday::Sat => Ok(DateConversionReturn::from_time(DayType::Saturday(time.data), time)),
            Weekday::Sun => Ok(DateConversionReturn::from_time(DayType::Sunday(time.data), time)),
            _ => Ok(DateConversionReturn::from_time(DayType::WorkDay(time.data), time)),
        }
    }
}

/// The odds of each window are a probability: two in three in the
/// morning, five in six at midday and in the evening, twenty in twenty-three
/// after work.
pub proof fn lemma_odds_are_probabilities(window: Time)
    ensures
        window.skip_odds().wf(),
        (window.skip_odds().spec_numerator(), window.skip_odds().spec_denominator()) == (
            match window {
                Time::Morning => (2u32, 3u32),
                Time::MidDay => (5u32, 6u32),
                Time::AfterWork => (20u32, 23u32),
                Time::Evening => (5u32, 6u32),
            }
        ),
{
    broadcast use SkipOdds::lemma_ratio_parts;

}

/// No two windows share a minute.
pub proof fn lemma_windows_are_disjoint(first: Time, second: Time, hour: int, minute: int)
    requires
        first.contains(hour, minute),
        second.contains(hour, minute),
    ensures
        first == second,
{
}

/// Every window holds its last minute, and no minute of the window comes
/// after it.
pub proof fn lemma_window_closes_inside(window: Time, hour: int, minute: int)
    ensures
        window.contains(window.closes().0, window.closes().1),
        window.contains(hour, minute) ==> minute_of_day(hour, minute) <= minute_of_day(
            window.closes().0,
            window.closes().1,
        ),
{
}

/// An instant that lies in no window classifies as nothing, whatever the
/// day; and only such an instant does.
pub proof fn lemma_outside_windows_is_nothing(weekday: Weekday, hour: int, minute: int)
    ensures
        (forall|window: Time| !window.contains(hour, minute)) <==> DayType::parse(
            weekday,
            hour,
            minute,
        ) is Err,
        DayType::parse(weekday, hour, minute) is Err ==> DayType::parse(weekday, hour, minute)
            == Err::<DateConversionReturn<DayType>, DateConversionError>(
            DateConversionError::NotSpecialTime,
        ),
{
    if DayType::parse(weekday, hour, minute) is Err {
        assert forall|window: Time| !window.contains(hour, minute) by {
            if window.contains(hour, minute) {
                assert(Time::at(hour, minute) is Some);
            }
        }
    } else {
        let window = Time::at(hour, minute).unwrap();
        assert(window.contains(hour, minute));
    }
}

/// An instant in a window classifies as that window on the class of its
/// day: Friday, Saturday and Sunday each as itself, every other day as a
/// work day. It carries the odds of the window.
pub proof fn lemma_inside_window_is_its_moment(
    weekday: Weekday,
    window: Time,
    hour: int,
    minute: int,
)
    requires
        window.contains(hour, minute),
    ensures
        DayType::parse(weekday, hour, minute) matches Ok(found) && {
            &&& found.data == match weekday {
                Weekday::Fri => DayType::Friday(window),
                Weekday::Sat => DayType::Saturday(window),
                Weekday::Sun => DayType::Sunday(window),
                Weekday::Mon | Weekday::Tue | Weekday::Wed | Weekday::Thu => DayType::WorkDay(
                    window,
                ),
            }
            &&& found.data.window() == window
            &&& found.odds_to_skip == window.skip_odds()
        },
{
    lemma_windows_are_disjoint(Time::at(hour, minute).unwrap(), window, hour, minute);
}

/// Of the minutes of a window exactly one is marked as the last: the
/// minute at which the window closes.
pub proof fn lemma_one_last_instant(weekday: Weekday, window: Time, hour: int, minute: int)
    requires
        window.contains(hour, minute),
    ensures
        DayType::parse(weekday, hour, minute) matches Ok(found) && (found.last_possible <==> (
            hour,
            minute,
        ) == window.closes()),
        DayType::parse(weekday, window.closes().0, window.closes().1) matches Ok(found)
            && found.last_possible && found.data.window() == window,
{
    lemma_windows_are_disjoint(Time::at(hour, minute).unwrap(), window, hour, minute);
    lemma_window_closes_inside(window, hour, minute);
    lemma_windows_are_disjoint(
        Time::at(window.closes().0, window.closes().1).unwrap(),
        window,
        window.closes().0,
        window.closes().1,
    );
}

} // verus!
