//! Dates of the calendar, times of the clock and offsets from UTC as plain
//! numbers, with the rules that say which numbers are one. The rules are
//! those of the `time` crate, which is asked each time. The crate is built
//! with its default features only.

use time::error::ComponentRange;
use vstd::prelude::*;

verus! {

/// The error with which the `time` crate turns a number down.
#[verifier::external_type_specification]
#[verifier::external_body]
pub struct ExComponentRange(ComponentRange);

/// A date of the proleptic Gregorian calendar.
#[derive(Clone, Copy, Debug, PartialEq, Eq, Structural)]
pub struct CalendarDate {
    pub year: i32,
    pub month: u8,
    pub day: u8,
}

/// A time of the 24-hour clock, to the second.
#[derive(Clone, Copy, Debug, PartialEq, Eq, Structural)]
pub struct TimeOfDay {
    pub hour: u8,
    pub minute: u8,
    pub second: u8,
}

/// A fixed offset from UTC. East of Greenwich is positive.
#[derive(Clone, Copy, Debug, PartialEq, Eq, Structural)]
pub struct Offset {
    pub hours: i8,
    pub minutes: i8,
    pub seconds: i8,
}

/// A date and a time of day, in no particular time zone.
#[derive(Clone, Copy, Debug, PartialEq, Eq, Structural)]
pub struct DateTime {
    pub date: CalendarDate,
    pub time: TimeOfDay,
}

/// A date and a time of day at a fixed offset from UTC.
#[derive(Clone, Copy, Debug, PartialEq, Eq, Structural)]
pub struct ZonedDateTime {
    pub date: CalendarDate,
    pub time: TimeOfDay,
    pub offset: Offset,
}

/// Whether `year` is a leap year.
pub open spec fn is_leap_year(year: int) -> bool {
    year % 4 == 0 && (year % 100 != 0 || year % 400 == 0)
}

/// The number of days of the month `month` in `year`.
pub open spec fn days_in_month(year: int, month: int) -> int
    recommends
        is_month(month),
{
    if month == 2 {
        if is_leap_year(year) {
            29
        } else {
            28
        }
    } else if month == 4 || month == 6 || month == 9 || month == 11 {
        30
    } else {
        31
    }
}

/// Whether `month` is the number of a month.
pub open spec fn is_month(month: int) -> bool {
    1 <= month <= 12
}

/// Whether `year` is one that a date can lie in. These are the bounds of
/// the `time` crate built without its feature `large-dates`.
pub open spec fn is_year(year: int) -> bool {
    -9999 <= year <= 9999
}

/// Whether the three numbers are a date of the calendar.
pub open spec fn is_calendar_date(year: int, month: int, day: int) -> bool {
    is_year(year) && is_month(month) && 1 <= day <= days_in_month(year, month)
}

/// Whether the three numbers are a time of the clock.
pub open spec fn is_time_of_day(hour: int, minute: int, second: int) -> bool {
    0 <= hour < 24 && 0 <= minute < 60 && 0 <= second < 60
}

/// Whether no two of the three numbers have opposite signs.
pub open spec fn signs_agree(hours: int, minutes: int, seconds: int) -> bool {
    &&& !(hours > 0 && minutes < 0) && !(hours < 0 && minutes > 0)
    &&& !(hours > 0 && seconds < 0) && !(hours < 0 && seconds > 0)
    &&& !(minutes > 0 && seconds < 0) && !(minutes < 0 && seconds > 0)
}

/// Whether each of the three numbers is within what an offset takes.
pub open spec fn is_offset_range(hours: int, minutes: int, seconds: int) -> bool {
    -25 <= hours <= 25 && -59 <= minutes <= 59 && -59 <= seconds <= 59
}

impl CalendarDate {
    /// Whether the date is one of the calendar.
    pub open spec fn is_valid(self) -> bool {
        is_calendar_date(self.year as int, self.month as int, self.day as int)
    }
}

impl TimeOfDay {
    /// Whether the time is one of the clock.
    pub open spec fn is_valid(self) -> bool {
        is_time_of_day(self.hour as int, self.minute as int, self.second as int)
    }

    /// The start of a day.
    pub open spec fn midnight() -> TimeOfDay {
        TimeOfDay { hour: 0, minute: 0, second: 0 }
    }
}

impl Offset {
    /// No offset: UTC itself.
    pub open spec fn utc() -> Offset {
        Offset { hours: 0, minutes: 0, seconds: 0 }
    }

    /// Whether the three numbers are an offset: each within its range, and
    /// no two of opposite signs.
    pub open spec fn is_valid(self) -> bool {
        &&& is_offset_range(self.hours as int, self.minutes as int, self.seconds as int)
        &&& signs_agree(self.hours as int, self.minutes as int, self.seconds as int)
    }
}

/// `time::Month::try_from` on a byte, with the month it gives handed back as
/// its number. The crate accepts the numbers from 1 to 12 and no others, and
/// the month it makes of a number has that number.
#[verifier::external_body]
pub(crate) fn month_from_number(number: u8) -> (month: Result<u8, ComponentRange>)
    ensures
        month.is_ok() <==> is_month(number as int),
        month matches Ok(found) ==> found == number,
{
    match time::Month::try_from(number) {
        Ok(month) => Ok(u8::from(month)),
        Err(error) => Err(error),
    }
}

/// `time::Date::from_calendar_date`, with the date it gives handed back as
/// its year, month and day. The number of the month, which is one of the
/// twelve, goes in as the crate's month of that number. The crate accepts a
/// year from -9999 to 9999 and a day from 1 to the length of the month in
/// that year, and the date it makes has the three numbers it was made from.
/// The bounds on the year are those of the crate as it is built here,
/// without its feature `large-dates`, which would widen them.
#[verifier::external_body]
pub(crate) fn date_from_calendar(year: i32, month: u8, day: u8) -> (date: Result<
    CalendarDate,
    ComponentRange,
>)
    requires
        is_month(month as int),
    ensures
        date.is_ok() <==> is_calendar_date(year as int, month as int, day as int),
        date matches Ok(found) ==> found == (CalendarDate { year, month, day }),
{
    match time::Date::from_calendar_date(year, time::Month::try_from(month)?, day) {
        Ok(date) => {
            let (year, month, day) = date.to_calendar_date();
            Ok(CalendarDate { year, month: u8::from(month), day })
        },
        Err(error) => Err(error),
    }
}

/// `time::Time::from_hms`, with the time it gives handed back as its hour,
/// minute and second. The crate accepts an hour below 24 and a minute and a
/// second below 60, and the time it makes has the three numbers it was made
/// from.
#[verifier::external_body]
pub(crate) fn time_from_hms(hour: u8, minute: u8, second: u8) -> (time: Result<
    TimeOfDay,
    ComponentRange,
>)
    ensures
        time.is_ok() <==> is_time_of_day(hour as int, minute as int, second as int),
        time matches Ok(found) ==> found == (TimeOfDay { hour, minute, second }),
{
    match time::Time::from_hms(hour, minute, second) {
        Ok(time) => {
            let (hour, minute, second) = time.as_hms();
            Ok(TimeOfDay { hour, minute, second })
        },
        Err(error) => Err(error),
    }
}

/// `time::UtcOffset::from_hms`, with the offset it gives handed back as its
/// hours, minutes and seconds. The crate accepts hours from -25 to 25 and
/// minutes and seconds from -59 to 59. Where no two of the numbers have
/// opposite signs, which is asked here, the offset it makes has the three
/// numbers it was made from.
#[verifier::external_body]
pub(crate) fn offset_from_hms(hours: i8, minutes: i8, seconds: i8) -> (offset: Result<
    Offset,
    ComponentRange,
>)
    requires
        signs_agree(hours as int, minutes as int, seconds as int),
    ensures
        offset.is_ok() <==> is_offset_range(hours as int, minutes as int, seconds as int),
        offset matches Ok(found) ==> found == (Offset { hours, minutes, seconds }),
{
    match time::UtcOffset::from_hms(hours, minutes, seconds) {
        Ok(offset) => {
            let (hours, minutes, seconds) = offset.as_hms();
            Ok(Offset { hours, minutes, seconds })
        },
        Err(error) => Err(error),
    }
}

} // verus!
