//! The two responses as values, and the moments they speak of: each record
//! that carries a date or a time resolves it, checked against the calendar
//! and the clock.

use crate::calendar::{
    date_from_calendar, is_calendar_date, is_month, is_offset_range, month_from_number,
    offset_from_hms, signs_agree, time_from_hms, CalendarDate, DateTime, Offset, TimeOfDay,
    ZonedDateTime,
};
use crate::clock::ClockTime;
use crate::phase::{MoonPhase, Phenomenon};
use crate::query::{date_text, format_date};
use crate::text::{decimal, padded_decimal, push_decimal, push_padded_decimal};
use vstd::prelude::*;

verus! {

/// Why a record names no moment.
#[derive(Clone, Copy, Debug, PartialEq, Eq, Structural)]
pub enum WhenError {
    /// The month is not one of the twelve.
    InvalidMonth { month: u8 },
    /// The year lies outside the calendar, or the month has no such day in
    /// that year.
    InvalidDate { year: u16, month: u8, day: u8 },
    /// The hour or the minute is not one of the clock.
    InvalidTime { hour: u8, minute: u8 },
}

impl WhenError {
    /// The message of the error, with the numbers that were turned down.
    pub open spec fn message_text(self) -> Seq<char> {
        match self {
            WhenError::InvalidMonth { month } => "invalid month in date: "@ + decimal(
                month as nat,
            ),
            WhenError::InvalidDate { year, month, day } => "invalid date: "@ + date_text(
                year,
                month,
                day,
            ),
            WhenError::InvalidTime { hour, minute } => "invalid time: "@ + padded_decimal(
                hour as nat,
                2,
            ) + seq![':'] + padded_decimal(minute as nat, 2),
        }
    }

    /// A description of the error for a reader.
    pub fn message(&self) -> (message: String)
        ensures
            message@ == self.message_text(),
    {
        match self {
            WhenError::InvalidMonth { month } => {
                let mut message = String::from_str("invalid month in date: ");
                push_decimal(&mut message, *month as u128);
                message
            },
            WhenError::InvalidDate { year, month, day } => {
                let mut message = String::from_str("invalid date: ");
                let date = format_date(*year, *month, *day);
                message.append(date.as_str());
                message
            },
            WhenError::InvalidTime { hour, minute } => {
                proof {
                    reveal_strlit(":");
                }
                let mut message = String::from_str("invalid time: ");
                push_padded_decimal(&mut message, *hour as u128, 2);
                message.append(":");
                push_padded_decimal(&mut message, *minute as u128, 2);
                message
            },
        }
    }
}

/// The date that the three numbers of a record name. The month is asked
/// first, then the day within that month and year.
pub open spec fn date_of(year: u16, month: u8, day: u8) -> Result<CalendarDate, WhenError> {
    if !is_month(month as int) {
        Err(WhenError::InvalidMonth { month })
    } else if !is_calendar_date(year as int, month as int, day as int) {
        Err(WhenError::InvalidDate { year, month, day })
    } else {
        Ok(CalendarDate { year: year as i32, month, day })
    }
}

/// The time of the clock that a decoded time names, on the minute.
pub open spec fn time_of(time: ClockTime) -> Result<TimeOfDay, WhenError> {
    if time.is_valid() {
        Ok(TimeOfDay { hour: time.hour, minute: time.minute, second: 0 })
    } else {
        Err(WhenError::InvalidTime { hour: time.hour, minute: time.minute })
    }
}

/// The date and time that a record names. The date is asked before the
/// time.
pub open spec fn date_time_of(year: u16, month: u8, day: u8, time: ClockTime) -> Result<
    DateTime,
    WhenError,
> {
    match date_of(year, month, day) {
        Err(error) => Err(error),
        Ok(date) => match time_of(time) {
            Err(error) => Err(error),
            Ok(time) => Ok(DateTime { date, time }),
        },
    }
}

/// No date is bent into another: three numbers that are no date of the
/// calendar, such as the 30th of February, resolve to an error, whatever the
/// time and the offset are, and numbers that resolve keep their year, month
/// and day as they are.
pub proof fn lemma_no_date_is_clamped(year: u16, month: u8, day: u8, time: ClockTime, tz: TzOffset)
    ensures
        !is_calendar_date(year as int, month as int, day as int) ==> date_of(year, month, day)
            is Err && date_time_of(year, month, day, time) is Err && day_start_of(
            year,
            month,
            day,
            tz,
        ) is Err,
        month == 2 && day >= 30 ==> date_of(year, month, day) == Err::<CalendarDate, WhenError>(
            WhenError::InvalidDate { year, month, day },
        ),
        date_of(year, month, day) matches Ok(date) ==> date.year == year && date.month == month
            && date.day == day && date.is_valid(),
        date_time_of(year, month, day, time) matches Ok(moment) ==> moment.date == date_of(
            year,
            month,
            day,
        )->Ok_0 && moment.time.is_valid(),
        day_start_of(year, month, day, tz) matches Ok(moment) ==> moment.date == date_of(
            year,
            month,
            day,
        )->Ok_0 && moment.offset.is_valid(),
{
}

/// Resolves the date of a record.
pub fn resolve_date(year: u16, month: u8, day: u8) -> (date: Result<CalendarDate, WhenError>)
    ensures
        date == date_of(year, month, day),
{
    let month = match month_from_number(month) {
        Ok(month) => month,
        Err(_) => {
            return Err(WhenError::InvalidMonth { month });
        },
    };
    match date_from_calendar(year as i32, month, day) {
        Ok(date) => Ok(date),
        Err(_) => Err(WhenError::InvalidDate { year, month, day }),
    }
}

/// Resolves the time of a record, on the minute.
pub fn resolve_time(time: ClockTime) -> (resolved: Result<TimeOfDay, WhenError>)
    ensures
        resolved == time_of(time),
{
    match time_from_hms(time.hour, time.minute, 0) {
        Ok(resolved) => Ok(resolved),
        Err(_) => Err(WhenError::InvalidTime { hour: time.hour, minute: time.minute }),
    }
}

/// Resolves the date and the time of a record.
pub fn resolve_date_time(year: u16, month: u8, day: u8, time: ClockTime) -> (resolved: Result<
    DateTime,
    WhenError,
>)
    ensures
        resolved == date_time_of(year, month, day, time),
{
    let date = match resolve_date(year, month, day) {
        Ok(date) => date,
        Err(error) => {
            return Err(error);
        },
    };
    match resolve_time(time) {
        Ok(time) => Ok(DateTime { date, time }),
        Err(error) => Err(error),
    }
}

/// The offset of a day's record from UTC, split in two: its whole hours,
/// with the fractional part cut off, and that fractional part in minutes.
#[derive(Clone, Copy, Debug, PartialEq, Eq, Structural)]
pub struct TzOffset {
    pub hours: i8,
    pub minutes: i8,
}

impl TzOffset {
    /// Whether the hours and minutes make an offset: each is within its
    /// range, and the two are not of opposite signs.
    pub open spec fn is_offset(self) -> bool {
        &&& is_offset_range(self.hours as int, self.minutes as int, 0)
        &&& signs_agree(self.hours as int, self.minutes as int, 0)
    }

    /// The offset that applies: that of the hours and minutes where they
    /// make one, and UTC where they do not.
    pub open spec fn offset_of(self) -> Offset {
        if self.is_offset() {
            Offset { hours: self.hours, minutes: self.minutes, seconds: 0 }
        } else {
            Offset::utc()
        }
    }

    /// Resolves the offset that applies. Hours and minutes that make no
    /// offset fall back to UTC; they are no error.
    pub fn resolve(&self) -> (offset: Offset)
        ensures
            offset == self.offset_of(),
            offset.is_valid(),
    {
        let utc = Offset { hours: 0, minutes: 0, seconds: 0 };
        if (self.hours > 0 && self.minutes < 0) || (self.hours < 0 && self.minutes > 0) {
            return utc;
        }
        match offset_from_hms(self.hours, self.minutes, 0) {
            Ok(offset) => offset,
            Err(_) => utc,
        }
    }
}

/// The phase nearest to a day, with its date and time.
#[derive(Clone, Copy, Debug, PartialEq, Eq, Structural)]
pub struct ClosestPhase {
    pub day: u8,
    pub month: u8,
    pub year: u16,
    pub time: ClockTime,
    pub phase: MoonPhase,
}

impl ClosestPhase {
    /// The date and time of the phase, in no particular time zone.
    pub fn when(&self) -> (moment: Result<DateTime, WhenError>)
        ensures
            moment == date_time_of(self.year, self.month, self.day, self.time),
    {
        resolve_date_time(self.year, self.month, self.day, self.time)
    }
}

/// One event of a day: what happens, and at what time. The day is that of
/// the record which holds the event.
#[derive(Clone, Copy, Debug, PartialEq, Eq, Structural)]
pub struct CelestialEvent {
    pub phenomenon: Phenomenon,
    pub time: ClockTime,
}

impl CelestialEvent {
    /// The time of the event, on the minute.
    pub fn when(&self) -> (moment: Result<TimeOfDay, WhenError>)
        ensures
            moment == time_of(self.time),
    {
        resolve_time(self.time)
    }
}

/// One row of a list of phases.
#[derive(Clone, Copy, Debug, PartialEq, Eq, Structural)]
pub struct MoonPhaseEntry {
    pub phase: MoonPhase,
    pub day: u8,
    pub month: u8,
    pub year: u16,
    pub time: ClockTime,
}

impl MoonPhaseEntry {
    /// The date and time of the phase, in no particular time zone.
    pub fn when(&self) -> (moment: Result<DateTime, WhenError>)
        ensures
            moment == date_time_of(self.year, self.month, self.day, self.time),
    {
        resolve_date_time(self.year, self.month, self.day, self.time)
    }
}

/// A list of phases. `count` is what the service says of the list's length;
/// nothing holds it to the list.
#[derive(Clone, Debug, PartialEq, Eq)]
pub struct MoonPhasesResponse {
    pub count: u16,
    pub phases: Vec<MoonPhaseEntry>,
}

/// A list of phases, as a sequence.
pub struct MoonPhasesResponseView {
    pub count: u16,
    pub phases: Seq<MoonPhaseEntry>,
}

impl View for MoonPhasesResponse {
    type V = MoonPhasesResponseView;

    open spec fn view(&self) -> MoonPhasesResponseView {
        MoonPhasesResponseView { count: self.count, phases: self.phases@ }
    }
}

/// The data of a single day.
#[derive(Clone, Debug, PartialEq, Eq)]
pub struct OneDayData {
    pub closest_phase: ClosestPhase,
    pub current_phase: MoonPhase,
    pub day_of_week: String,
    pub percent_illuminated: u8,
    pub moon_data: Vec<CelestialEvent>,
    pub sun_data: Vec<CelestialEvent>,
    pub month: u8,
    pub day: u8,
    pub year: u16,
    pub tz: TzOffset,
}

/// The data of a single day, with its text and lists as sequences.
pub struct OneDayDataView {
    pub closest_phase: ClosestPhase,
    pub current_phase: MoonPhase,
    pub day_of_week: Seq<char>,
    pub percent_illuminated: u8,
    pub moon_data: Seq<CelestialEvent>,
    pub sun_data: Seq<CelestialEvent>,
    pub month: u8,
    pub day: u8,
    pub year: u16,
    pub tz: TzOffset,
}

impl View for OneDayData {
    type V = OneDayDataView;

    open spec fn view(&self) -> OneDayDataView {
        OneDayDataView {
            closest_phase: self.closest_phase,
            current_phase: self.current_phase,
            day_of_week: self.day_of_week@,
            percent_illuminated: self.percent_illuminated,
            moon_data: self.moon_data@,
            sun_data: self.sun_data@,
            month: self.month,
            day: self.day,
            year: self.year,
            tz: self.tz,
        }
    }
}

/// The start of the day that the three numbers name, at the given offset.
pub open spec fn day_start_of(year: u16, month: u8, day: u8, tz: TzOffset) -> Result<
    ZonedDateTime,
    WhenError,
> {
    match date_of(year, month, day) {
        Err(error) => Err(error),
        Ok(date) => Ok(
            ZonedDateTime { date, time: TimeOfDay::midnight(), offset: tz.offset_of() },
        ),
    }
}

impl OneDayData {
    /// The moment the day begins: midnight of the record's date, at the
    /// record's own offset from UTC. Neither the phases nor the events of
    /// the record have a part in it.
    pub fn when(&self) -> (moment: Result<ZonedDateTime, WhenError>)
        ensures
            moment == day_start_of(self.year, self.month, self.day, self.tz),
    {
        let date = match resolve_date(self.year, self.month, self.day) {
            Ok(date) => date,
            Err(error) => {
                return Err(error);
            },
        };
        let midnight = TimeOfDay { hour: 0, minute: 0, second: 0 };
        Ok(ZonedDateTime { date, time: midnight, offset: self.tz.resolve() })
    }
}

/// The properties of the response for a single day.
#[derive(Clone, Debug, PartialEq, Eq)]
pub struct OneDayProps {
    pub data: OneDayData,
}

/// The response for a single day.
#[derive(Clone, Debug, PartialEq, Eq)]
pub struct OneDay {
    pub properties: OneDayProps,
}

impl View for OneDayProps {
    type V = OneDayDataView;

    open spec fn view(&self) -> OneDayDataView {
        self.data@
    }
}

impl View for OneDay {
    type V = OneDayDataView;

    open spec fn view(&self) -> OneDayDataView {
        self.properties@
    }
}

} // verus!
