//! The decoding of the two responses from what was received. A record is
//! read field by field, in the order of its declaration, and the first fault
//! found is the error: nothing is decoded in part.

use crate::clock::{clock_of_wire, ClockTime};
use crate::fault::{
    error_view, result_view, DecodeError, DecodeErrorView, Fault, FaultView,
};
use crate::field::Field;
use crate::percent::{percent_from_wire, percent_of_wire};
use crate::phase::{MoonPhase, Phenomenon};
use crate::record::{
    CelestialEvent, ClosestPhase, MoonPhaseEntry, MoonPhasesResponse, MoonPhasesResponseView,
    OneDay, OneDayData, OneDayDataView, OneDayProps, TzOffset,
};
use crate::wire::{lookup, value_of, Entry, Wire};
use vstd::prelude::*;

verus! {

/// The error of a text that names nothing.
pub open spec fn unknown_name(field: Field, raw: Seq<char>) -> DecodeErrorView {
    DecodeErrorView { field, fault: FaultView::UnknownName { raw } }
}

/// The phase that a received value names, under either spelling.
pub open spec fn phase_of_wire(value: Wire, field: Field) -> Result<MoonPhase, DecodeErrorView> {
    match value.text_of(field) {
        Err(error) => Err(error),
        Ok(text) => match MoonPhase::spelled_by(text) {
            Some(phase) => Ok(phase),
            None => Err(unknown_name(field, text)),
        },
    }
}

/// The event that a received value names, under either spelling.
pub open spec fn phenomenon_of_wire(value: Wire, field: Field) -> Result<
    Phenomenon,
    DecodeErrorView,
> {
    match value.text_of(field) {
        Err(error) => Err(error),
        Ok(text) => match Phenomenon::spelled_by(text) {
            Some(event) => Ok(event),
            None => Err(unknown_name(field, text)),
        },
    }
}

/// The whole number `value`, held to what eight bits with a sign take.
pub open spec fn saturated(value: int) -> i8 {
    if value < -128 {
        -128i8
    } else if value > 127 {
        127i8
    } else {
        value as i8
    }
}

/// The offset from UTC that a received value gives. A number with a
/// fractional part gives the whole hours and the minutes that it was split
/// into; a whole number gives its hours, held to what fits, and no minutes.
pub open spec fn tz_of_wire(value: Wire) -> Result<TzOffset, DecodeErrorView> {
    match value {
        Wire::Integer(hours) => Ok(TzOffset { hours: saturated(hours as int), minutes: 0 }),
        Wire::Fraction { whole, minutes, .. } => Ok(TzOffset { hours: whole, minutes }),
        _ => Err(value.wrong_shape_of(Field::Tz)),
    }
}

/// The byte of `field` in a record.
pub open spec fn byte_in(entries: Seq<Entry>, field: Field) -> Result<u8, DecodeErrorView> {
    match value_of(entries, field) {
        Err(error) => Err(error),
        Ok(value) => value.byte_of(field),
    }
}

/// The 16-bit number of `field` in a record.
pub open spec fn short_in(entries: Seq<Entry>, field: Field) -> Result<u16, DecodeErrorView> {
    match value_of(entries, field) {
        Err(error) => Err(error),
        Ok(value) => value.short_of(field),
    }
}

/// The text of `field` in a record.
pub open spec fn text_in(entries: Seq<Entry>, field: Field) -> Result<Seq<char>, DecodeErrorView> {
    match value_of(entries, field) {
        Err(error) => Err(error),
        Ok(value) => value.text_of(field),
    }
}

/// The entries of the record that `field` holds in a record.
pub open spec fn record_in(entries: Seq<Entry>, field: Field) -> Result<
    Seq<Entry>,
    DecodeErrorView,
> {
    match value_of(entries, field) {
        Err(error) => Err(error),
        Ok(value) => value.entries_of(field),
    }
}

/// The items of the list that `field` holds in a record.
pub open spec fn list_in(entries: Seq<Entry>, field: Field) -> Result<Seq<Wire>, DecodeErrorView> {
    match value_of(entries, field) {
        Err(error) => Err(error),
        Ok(value) => value.items_of(field),
    }
}

/// The time of a record, in either of its shapes.
pub open spec fn clock_in(entries: Seq<Entry>) -> Result<ClockTime, DecodeErrorView> {
    match value_of(entries, Field::Time) {
        Err(error) => Err(error),
        Ok(value) => clock_of_wire(value),
    }
}

/// The phase of `field` in a record.
pub open spec fn phase_in(entries: Seq<Entry>, field: Field) -> Result<
    MoonPhase,
    DecodeErrorView,
> {
    match value_of(entries, field) {
        Err(error) => Err(error),
        Ok(value) => phase_of_wire(value, field),
    }
}

/// The event that a record names.
pub open spec fn phenomenon_in(entries: Seq<Entry>) -> Result<Phenomenon, DecodeErrorView> {
    match value_of(entries, Field::Phenomenon) {
        Err(error) => Err(error),
        Ok(value) => phenomenon_of_wire(value, Field::Phenomenon),
    }
}

/// The illuminated part that a record gives, in either of its shapes.
pub open spec fn percent_in(entries: Seq<Entry>) -> Result<u8, DecodeErrorView> {
    match value_of(entries, Field::PercentIlluminated) {
        Err(error) => Err(error),
        Ok(value) => percent_of_wire(value),
    }
}

/// The offset from UTC that a record gives.
pub open spec fn tz_in(entries: Seq<Entry>) -> Result<TzOffset, DecodeErrorView> {
    match value_of(entries, Field::Tz) {
        Err(error) => Err(error),
        Ok(value) => tz_of_wire(value),
    }
}

/// The nearest phase that a record denotes.
pub open spec fn closest_phase_of(entries: Seq<Entry>) -> Result<ClosestPhase, DecodeErrorView> {
    let day = byte_in(entries, Field::Day);
    let month = byte_in(entries, Field::Month);
    let year = short_in(entries, Field::Year);
    let time = clock_in(entries);
    let phase = phase_in(entries, Field::Phase);
    if day is Err {
        Err(day->Err_0)
    } else if month is Err {
        Err(month->Err_0)
    } else if year is Err {
        Err(year->Err_0)
    } else if time is Err {
        Err(time->Err_0)
    } else if phase is Err {
        Err(phase->Err_0)
    } else {
        Ok(
            ClosestPhase {
                day: day->Ok_0,
                month: month->Ok_0,
                year: year->Ok_0,
                time: time->Ok_0,
                phase: phase->Ok_0,
            },
        )
    }
}

/// The event that a record denotes.
pub open spec fn event_of(entries: Seq<Entry>) -> Result<CelestialEvent, DecodeErrorView> {
    let phenomenon = phenomenon_in(entries);
    let time = clock_in(entries);
    if phenomenon is Err {
        Err(phenomenon->Err_0)
    } else if time is Err {
        Err(time->Err_0)
    } else {
        Ok(CelestialEvent { phenomenon: phenomenon->Ok_0, time: time->Ok_0 })
    }
}

/// The row of a list of phases that a record denotes.
pub open spec fn phase_entry_of(entries: Seq<Entry>) -> Result<MoonPhaseEntry, DecodeErrorView> {
    let phase = phase_in(entries, Field::Phase);
    let day = byte_in(entries, Field::Day);
    let month = byte_in(entries, Field::Month);
    let year = short_in(entries, Field::Year);
    let time = clock_in(entries);
    if phase is Err {
        Err(phase->Err_0)
    } else if day is Err {
        Err(day->Err_0)
    } else if month is Err {
        Err(month->Err_0)
    } else if year is Err {
        Err(year->Err_0)
    } else if time is Err {
        Err(time->Err_0)
    } else {
        Ok(
            MoonPhaseEntry {
                phase: phase->Ok_0,
                day: day->Ok_0,
                month: month->Ok_0,
                year: year->Ok_0,
                time: time->Ok_0,
            },
        )
    }
}

/// The event that an item of the list of `field` denotes.
pub open spec fn event_of_wire(value: Wire, field: Field) -> Result<
    CelestialEvent,
    DecodeErrorView,
> {
    match value.entries_of(field) {
        Err(error) => Err(error),
        Ok(entries) => event_of(entries),
    }
}

/// The row that an item of the list of phases denotes.
pub open spec fn phase_entry_of_wire(value: Wire) -> Result<MoonPhaseEntry, DecodeErrorView> {
    match value.entries_of(Field::Phases) {
        Err(error) => Err(error),
        Ok(entries) => phase_entry_of(entries),
    }
}

/// Whether the result at `i` is the first error among `results`.
pub open spec fn is_first_error<T>(results: Seq<Result<T, DecodeErrorView>>, i: int) -> bool {
    &&& 0 <= i < results.len()
    &&& results[i] is Err
    &&& forall|j: int| 0 <= j < i ==> #[trigger] results[j] is Ok
}

/// All the values of `results` in order, or the first error among them.
pub open spec fn all_or_first_error<T>(results: Seq<Result<T, DecodeErrorView>>) -> Result<
    Seq<T>,
    DecodeErrorView,
> {
    if exists|i: int| is_first_error(results, i) {
        Err(results[choose|i: int| is_first_error(results, i)]->Err_0)
    } else {
        Ok(Seq::new(results.len(), |i: int| results[i]->Ok_0))
    }
}

/// The events that the items of the list of `field` denote, or the error of
/// the first item that denotes none.
pub open spec fn events_of(items: Seq<Wire>, field: Field) -> Result<
    Seq<CelestialEvent>,
    DecodeErrorView,
> {
    all_or_first_error(Seq::new(items.len(), |i: int| event_of_wire(items[i], field)))
}

/// The rows that the items of the list of phases denote, or the error of
/// the first item that denotes none.
pub open spec fn phase_entries_of(items: Seq<Wire>) -> Result<
    Seq<MoonPhaseEntry>,
    DecodeErrorView,
> {
    all_or_first_error(Seq::new(items.len(), |i: int| phase_entry_of_wire(items[i])))
}

/// The events of the list that `field` holds in a record.
pub open spec fn events_in(entries: Seq<Entry>, field: Field) -> Result<
    Seq<CelestialEvent>,
    DecodeErrorView,
> {
    match list_in(entries, field) {
        Err(error) => Err(error),
        Ok(items) => events_of(items, field),
    }
}

/// The nearest phase that a record holds.
pub open spec fn closest_phase_in(entries: Seq<Entry>) -> Result<ClosestPhase, DecodeErrorView> {
    match record_in(entries, Field::ClosestPhase) {
        Err(error) => Err(error),
        Ok(inner) => closest_phase_of(inner),
    }
}

/// The data of a single day that a record denotes.
pub open spec fn one_day_data_of(entries: Seq<Entry>) -> Result<OneDayDataView, DecodeErrorView> {
    let closest_phase = closest_phase_in(entries);
    let current_phase = phase_in(entries, Field::CurrentPhase);
    let day_of_week = text_in(entries, Field::DayOfWeek);
    let percent_illuminated = percent_in(entries);
    let moon_data = events_in(entries, Field::MoonData);
    let sun_data = events_in(entries, Field::SunData);
    let month = byte_in(entries, Field::Month);
    let day = byte_in(entries, Field::Day);
    let year = short_in(entries, Field::Year);
    let tz = tz_in(entries);
    if closest_phase is Err {
        Err(closest_phase->Err_0)
    } else if current_phase is Err {
        Err(current_phase->Err_0)
    } else if day_of_week is Err {
        Err(day_of_week->Err_0)
    } else if percent_illuminated is Err {
        Err(percent_illuminated->Err_0)
    } else if moon_data is Err {
        Err(moon_data->Err_0)
    } else if sun_data is Err {
        Err(sun_data->Err_0)
    } else if month is Err {
        Err(month->Err_0)
    } else if day is Err {
        Err(day->Err_0)
    } else if year is Err {
        Err(year->Err_0)
    } else if tz is Err {
        Err(tz->Err_0)
    } else {
        Ok(
            OneDayDataView {
                closest_phase: closest_phase->Ok_0,
                current_phase: current_phase->Ok_0,
                day_of_week: day_of_week->Ok_0,
                percent_illuminated: percent_illuminated->Ok_0,
                moon_data: moon_data->Ok_0,
                sun_data: sun_data->Ok_0,
                month: month->Ok_0,
                day: day->Ok_0,
                year: year->Ok_0,
                tz: tz->Ok_0,
            },
        )
    }
}

/// The response for a single day that a received value denotes: a record
/// whose properties hold the data.
pub open spec fn one_day_of_wire(response: Wire) -> Result<OneDayDataView, DecodeErrorView> {
    match response.entries_of(Field::Response) {
        Err(error) => Err(error),
        Ok(entries) => match record_in(entries, Field::Properties) {
            Err(error) => Err(error),
            Ok(properties) => match record_in(properties, Field::Data) {
                Err(error) => Err(error),
                Ok(data) => one_day_data_of(data),
            },
        },
    }
}

/// The rows of the list of phases that a record holds.
pub open spec fn phase_entries_in(entries: Seq<Entry>) -> Result<
    Seq<MoonPhaseEntry>,
    DecodeErrorView,
> {
    match list_in(entries, Field::Phases) {
        Err(error) => Err(error),
        Ok(items) => phase_entries_of(items),
    }
}

/// The list of phases that a received value denotes. The count is taken as
/// it is given: nothing holds it to the number of rows.
pub open spec fn phases_of_wire(response: Wire) -> Result<
    MoonPhasesResponseView,
    DecodeErrorView,
> {
    match response.entries_of(Field::Response) {
        Err(error) => Err(error),
        Ok(entries) => {
            let count = short_in(entries, Field::Count);
            let phases = phase_entries_in(entries);
            if count is Err {
                Err(count->Err_0)
            } else if phases is Err {
                Err(phases->Err_0)
            } else {
                Ok(MoonPhasesResponseView { count: count->Ok_0, phases: phases->Ok_0 })
            }
        },
    }
}

/// The first error among results is the only place that is one.
pub proof fn lemma_first_error_unique<T>(results: Seq<Result<T, DecodeErrorView>>, i: int)
    requires
        is_first_error(results, i),
    ensures
        all_or_first_error(results) == Err::<Seq<T>, DecodeErrorView>(results[i]->Err_0),
{
}

/// Results without an error give all their values.
pub proof fn lemma_no_error_gives_all<T>(results: Seq<Result<T, DecodeErrorView>>, values: Seq<T>)
    requires
        values.len() == results.len(),
        forall|j: int|
            0 <= j < results.len() ==> #[trigger] results[j] == Ok::<T, DecodeErrorView>(
                values[j],
            ),
    ensures
        all_or_first_error(results) == Ok::<Seq<T>, DecodeErrorView>(values),
{
    assert(Seq::new(results.len(), |i: int| results[i]->Ok_0) =~= values);
}

/// Reads the phase that a received value names.
pub fn read_phase(value: &Wire, field: Field) -> (phase: Result<MoonPhase, DecodeError>)
    ensures
        error_view(phase) == phase_of_wire(*value, field),
{
    let text = match value.as_text(field) {
        Ok(text) => text,
        Err(error) => {
            return Err(error);
        },
    };
    match MoonPhase::from_text(text.as_str()) {
        Some(phase) => Ok(phase),
        None => Err(DecodeError { field, fault: Fault::UnknownName { raw: text.clone() } }),
    }
}

/// Reads the event that a received value names.
pub fn read_phenomenon(value: &Wire, field: Field) -> (event: Result<Phenomenon, DecodeError>)
    ensures
        error_view(event) == phenomenon_of_wire(*value, field),
{
    let text = match value.as_text(field) {
        Ok(text) => text,
        Err(error) => {
            return Err(error);
        },
    };
    match Phenomenon::from_text(text.as_str()) {
        Some(event) => Ok(event),
        None => Err(DecodeError { field, fault: Fault::UnknownName { raw: text.clone() } }),
    }
}

/// Reads the offset from UTC that a received value gives.
pub fn read_tz(value: &Wire) -> (tz: Result<TzOffset, DecodeError>)
    ensures
        error_view(tz) == tz_of_wire(*value),
{
    match value {
        Wire::Integer(hours) => {
            let held: i8 = if *hours < -128 {
                -128
            } else if *hours > 127 {
                127
            } else {
                *hours as i8
            };
            Ok(TzOffset { hours: held, minutes: 0 })
        },
        Wire::Fraction { whole, minutes, .. } => Ok(
            TzOffset { hours: *whole, minutes: *minutes },
        ),
        _ => Err(value.wrong_shape(Field::Tz)),
    }
}

/// Reads the byte of `field` from a record.
pub fn byte_field(entries: &Vec<Entry>, field: Field) -> (byte: Result<u8, DecodeError>)
    ensures
        error_view(byte) == byte_in(entries@, field),
{
    match lookup(entries, field) {
        Ok(value) => value.as_byte(field),
        Err(error) => Err(error),
    }
}

/// Reads the 16-bit number of `field` from a record.
pub fn short_field(entries: &Vec<Entry>, field: Field) -> (short: Result<u16, DecodeError>)
    ensures
        error_view(short) == short_in(entries@, field),
{
    match lookup(entries, field) {
        Ok(value) => value.as_short(field),
        Err(error) => Err(error),
    }
}

/// Reads the text of `field` from a record.
pub fn text_field(entries: &Vec<Entry>, field: Field) -> (text: Result<String, DecodeError>)
    ensures
        match text {
            Ok(found) => text_in(entries@, field) == Ok::<Seq<char>, DecodeErrorView>(found@),
            Err(error) => text_in(entries@, field) == Err::<Seq<char>, DecodeErrorView>(error@),
        },
{
    match lookup(entries, field) {
        Ok(value) => match value.as_text(field) {
            Ok(text) => Ok(text.clone()),
            Err(error) => Err(error),
        },
        Err(error) => Err(error),
    }
}

/// Reads the record that `field` holds in a record.
pub fn record_field<'a>(entries: &'a Vec<Entry>, field: Field) -> (inner: Result<
    &'a Vec<Entry>,
    DecodeError,
>)
    ensures
        match inner {
            Ok(found) => record_in(entries@, field) == Ok::<Seq<Entry>, DecodeErrorView>(found@),
            Err(error) => record_in(entries@, field) == Err::<Seq<Entry>, DecodeErrorView>(
                error@,
            ),
        },
{
    match lookup(entries, field) {
        Ok(value) => value.as_record(field),
        Err(error) => Err(error),
    }
}

/// Reads the list that `field` holds in a record.
pub fn list_field<'a>(entries: &'a Vec<Entry>, field: Field) -> (items: Result<
    &'a Vec<Wire>,
    DecodeError,
>)
    ensures
        match items {
            Ok(found) => list_in(entries@, field) == Ok::<Seq<Wire>, DecodeErrorView>(found@),
            Err(error) => list_in(entries@, field) == Err::<Seq<Wire>, DecodeErrorView>(error@),
        },
{
    match lookup(entries, field) {
        Ok(value) => value.as_list(field),
        Err(error) => Err(error),
    }
}

/// Reads the time of a record.
pub fn clock_field(entries: &Vec<Entry>) -> (time: Result<ClockTime, DecodeError>)
    ensures
        error_view(time) == clock_in(entries@),
{
    match lookup(entries, Field::Time) {
        Ok(value) => ClockTime::from_wire(value),
        Err(error) => Err(error),
    }
}

/// Reads the phase of `field` from a record.
pub fn phase_field(entries: &Vec<Entry>, field: Field) -> (phase: Result<MoonPhase, DecodeError>)
    ensures
        error_view(phase) == phase_in(entries@, field),
{
    match lookup(entries, field) {
        Ok(value) => read_phase(value, field),
        Err(error) => Err(error),
    }
}

/// Reads the event that a record names.
pub fn phenomenon_field(entries: &Vec<Entry>) -> (event: Result<Phenomenon, DecodeError>)
    ensures
        error_view(event) == phenomenon_in(entries@),
{
    match lookup(entries, Field::Phenomenon) {
        Ok(value) => read_phenomenon(value, Field::Phenomenon),
        Err(error) => Err(error),
    }
}

/// Reads the illuminated part that a record gives.
pub fn percent_field(entries: &Vec<Entry>) -> (percent: Result<u8, DecodeError>)
    ensures
        error_view(percent) == percent_in(entries@),
{
    match lookup(entries, Field::PercentIlluminated) {
        Ok(value) => percent_from_wire(value),
        Err(error) => Err(error),
    }
}

/// Reads the offset from UTC that a record gives.
pub fn tz_field(entries: &Vec<Entry>) -> (tz: Result<TzOffset, DecodeError>)
    ensures
        error_view(tz) == tz_in(entries@),
{
    match lookup(entries, Field::Tz) {
        Ok(value) => read_tz(value),
        Err(error) => Err(error),
    }
}

impl ClosestPhase {
    /// Decodes the nearest phase from the entries of its record.
    pub fn from_fields(entries: &Vec<Entry>) -> (phase: Result<ClosestPhase, DecodeError>)
        ensures
            error_view(phase) == closest_phase_of(entries@),
    {
        let day = match byte_field(entries, Field::Day) {
            Ok(day) => day,
            Err(error) => {
                return Err(error);
            },
        };
        let month = match byte_field(entries, Field::Month) {
            Ok(month) => month,
            Err(error) => {
                return Err(error);
            },
        };
        let year = match short_field(entries, Field::Year) {
            Ok(year) => year,
            Err(error) => {
                return Err(error);
            },
        };
        let time = match clock_field(entries) {
            Ok(time) => time,
            Err(error) => {
                return Err(error);
            },
        };
        let phase = match phase_field(entries, Field::Phase) {
            Ok(phase) => phase,
            Err(error) => {
                return Err(error);
            },
        };
        Ok(ClosestPhase { day, month, year, time, phase })
    }
}

impl CelestialEvent {
    /// Decodes an event from the entries of its record.
    pub fn from_fields(entries: &Vec<Entry>) -> (event: Result<CelestialEvent, DecodeError>)
        ensures
            error_view(event) == event_of(entries@),
    {
        let phenomenon = match phenomenon_field(entries) {
            Ok(phenomenon) => phenomenon,
            Err(error) => {
                return Err(error);
            },
        };
        let time = match clock_field(entries) {
            Ok(time) => time,
            Err(error) => {
                return Err(error);
            },
        };
        Ok(CelestialEvent { phenomenon, time })
    }

    /// Decodes an event from an item of the list of `field`.
    pub fn from_wire(value: &Wire, field: Field) -> (event: Result<CelestialEvent, DecodeError>)
        ensures
            error_view(event) == event_of_wire(*value, field),
    {
        match value.as_record(field) {
            Ok(entries) => CelestialEvent::from_fields(entries),
            Err(error) => Err(error),
        }
    }

    /// Decodes the events of the list of `field`, all of them or none.
    pub fn list_from_wire(items: &Vec<Wire>, field: Field) -> (events: Result<
        Vec<CelestialEvent>,
        DecodeError,
    >)
        ensures
            match events {
                Ok(found) => events_of(items@, field) == Ok::<
                    Seq<CelestialEvent>,
                    DecodeErrorView,
                >(found@),
                Err(error) => events_of(items@, field) == Err::<
                    Seq<CelestialEvent>,
                    DecodeErrorView,
                >(error@),
            },
    {
        let ghost results = Seq::new(items@.len(), |i: int| event_of_wire(items@[i], field));
        let mut events: Vec<CelestialEvent> = Vec::new();
        let mut i: usize = 0;
        while i < items.len()
            invariant
                i <= items.len(),
                events.len() == i,
                results == Seq::new(items@.len(), |i: int| event_of_wire(items@[i], field)),
                forall|j: int|
                    0 <= j < i ==> #[trigger] results[j] == Ok::<CelestialEvent, DecodeErrorView>(
                        events@[j],
                    ),
            decreases items.len() - i,
        {
            match CelestialEvent::from_wire(&items[i], field) {
                Ok(event) => {
                    events.push(event);
                },
                Err(error) => {
                    proof {
                        lemma_first_error_unique(results, i as int);
                    }
                    return Err(error);
                },
            }
            i = i + 1;
        }
        proof {
            lemma_no_error_gives_all(results, events@);
        }
        Ok(events)
    }
}

impl MoonPhaseEntry {
    /// Decodes a row of a list of phases from the entries of its record.
    pub fn from_fields(entries: &Vec<Entry>) -> (row: Result<MoonPhaseEntry, DecodeError>)
        ensures
            error_view(row) == phase_entry_of(entries@),
    {
        let phase = match phase_field(entries, Field::Phase) {
            Ok(phase) => phase,
            Err(error) => {
                return Err(error);
            },
        };
        let day = match byte_field(entries, Field::Day) {
            Ok(day) => day,
            Err(error) => {
                return Err(error);
            },
        };
        let month = match byte_field(entries, Field::Month) {
            Ok(month) => month,
            Err(error) => {
                return Err(error);
            },
        };
        let year = match short_field(entries, Field::Year) {
            Ok(year) => year,
            Err(error) => {
                return Err(error);
            },
        };
        let time = match clock_field(entries) {
            Ok(time) => time,
            Err(error) => {
                return Err(error);
            },
        };
        Ok(MoonPhaseEntry { phase, day, month, year, time })
    }

    /// Decodes a row from an item of the list of phases.
    pub fn from_wire(value: &Wire) -> (row: Result<MoonPhaseEntry, DecodeError>)
        ensures
            error_view(row) == phase_entry_of_wire(*value),
    {
        match value.as_record(Field::Phases) {
            Ok(entries) => MoonPhaseEntry::from_fields(entries),
            Err(error) => Err(error),
        }
    }

    /// Decodes the rows of the list of phases, all of them or none.
    pub fn list_from_wire(items: &Vec<Wire>) -> (rows: Result<Vec<MoonPhaseEntry>, DecodeError>)
        ensures
            match rows {
                Ok(found) => phase_entries_of(items@) == Ok::<
                    Seq<MoonPhaseEntry>,
                    DecodeErrorView,
                >(found@),
                Err(error) => phase_entries_of(items@) == Err::<
                    Seq<MoonPhaseEntry>,
                    DecodeErrorView,
                >(error@),
            },
    {
        let ghost results = Seq::new(items@.len(), |i: int| phase_entry_of_wire(items@[i]));
        let mut rows: Vec<MoonPhaseEntry> = Vec::new();
        let mut i: usize = 0;
        while i < items.len()
            invariant
                i <= items.len(),
                rows.len() == i,
                results == Seq::new(items@.len(), |i: int| phase_entry_of_wire(items@[i])),
                forall|j: int|
                    0 <= j < i ==> #[trigger] results[j] == Ok::<MoonPhaseEntry, DecodeErrorView>(
                        rows@[j],
                    ),
            decreases items.len() - i,
        {
            match MoonPhaseEntry::from_wire(&items[i]) {
                Ok(row) => {
                    rows.push(row);
                },
                Err(error) => {
                    proof {
                        lemma_first_error_unique(results, i as int);
                    }
                    return Err(error);
                },
            }
            i = i + 1;
        }
        proof {
            lemma_no_error_gives_all(results, rows@);
        }
        Ok(rows)
    }
}

/// Reads the events of the list that `field` holds in a record.
pub fn events_field(entries: &Vec<Entry>, field: Field) -> (events: Result<
    Vec<CelestialEvent>,
    DecodeError,
>)
    ensures
        match events {
            Ok(found) => events_in(entries@, field) == Ok::<Seq<CelestialEvent>, DecodeErrorView>(
                found@,
            ),
            Err(error) => events_in(entries@, field) == Err::<
                Seq<CelestialEvent>,
                DecodeErrorView,
            >(error@),
        },
{
    match list_field(entries, field) {
        Ok(items) => CelestialEvent::list_from_wire(items, field),
        Err(error) => Err(error),
    }
}

impl OneDayData {
    /// Decodes the data of a single day from the entries of its record.
    pub fn from_fields(entries: &Vec<Entry>) -> (data: Result<OneDayData, DecodeError>)
        ensures
            result_view(data) == one_day_data_of(entries@),
    {
        let closest_phase = match record_field(entries, Field::ClosestPhase) {
            Ok(inner) => match ClosestPhase::from_fields(inner) {
                Ok(closest_phase) => closest_phase,
                Err(error) => {
                    return Err(error);
                },
            },
            Err(error) => {
                return Err(error);
            },
        };
        let current_phase = match phase_field(entries, Field::CurrentPhase) {
            Ok(current_phase) => current_phase,
            Err(error) => {
                return Err(error);
            },
        };
        let day_of_week = match text_field(entries, Field::DayOfWeek) {
            Ok(day_of_week) => day_of_week,
            Err(error) => {
                return Err(error);
            },
        };
        let percent_illuminated = match percent_field(entries) {
            Ok(percent_illuminated) => percent_illuminated,
            Err(error) => {
                return Err(error);
            },
        };
        let moon_data = match events_field(entries, Field::MoonData) {
            Ok(moon_data) => moon_data,
            Err(error) => {
                return Err(error);
            },
        };
        let sun_data = match events_field(entries, Field::SunData) {
            Ok(sun_data) => sun_data,
            Err(error) => {
                return Err(error);
            },
        };
        let month = match byte_field(entries, Field::Month) {
            Ok(month) => month,
            Err(error) => {
                return Err(error);
            },
        };
        let day = match byte_field(entries, Field::Day) {
            Ok(day) => day,
            Err(error) => {
                return Err(error);
            },
        };
        let year = match short_field(entries, Field::Year) {
            Ok(year) => year,
            Err(error) => {
                return Err(error);
            },
        };
        let tz = match tz_field(entries) {
            Ok(tz) => tz,
            Err(error) => {
                return Err(error);
            },
        };
        Ok(
            OneDayData {
                closest_phase,
                current_phase,
                day_of_week,
                percent_illuminated,
                moon_data,
                sun_data,
                month,
                day,
                year,
                tz,
            },
        )
    }
}

impl OneDay {
    /// Decodes the response for a single day: all of it, or the first fault
    /// found.
    pub fn from_wire(response: &Wire) -> (decoded: Result<OneDay, DecodeError>)
        ensures
            result_view(decoded) == one_day_of_wire(*response),
    {
        let entries = match response.as_record(Field::Response) {
            Ok(entries) => entries,
            Err(error) => {
                return Err(error);
            },
        };
        let properties = match record_field(entries, Field::Properties) {
            Ok(properties) => properties,
            Err(error) => {
                return Err(error);
            },
        };
        let data = match record_field(properties, Field::Data) {
            Ok(data) => data,
            Err(error) => {
                return Err(error);
            },
        };
        match OneDayData::from_fields(data) {
            Ok(data) => Ok(OneDay { properties: OneDayProps { data } }),
            Err(error) => Err(error),
        }
    }
}

impl MoonPhasesResponse {
    /// Decodes a list of phases: all of it, or the first fault found.
    pub fn from_wire(response: &Wire) -> (decoded: Result<MoonPhasesResponse, DecodeError>)
        ensures
            result_view(decoded) == phases_of_wire(*response),
    {
        let entries = match response.as_record(Field::Response) {
            Ok(entries) => entries,
            Err(error) => {
                return Err(error);
            },
        };
        let count = match short_field(entries, Field::Count) {
            Ok(count) => count,
            Err(error) => {
                return Err(error);
            },
        };
        let phases = match list_field(entries, Field::Phases) {
            Ok(items) => match MoonPhaseEntry::list_from_wire(items) {
                Ok(phases) => phases,
                Err(error) => {
                    return Err(error);
                },
            },
            Err(error) => {
                return Err(error);
            },
        };
        Ok(MoonPhasesResponse { count, phases })
    }
}

} // verus!
