//! A time of day as the service sends it, and its reading from the text
//! form, hours and minutes on either side of a colon.

use crate::fault::{error_view, DecodeError, DecodeErrorView, Fault, FaultView};
use crate::field::Field;
use crate::text::{chars_of, lemma_written_number_reads_back, numeral_u8, padded_decimal, parse_u8};
use crate::wire::{Entry, Wire};
use vstd::prelude::*;

verus! {

/// A time of day in hours and minutes, as decoded. Decoding keeps the two
/// numbers as they were sent. Whether they are a time of the 24-hour clock
/// is a separate question, which `is_valid` answers.
#[derive(Clone, Copy, Debug, PartialEq, Eq, Structural)]
pub struct ClockTime {
    pub hour: u8,
    pub minute: u8,
}

impl ClockTime {
    /// Whether the two numbers are a time of the 24-hour clock.
    pub open spec fn is_valid(self) -> bool {
        self.hour < 24 && self.minute < 60
    }
}

/// Whether `k` is the place of the first colon of `s`.
pub open spec fn is_first_colon(s: Seq<char>, k: int) -> bool {
    &&& 0 <= k < s.len()
    &&& s[k] == ':'
    &&& forall|j: int| 0 <= j < k ==> #[trigger] s[j] != ':'
}

/// Whether `s` holds a colon.
pub open spec fn has_colon(s: Seq<char>) -> bool {
    exists|k: int| 0 <= k < s.len() && #[trigger] s[k] == ':'
}

/// The place of the first colon of `s`, where it holds one.
pub open spec fn first_colon(s: Seq<char>) -> int {
    choose|k: int| is_first_colon(s, k)
}

/// The error of a time that is at fault.
pub open spec fn time_error(fault: FaultView) -> DecodeErrorView {
    DecodeErrorView { field: Field::Time, fault }
}

/// The time that the text `s` denotes: a numeral of hours, the first colon,
/// and a numeral of minutes. A text without a colon is at fault for that;
/// otherwise the hours are read before the minutes, and the first of the two
/// that is no numeral of a byte is named.
pub open spec fn clock_of_text(s: Seq<char>) -> Result<ClockTime, DecodeErrorView> {
    if !has_colon(s) {
        Err(time_error(FaultView::MissingColon { raw: s }))
    } else {
        let k = first_colon(s);
        match numeral_u8(s.subrange(0, k)) {
            None => Err(time_error(FaultView::InvalidHour { raw: s })),
            Some(hour) => match numeral_u8(s.subrange(k + 1, s.len() as int)) {
                None => Err(time_error(FaultView::InvalidMinute { raw: s })),
                Some(minute) => Ok(ClockTime { hour, minute }),
            },
        }
    }
}

/// The first colon of a text is the only place that is one.
pub proof fn lemma_first_colon_unique(s: Seq<char>, k: int)
    requires
        is_first_colon(s, k),
    ensures
        has_colon(s),
        first_colon(s) == k,
{
    let chosen = first_colon(s);
}

/// Finds the first colon among `chars`.
pub fn find_colon(chars: &Vec<char>) -> (place: Option<usize>)
    ensures
        match place {
            Some(k) => is_first_colon(chars@, k as int),
            None => !has_colon(chars@),
        },
{
    let mut i: usize = 0;
    while i < chars.len()
        invariant
            i <= chars.len(),
            forall|j: int| 0 <= j < i ==> #[trigger] chars@[j] != ':',
        decreases chars.len() - i,
    {
        if chars[i] == ':' {
            return Some(i);
        }
        i = i + 1;
    }
    None
}

impl ClockTime {
    /// Reads a time from its text form, such as `6:30` or `06:05`.
    pub fn from_text(text: &str) -> (time: Result<ClockTime, DecodeError>)
        ensures
            error_view(time) == clock_of_text(text@),
    {
        let chars = chars_of(text);
        let k = match find_colon(&chars) {
            Some(k) => k,
            None => {
                return Err(
                    DecodeError {
                        field: Field::Time,
                        fault: Fault::MissingColon { raw: String::from_str(text) },
                    },
                );
            },
        };
        proof {
            lemma_first_colon_unique(chars@, k as int);
        }
        let hour = match parse_u8(&chars, 0, k) {
            Some(hour) => hour,
            None => {
                return Err(
                    DecodeError {
                        field: Field::Time,
                        fault: Fault::InvalidHour { raw: String::from_str(text) },
                    },
                );
            },
        };
        let minute = match parse_u8(&chars, k + 1, chars.len()) {
            Some(minute) => minute,
            None => {
                return Err(
                    DecodeError {
                        field: Field::Time,
                        fault: Fault::InvalidMinute { raw: String::from_str(text) },
                    },
                );
            },
        };
        Ok(ClockTime { hour, minute })
    }
}

/// The part of a time that the entry at `i` gives, if it gives one.
pub open spec fn part_at(entries: Seq<Entry>, i: int) -> Option<Field> {
    if Field::Hour.accepts_text(entries[i].key@) {
        Some(Field::Hour)
    } else if Field::Minute.accepts_text(entries[i].key@) {
        Some(Field::Minute)
    } else {
        None
    }
}

/// What is wrong with the entry at `i` as a part of a time, if anything is:
/// it gives the hours or the minutes, and its value is no byte.
pub open spec fn part_fault_at(entries: Seq<Entry>, i: int) -> Option<DecodeErrorView> {
    match part_at(entries, i) {
        Some(part) => match entries[i].value.byte_of(part) {
            Ok(_) => None,
            Err(error) => Some(error),
        },
        None => None,
    }
}

/// Whether the entry at `i` is the first that is at fault as a part of a
/// time.
pub open spec fn is_first_part_fault(entries: Seq<Entry>, i: int) -> bool {
    &&& 0 <= i < entries.len()
    &&& part_fault_at(entries, i) is Some
    &&& forall|j: int| 0 <= j < i ==> #[trigger] part_fault_at(entries, j) is None
}

/// Whether the entry at `i` is the last that gives `part`.
pub open spec fn is_last_of(entries: Seq<Entry>, part: Field, i: int) -> bool {
    &&& 0 <= i < entries.len()
    &&& part_at(entries, i) == Some(part)
    &&& forall|j: int| i < j < entries.len() ==> #[trigger] part_at(entries, j) != Some(part)
}

/// The byte that the last entry of `part` gives.
pub open spec fn last_part(entries: Seq<Entry>, part: Field) -> u8 {
    entries[choose|i: int| is_last_of(entries, part, i)].value.byte_of(part)->Ok_0
}

/// The time that a record denotes. Its entries are taken in order: one
/// named `hour` or `minute` gives that part and must hold a byte, and the
/// first that does not is the fault. Other entries are passed over. Where a
/// part is given more than once, the last one counts. A record that does not
/// give the hours is at fault for that, then one that does not give the
/// minutes.
pub open spec fn clock_of_fields(entries: Seq<Entry>) -> Result<ClockTime, DecodeErrorView> {
    if exists|i: int| is_first_part_fault(entries, i) {
        Err(part_fault_at(entries, choose|i: int| is_first_part_fault(entries, i))->0)
    } else if !exists|i: int| is_last_of(entries, Field::Hour, i) {
        Err(DecodeErrorView { field: Field::Hour, fault: FaultView::Missing })
    } else if !exists|i: int| is_last_of(entries, Field::Minute, i) {
        Err(DecodeErrorView { field: Field::Minute, fault: FaultView::Missing })
    } else {
        Ok(
            ClockTime {
                hour: last_part(entries, Field::Hour),
                minute: last_part(entries, Field::Minute),
            },
        )
    }
}

/// The time that a received value denotes. The text form is tried first,
/// then the record; no other shape is a time.
pub open spec fn clock_of_wire(value: Wire) -> Result<ClockTime, DecodeErrorView> {
    match value {
        Wire::Text(text) => clock_of_text(text@),
        Wire::Record(entries) => clock_of_fields(entries@),
        _ => Err(value.wrong_shape_of(Field::Time)),
    }
}

/// What the entries before `n` say of `part`: nothing, or the byte of the
/// last of them that gives it.
pub open spec fn part_so_far(entries: Seq<Entry>, part: Field, n: int, seen: Option<u8>) -> bool {
    match seen {
        None => forall|j: int| 0 <= j < n ==> #[trigger] part_at(entries, j) != Some(part),
        Some(byte) => exists|k: int|
            {
                &&& 0 <= k < n
                &&& #[trigger] part_at(entries, k) == Some(part)
                &&& entries[k].value.byte_of(part) == Ok::<u8, DecodeErrorView>(byte)
                &&& forall|j: int| k < j < n ==> #[trigger] part_at(entries, j) != Some(part)
            },
    }
}

/// What the entries of a whole record say of a part is what its last entry
/// of that part says.
pub proof fn lemma_part_found(entries: Seq<Entry>, part: Field, seen: Option<u8>)
    requires
        part_so_far(entries, part, entries.len() as int, seen),
    ensures
        match seen {
            None => !exists|i: int| is_last_of(entries, part, i),
            Some(byte) => (exists|i: int| is_last_of(entries, part, i)) && last_part(
                entries,
                part,
            ) == byte,
        },
{
    if seen is Some {
        let k = choose|k: int|
            {
                &&& 0 <= k < entries.len()
                &&& #[trigger] part_at(entries, k) == Some(part)
                &&& entries[k].value.byte_of(part) == Ok::<u8, DecodeErrorView>(seen->0)
                &&& forall|j: int|
                    k < j < entries.len() ==> #[trigger] part_at(entries, j) != Some(part)
            };
        assert(is_last_of(entries, part, k));
    }
}

/// The first entry at fault as a part of a time is the only place that is
/// one.
pub proof fn lemma_first_part_fault_unique(entries: Seq<Entry>, i: int)
    requires
        is_first_part_fault(entries, i),
    ensures
        (choose|k: int| is_first_part_fault(entries, k)) == i,
{
}

impl ClockTime {
    /// Reads a time from the entries of a record.
    pub fn from_fields(entries: &Vec<Entry>) -> (time: Result<ClockTime, DecodeError>)
        ensures
            error_view(time) == clock_of_fields(entries@),
    {
        let mut hour: Option<u8> = None;
        let mut minute: Option<u8> = None;
        let mut i: usize = 0;
        while i < entries.len()
            invariant
                i <= entries.len(),
                forall|j: int| 0 <= j < i ==> #[trigger] part_fault_at(entries@, j) is None,
                part_so_far(entries@, Field::Hour, i as int, hour),
                part_so_far(entries@, Field::Minute, i as int, minute),
            decreases entries.len() - i,
        {
            let entry = &entries[i];
            let ghost before_hour = hour;
            let ghost before_minute = minute;
            if Field::Hour.accepts(entry.key.as_str()) {
                match entry.value.as_byte(Field::Hour) {
                    Ok(byte) => {
                        hour = Some(byte);
                    },
                    Err(error) => {
                        proof {
                            lemma_first_part_fault_unique(entries@, i as int);
                        }
                        return Err(error);
                    },
                }
            } else if Field::Minute.accepts(entry.key.as_str()) {
                match entry.value.as_byte(Field::Minute) {
                    Ok(byte) => {
                        minute = Some(byte);
                    },
                    Err(error) => {
                        proof {
                            lemma_first_part_fault_unique(entries@, i as int);
                        }
                        return Err(error);
                    },
                }
            }
            proof {
                lemma_part_step(entries@, Field::Hour, i as int, before_hour, hour);
                lemma_part_step(entries@, Field::Minute, i as int, before_minute, minute);
            }
            i = i + 1;
        }
        proof {
            lemma_part_found(entries@, Field::Hour, hour);
            lemma_part_found(entries@, Field::Minute, minute);
        }
        let hour = match hour {
            Some(hour) => hour,
            None => {
                return Err(DecodeError { field: Field::Hour, fault: Fault::Missing });
            },
        };
        let minute = match minute {
            Some(minute) => minute,
            None => {
                return Err(DecodeError { field: Field::Minute, fault: Fault::Missing });
            },
        };
        Ok(ClockTime { hour, minute })
    }

    /// Reads a time from a received value in either of its two shapes.
    pub fn from_wire(value: &Wire) -> (time: Result<ClockTime, DecodeError>)
        ensures
            error_view(time) == clock_of_wire(*value),
    {
        match value {
            Wire::Text(text) => ClockTime::from_text(text.as_str()),
            Wire::Record(entries) => ClockTime::from_fields(entries),
            _ => Err(value.wrong_shape(Field::Time)),
        }
    }
}

/// A time as text: the hours and the minutes, each zero-filled to a width of
/// its own, with a colon between them.
pub open spec fn clock_text(time: ClockTime, hour_width: nat, minute_width: nat) -> Seq<char> {
    padded_decimal(time.hour as nat, hour_width) + seq![':'] + padded_decimal(
        time.minute as nat,
        minute_width,
    )
}

/// A time written as text reads back as itself, whatever the widths.
pub proof fn lemma_written_time_reads_back(time: ClockTime, hour_width: nat, minute_width: nat)
    ensures
        clock_of_text(clock_text(time, hour_width, minute_width)) == Ok::<
            ClockTime,
            DecodeErrorView,
        >(time),
{
    let hours = padded_decimal(time.hour as nat, hour_width);
    let minutes = padded_decimal(time.minute as nat, minute_width);
    let text = clock_text(time, hour_width, minute_width);
    lemma_written_number_reads_back(time.hour as nat, hour_width, 255);
    lemma_written_number_reads_back(time.minute as nat, minute_width, 255);
    let k = hours.len() as int;
    lemma_first_colon_unique(text, k);
    assert(text.subrange(0, k) =~= hours);
    assert(text.subrange(k + 1, text.len() as int) =~= minutes);
}

/// The two shapes of a time agree: the text of a time, and the record that
/// gives its hours and its minutes, decode to that time.
pub proof fn lemma_time_shapes_agree(
    time: ClockTime,
    hour_width: nat,
    minute_width: nat,
    written: Wire,
    record: Wire,
)
    requires
        written matches Wire::Text(text) && text@ == clock_text(time, hour_width, minute_width),
        record matches Wire::Record(entries) && entries@.len() == 2 && entries@[0].key@
            == "hour"@ && entries@[0].value == Wire::Integer(time.hour as i128)
            && entries@[1].key@ == "minute"@ && entries@[1].value == Wire::Integer(
            time.minute as i128,
        ),
    ensures
        clock_of_wire(written) == Ok::<ClockTime, DecodeErrorView>(time),
        clock_of_wire(record) == Ok::<ClockTime, DecodeErrorView>(time),
{
    lemma_written_time_reads_back(time, hour_width, minute_width);
    let entries = record->Record_0@;
    reveal_strlit("hour");
    reveal_strlit("minute");
    assert("hour"@.len() == 4 && "minute"@.len() == 6);
    assert(part_at(entries, 0) == Some(Field::Hour));
    assert(part_at(entries, 1) == Some(Field::Minute));
    lemma_part_found(entries, Field::Hour, Some(time.hour));
    lemma_part_found(entries, Field::Minute, Some(time.minute));
}

/// One more entry either gives `part`, and then counts as the last seen, or
/// leaves what was seen as it was.
proof fn lemma_part_step(
    entries: Seq<Entry>,
    part: Field,
    n: int,
    before: Option<u8>,
    after: Option<u8>,
)
    requires
        0 <= n < entries.len(),
        part_so_far(entries, part, n, before),
        part_at(entries, n) == Some(part) ==> entries[n].value.byte_of(part) == Ok::<
            u8,
            DecodeErrorView,
        >(after->0) && after is Some,
        part_at(entries, n) != Some(part) ==> after == before,
    ensures
        part_so_far(entries, part, n + 1, after),
{
    if part_at(entries, n) != Some(part) && before is None {
        assert forall|j: int| 0 <= j < n + 1 implies #[trigger] part_at(entries, j) != Some(
            part,
        ) by {}
    }
}

} // verus!
