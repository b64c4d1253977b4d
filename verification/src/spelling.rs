//! Decoding does not depend on which of its spellings a field is received
//! under: two responses that differ in nothing else decode to the same.

use crate::clock::{
    clock_of_fields, clock_of_wire, is_first_part_fault, is_last_of, last_part,
    lemma_first_part_fault_unique, part_at, part_fault_at,
};
use crate::decode::{
    byte_in, clock_in, closest_phase_of, event_of, event_of_wire, events_of, list_in,
    one_day_data_of, one_day_of_wire, percent_in, phase_entries_of, phase_entry_of,
    phase_entry_of_wire, phase_in, phase_of_wire, phases_of_wire, phenomenon_in,
    phenomenon_of_wire, record_in, short_in, text_in, tz_in, tz_of_wire,
};
use crate::fault::DecodeErrorView;
use crate::field::Field;
use crate::percent::percent_of_wire;
use crate::wire::{holds_at, only_at, value_of, Entry, Wire};
use vstd::prelude::*;

verus! {

/// Whether two keys spell the same fields: each field that accepts one
/// accepts the other.
pub open spec fn same_class(a: Seq<char>, b: Seq<char>) -> bool {
    forall|field: Field| #[trigger] field.accepts_text(a) == field.accepts_text(b)
}

/// Whether two received values differ at most in the spelling of the keys
/// of their records, at any depth.
pub open spec fn alike(x: Wire, y: Wire) -> bool
    decreases x,
{
    match (x, y) {
        (Wire::Record(a), Wire::Record(b)) => a@.len() == b@.len() && forall|i: int|
            0 <= i < a@.len() ==> same_class((#[trigger] a@[i]).key@, b@[i].key@) && alike(
                a@[i].value,
                b@[i].value,
            ),
        (Wire::List(a), Wire::List(b)) => a@.len() == b@.len() && forall|i: int|
            0 <= i < a@.len() ==> alike(#[trigger] a@[i], b@[i]),
        (Wire::Text(s), Wire::Text(t)) => s@ == t@,
        (
            Wire::Fraction { whole: w, minutes: m, raw: r },
            Wire::Fraction { whole: v, minutes: n, raw: q },
        ) => w == v && m == n && r@ == q@,
        _ => x == y,
    }
}

/// Whether the entries of two records differ at most in spelling.
pub open spec fn entries_alike(a: Seq<Entry>, b: Seq<Entry>) -> bool {
    a.len() == b.len() && forall|i: int|
        0 <= i < a.len() ==> same_class((#[trigger] a[i]).key@, b[i].key@) && alike(
            a[i].value,
            b[i].value,
        )
}

/// Whether the items of two lists differ at most in spelling.
pub open spec fn items_alike(a: Seq<Wire>, b: Seq<Wire>) -> bool {
    a.len() == b.len() && forall|i: int| 0 <= i < a.len() ==> alike(#[trigger] a[i], b[i])
}

/// Whether two results of the entries of a record are the same error, or
/// entries that differ at most in spelling.
pub open spec fn entries_results_alike(
    a: Result<Seq<Entry>, DecodeErrorView>,
    b: Result<Seq<Entry>, DecodeErrorView>,
) -> bool {
    match a {
        Err(error) => b == Err::<Seq<Entry>, DecodeErrorView>(error),
        Ok(entries) => b is Ok && entries_alike(entries, b->Ok_0),
    }
}

/// Whether two results of the items of a list are the same error, or items
/// that differ at most in spelling.
pub open spec fn items_results_alike(
    a: Result<Seq<Wire>, DecodeErrorView>,
    b: Result<Seq<Wire>, DecodeErrorView>,
) -> bool {
    match a {
        Err(error) => b == Err::<Seq<Wire>, DecodeErrorView>(error),
        Ok(items) => b is Ok && items_alike(items, b->Ok_0),
    }
}

/// Whether two results of a lookup are the same error, or values that
/// differ at most in spelling.
pub open spec fn values_alike(
    a: Result<Wire, DecodeErrorView>,
    b: Result<Wire, DecodeErrorView>,
) -> bool {
    match a {
        Err(error) => b == Err::<Wire, DecodeErrorView>(error),
        Ok(value) => b is Ok && alike(value, b->Ok_0),
    }
}

/// The two spellings of a field are of one class.
pub proof fn lemma_spellings_of_a_field(field: Field)
    ensures
        field.alias_text() matches Some(alias) ==> same_class(field.name_text(), alias)
            && same_class(alias, field.name_text()),
{
    field.lemma_alias_same_class();
}

/// A value differs from itself in nothing.
pub proof fn lemma_alike_reflexive(x: Wire)
    ensures
        alike(x, x),
    decreases x,
{
    match x {
        Wire::Record(a) => {
            assert forall|i: int| 0 <= i < a@.len() implies same_class(
                (#[trigger] a@[i]).key@,
                a@[i].key@,
            ) && alike(a@[i].value, a@[i].value) by {
                lemma_alike_reflexive(a@[i].value);
            }
        },
        Wire::List(a) => {
            assert forall|i: int| 0 <= i < a@.len() implies alike(#[trigger] a@[i], a@[i]) by {
                lemma_alike_reflexive(a@[i]);
            }
        },
        _ => {},
    }
}

/// A field is found in both of two records that differ in spelling, or in
/// neither.
pub proof fn lemma_lookup_alike(a: Seq<Entry>, b: Seq<Entry>, field: Field)
    requires
        entries_alike(a, b),
    ensures
        values_alike(value_of(a, field), value_of(b, field)),
{
    assert forall|i: int| holds_at(a, field, i) == holds_at(b, field, i) by {}
    assert forall|i: int| only_at(a, field, i) == only_at(b, field, i) by {}
}

/// Values that differ at most in spelling have one shape and are read alike
/// as numbers, texts, names, percentages and offsets, and their records and
/// lists differ at most in spelling in turn.
pub proof fn lemma_leaves_alike(x: Wire, y: Wire, field: Field)
    requires
        alike(x, y),
    ensures
        x.shape_of() == y.shape_of(),
        x.byte_of(field) == y.byte_of(field),
        x.short_of(field) == y.short_of(field),
        x.text_of(field) == y.text_of(field),
        phase_of_wire(x, field) == phase_of_wire(y, field),
        phenomenon_of_wire(x, field) == phenomenon_of_wire(y, field),
        tz_of_wire(x) == tz_of_wire(y),
        percent_of_wire(x) == percent_of_wire(y),
        entries_results_alike(x.entries_of(field), y.entries_of(field)),
        items_results_alike(x.items_of(field), y.items_of(field)),
{
}

/// Records that differ at most in spelling denote the same time.
pub proof fn lemma_clock_fields_alike(a: Seq<Entry>, b: Seq<Entry>)
    requires
        entries_alike(a, b),
    ensures
        clock_of_fields(a) == clock_of_fields(b),
{
    assert forall|i: int| 0 <= i < a.len() implies part_at(a, i) == part_at(b, i)
        && part_fault_at(a, i) == part_fault_at(b, i) by {
        lemma_leaves_alike(a[i].value, b[i].value, Field::Hour);
        lemma_leaves_alike(a[i].value, b[i].value, Field::Minute);
    }
    assert forall|i: int| is_first_part_fault(a, i) == is_first_part_fault(b, i) by {}
    if exists|i: int| is_first_part_fault(a, i) {
        lemma_first_part_fault_unique(b, choose|i: int| is_first_part_fault(a, i));
    } else {
        lemma_last_part_alike(a, b, Field::Hour);
        lemma_last_part_alike(a, b, Field::Minute);
    }
}

/// Records that differ at most in spelling, and in which no entry is at
/// fault as a part of a time, give a part in both or in neither, and the
/// same byte for it.
proof fn lemma_last_part_alike(a: Seq<Entry>, b: Seq<Entry>, part: Field)
    requires
        entries_alike(a, b),
        part == Field::Hour || part == Field::Minute,
        forall|i: int| 0 <= i < a.len() ==> part_at(a, i) == part_at(b, i),
    ensures
        (exists|i: int| is_last_of(a, part, i)) == (exists|i: int| is_last_of(b, part, i)),
        (exists|i: int| is_last_of(a, part, i)) ==> last_part(a, part) == last_part(b, part),
{
    assert forall|i: int| is_last_of(a, part, i) == is_last_of(b, part, i) by {}
    if exists|i: int| is_last_of(a, part, i) {
        let i = choose|i: int| is_last_of(a, part, i);
        lemma_leaves_alike(a[i].value, b[i].value, part);
    }
}

/// Values that differ at most in spelling denote the same time.
pub proof fn lemma_clock_alike(x: Wire, y: Wire)
    requires
        alike(x, y),
    ensures
        clock_of_wire(x) == clock_of_wire(y),
{
    lemma_leaves_alike(x, y, Field::Time);
    match (x, y) {
        (Wire::Record(a), Wire::Record(b)) => {
            lemma_clock_fields_alike(a@, b@);
        },
        _ => {},
    }
}

/// Each field of records that differ at most in spelling is read alike.
pub proof fn lemma_fields_alike(a: Seq<Entry>, b: Seq<Entry>, field: Field)
    requires
        entries_alike(a, b),
    ensures
        byte_in(a, field) == byte_in(b, field),
        short_in(a, field) == short_in(b, field),
        text_in(a, field) == text_in(b, field),
        phase_in(a, field) == phase_in(b, field),
        entries_results_alike(record_in(a, field), record_in(b, field)),
        items_results_alike(list_in(a, field), list_in(b, field)),
        clock_in(a) == clock_in(b),
        phenomenon_in(a) == phenomenon_in(b),
        percent_in(a) == percent_in(b),
        tz_in(a) == tz_in(b),
{
    lemma_lookup_alike(a, b, field);
    if value_of(a, field) is Ok {
        let x = value_of(a, field)->Ok_0;
        lemma_leaves_alike(x, value_of(b, field)->Ok_0, field);
    }
    lemma_lookup_alike(a, b, Field::Time);
    if value_of(a, Field::Time) is Ok {
        let x = value_of(a, Field::Time)->Ok_0;
        lemma_clock_alike(x, value_of(b, Field::Time)->Ok_0);
    }
    lemma_lookup_alike(a, b, Field::Phenomenon);
    if value_of(a, Field::Phenomenon) is Ok {
        let x = value_of(a, Field::Phenomenon)->Ok_0;
        lemma_leaves_alike(x, value_of(b, Field::Phenomenon)->Ok_0, Field::Phenomenon);
    }
    lemma_lookup_alike(a, b, Field::PercentIlluminated);
    if value_of(a, Field::PercentIlluminated) is Ok {
        let x = value_of(a, Field::PercentIlluminated)->Ok_0;
        lemma_leaves_alike(
            x,
            value_of(b, Field::PercentIlluminated)->Ok_0,
            Field::PercentIlluminated,
        );
    }
    lemma_lookup_alike(a, b, Field::Tz);
    if value_of(a, Field::Tz) is Ok {
        let x = value_of(a, Field::Tz)->Ok_0;
        lemma_leaves_alike(x, value_of(b, Field::Tz)->Ok_0, Field::Tz);
    }
}

/// Records that differ at most in spelling denote the same nearest phase,
/// the same event and the same row of a list of phases.
pub proof fn lemma_small_records_alike(a: Seq<Entry>, b: Seq<Entry>)
    requires
        entries_alike(a, b),
    ensures
        closest_phase_of(a) == closest_phase_of(b),
        event_of(a) == event_of(b),
        phase_entry_of(a) == phase_entry_of(b),
{
    lemma_fields_alike(a, b, Field::Day);
    lemma_fields_alike(a, b, Field::Month);
    lemma_fields_alike(a, b, Field::Year);
    lemma_fields_alike(a, b, Field::Phase);
}

/// Lists that differ at most in spelling denote the same events and the
/// same rows.
pub proof fn lemma_lists_alike(a: Seq<Wire>, b: Seq<Wire>, field: Field)
    requires
        items_alike(a, b),
    ensures
        events_of(a, field) == events_of(b, field),
        phase_entries_of(a) == phase_entries_of(b),
{
    let events_a = Seq::new(a.len(), |i: int| event_of_wire(a[i], field));
    let events_b = Seq::new(b.len(), |i: int| event_of_wire(b[i], field));
    let rows_a = Seq::new(a.len(), |i: int| phase_entry_of_wire(a[i]));
    let rows_b = Seq::new(b.len(), |i: int| phase_entry_of_wire(b[i]));
    assert forall|i: int| 0 <= i < a.len() implies events_a[i] == events_b[i] && rows_a[i]
        == rows_b[i] by {
        lemma_leaves_alike(a[i], b[i], field);
        lemma_leaves_alike(a[i], b[i], Field::Phases);
        if a[i].entries_of(field) is Ok {
            let inner = a[i].entries_of(field)->Ok_0;
            lemma_small_records_alike(inner, b[i].entries_of(field)->Ok_0);
        }
        if a[i].entries_of(Field::Phases) is Ok {
            let inner = a[i].entries_of(Field::Phases)->Ok_0;
            lemma_small_records_alike(inner, b[i].entries_of(Field::Phases)->Ok_0);
        }
    }
    assert(events_a =~= events_b);
    assert(rows_a =~= rows_b);
}

/// Records that differ at most in spelling denote the same data of a day.
pub proof fn lemma_one_day_data_alike(a: Seq<Entry>, b: Seq<Entry>)
    requires
        entries_alike(a, b),
    ensures
        one_day_data_of(a) == one_day_data_of(b),
{
    lemma_fields_alike(a, b, Field::ClosestPhase);
    if record_in(a, Field::ClosestPhase) is Ok {
        let inner = record_in(a, Field::ClosestPhase)->Ok_0;
        lemma_small_records_alike(inner, record_in(b, Field::ClosestPhase)->Ok_0);
    }
    lemma_fields_alike(a, b, Field::CurrentPhase);
    lemma_fields_alike(a, b, Field::DayOfWeek);
    lemma_fields_alike(a, b, Field::MoonData);
    if list_in(a, Field::MoonData) is Ok {
        let items = list_in(a, Field::MoonData)->Ok_0;
        lemma_lists_alike(items, list_in(b, Field::MoonData)->Ok_0, Field::MoonData);
    }
    lemma_fields_alike(a, b, Field::SunData);
    if list_in(a, Field::SunData) is Ok {
        let items = list_in(a, Field::SunData)->Ok_0;
        lemma_lists_alike(items, list_in(b, Field::SunData)->Ok_0, Field::SunData);
    }
    lemma_fields_alike(a, b, Field::Month);
    lemma_fields_alike(a, b, Field::Day);
    lemma_fields_alike(a, b, Field::Year);
}

/// Spelling is immaterial: two responses that differ at most in which
/// spelling their fields are received under, at any depth, decode to the
/// same record, or fail with the same error.
pub proof fn lemma_spelling_is_immaterial(x: Wire, y: Wire)
    requires
        alike(x, y),
    ensures
        one_day_of_wire(x) == one_day_of_wire(y),
        phases_of_wire(x) == phases_of_wire(y),
{
    lemma_leaves_alike(x, y, Field::Response);
    if x.entries_of(Field::Response) is Ok {
        let a = x.entries_of(Field::Response)->Ok_0;
        let b = y.entries_of(Field::Response)->Ok_0;
        lemma_fields_alike(a, b, Field::Properties);
        if record_in(a, Field::Properties) is Ok {
            let pa = record_in(a, Field::Properties)->Ok_0;
            let pb = record_in(b, Field::Properties)->Ok_0;
            lemma_fields_alike(pa, pb, Field::Data);
            if record_in(pa, Field::Data) is Ok {
                let da = record_in(pa, Field::Data)->Ok_0;
                lemma_one_day_data_alike(da, record_in(pb, Field::Data)->Ok_0);
            }
        }
        lemma_fields_alike(a, b, Field::Count);
        lemma_fields_alike(a, b, Field::Phases);
        if list_in(a, Field::Phases) is Ok {
            let items = list_in(a, Field::Phases)->Ok_0;
            lemma_lists_alike(items, list_in(b, Field::Phases)->Ok_0, Field::Phases);
        }
    }
}

/// One spelling or the other: where one response gives a field of the
/// data of a day under its canonical spelling and another gives it under
/// its second spelling, and the two are the same in all else, they decode to
/// the same.
pub proof fn lemma_either_spelling_decodes_alike(
    a: Seq<Entry>,
    b: Seq<Entry>,
    at: int,
    field: Field,
)
    requires
        a.len() == b.len(),
        0 <= at < a.len(),
        field.alias_text() is Some,
        a[at].key@ == field.name_text(),
        b[at].key@ == field.alias_text()->0,
        a[at].value == b[at].value,
        forall|j: int| 0 <= j < a.len() && j != at ==> a[j] == b[j],
    ensures
        entries_alike(a, b),
        one_day_data_of(a) == one_day_data_of(b),
        closest_phase_of(a) == closest_phase_of(b),
        event_of(a) == event_of(b),
        phase_entry_of(a) == phase_entry_of(b),
{
    lemma_spellings_of_a_field(field);
    assert forall|i: int| 0 <= i < a.len() implies same_class((#[trigger] a[i]).key@, b[i].key@)
        && alike(a[i].value, b[i].value) by {
        lemma_alike_reflexive(a[i].value);
    }
    lemma_one_day_data_alike(a, b);
    lemma_small_records_alike(a, b);
}

/// One spelling or the other, for a whole response: where two responses
/// for a single day hold data that differ only in that one gives a field
/// under its canonical spelling and the other under its second spelling,
/// they decode to the same record, or fail with the same error.
pub proof fn lemma_either_spelling_of_a_response(
    x: Wire,
    y: Wire,
    a: Seq<Entry>,
    b: Seq<Entry>,
    at: int,
    field: Field,
)
    requires
        x.entries_of(Field::Response) is Ok,
        y.entries_of(Field::Response) is Ok,
        record_in(x.entries_of(Field::Response)->Ok_0, Field::Properties) is Ok,
        record_in(y.entries_of(Field::Response)->Ok_0, Field::Properties) is Ok,
        record_in(
            record_in(x.entries_of(Field::Response)->Ok_0, Field::Properties)->Ok_0,
            Field::Data,
        ) == Ok::<Seq<Entry>, DecodeErrorView>(a),
        record_in(
            record_in(y.entries_of(Field::Response)->Ok_0, Field::Properties)->Ok_0,
            Field::Data,
        ) == Ok::<Seq<Entry>, DecodeErrorView>(b),
        a.len() == b.len(),
        0 <= at < a.len(),
        field.alias_text() is Some,
        a[at].key@ == field.name_text(),
        b[at].key@ == field.alias_text()->0,
        a[at].value == b[at].value,
        forall|j: int| 0 <= j < a.len() && j != at ==> a[j] == b[j],
    ensures
        one_day_of_wire(x) == one_day_of_wire(y),
        one_day_of_wire(x) == one_day_data_of(a),
{
    lemma_either_spelling_decodes_alike(a, b, at, field);
}

} // verus!
