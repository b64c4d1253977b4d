//! A response as it was received: a tree of values in the seven shapes the
//! service uses, and the lookup of a field in a record under either of its
//! spellings.

use crate::fault::{error_view, DecodeError, DecodeErrorView, Fault, FaultView, Shape};
use crate::field::Field;
use crate::text::{push_signed_decimal, signed_decimal};
use vstd::prelude::*;

verus! {

/// A received value.
#[derive(Debug, PartialEq, Eq)]
pub enum Wire {
    Null,
    Flag(bool),
    /// A number without a fractional part.
    Integer(i128),
    /// A number written with a fractional part. `raw` is the number as it
    /// was received. Taken as a count of hours it is split in two, both of
    /// the number's own sign: `whole` is its whole hours, with the fractional
    /// part cut off, and `minutes` is that fractional part in minutes, sixty
    /// to the hour, cut off toward zero in turn.
    Fraction { whole: i8, minutes: i8, raw: String },
    Text(String),
    List(Vec<Wire>),
    /// The entries of a record, in the order received. A key may occur more
    /// than once.
    Record(Vec<Entry>),
}

/// One entry of a record.
#[derive(Debug, PartialEq, Eq)]
pub struct Entry {
    pub key: String,
    pub value: Wire,
}

impl Wire {
    /// The shape of the value.
    pub open spec fn shape_of(self) -> Shape {
        match self {
            Wire::Null => Shape::Null,
            Wire::Flag(_) => Shape::Flag,
            Wire::Integer(_) => Shape::Integer,
            Wire::Fraction { .. } => Shape::Fraction,
            Wire::Text(_) => Shape::Text,
            Wire::List(_) => Shape::List,
            Wire::Record(_) => Shape::Record,
        }
    }

    /// The shape of the value.
    pub fn shape(&self) -> (shape: Shape)
        ensures
            shape == self.shape_of(),
    {
        match self {
            Wire::Null => Shape::Null,
            Wire::Flag(_) => Shape::Flag,
            Wire::Integer(_) => Shape::Integer,
            Wire::Fraction { .. } => Shape::Fraction,
            Wire::Text(_) => Shape::Text,
            Wire::List(_) => Shape::List,
            Wire::Record(_) => Shape::Record,
        }
    }

    /// The value as a message shows it: a text or a fractional number as it
    /// was received, a whole number in decimal, a list or a record in
    /// outline.
    pub open spec fn shown_text(self) -> Seq<char> {
        match self {
            Wire::Null => "null"@,
            Wire::Flag(flag) => if flag {
                "true"@
            } else {
                "false"@
            },
            Wire::Integer(value) => signed_decimal(value as int),
            Wire::Fraction { raw, .. } => raw@,
            Wire::Text(text) => text@,
            Wire::List(_) => "[..]"@,
            Wire::Record(_) => "{..}"@,
        }
    }

    /// Shows the value for a message.
    pub fn shown(&self) -> (shown: String)
        ensures
            shown@ == self.shown_text(),
    {
        match self {
            Wire::Null => String::from_str("null"),
            Wire::Flag(flag) => if *flag {
                String::from_str("true")
            } else {
                String::from_str("false")
            },
            Wire::Integer(value) => {
                let mut shown = String::new();
                push_signed_decimal(&mut shown, *value);
                shown
            },
            Wire::Fraction { raw, .. } => raw.clone(),
            Wire::Text(text) => text.clone(),
            Wire::List(_) => String::from_str("[..]"),
            Wire::Record(_) => String::from_str("{..}"),
        }
    }

    /// The error of a value whose shape `field` does not take.
    pub open spec fn wrong_shape_of(self, field: Field) -> DecodeErrorView {
        DecodeErrorView {
            field,
            fault: FaultView::WrongShape { found: self.shape_of(), raw: self.shown_text() },
        }
    }

    /// The error of a value whose shape `field` does not take.
    pub fn wrong_shape(&self, field: Field) -> (error: DecodeError)
        ensures
            error@ == self.wrong_shape_of(field),
    {
        DecodeError { field, fault: Fault::WrongShape { found: self.shape(), raw: self.shown() } }
    }
}

impl Wire {
    /// The error of a number that does not fit `field`.
    pub open spec fn out_of_range(field: Field, value: i128) -> DecodeErrorView {
        DecodeErrorView { field, fault: FaultView::OutOfRange { value } }
    }

    /// The value as the number of `field`, which takes a whole number from 0
    /// to `max`.
    pub open spec fn number_of(self, field: Field, max: int) -> Result<int, DecodeErrorView> {
        match self {
            Wire::Integer(value) => if 0 <= value <= max {
                Ok(value as int)
            } else {
                Err(Wire::out_of_range(field, value))
            },
            _ => Err(self.wrong_shape_of(field)),
        }
    }

    /// The value as the byte of `field`.
    pub open spec fn byte_of(self, field: Field) -> Result<u8, DecodeErrorView> {
        match self.number_of(field, 255) {
            Ok(value) => Ok(value as u8),
            Err(error) => Err(error),
        }
    }

    /// The value as the 16-bit number of `field`.
    pub open spec fn short_of(self, field: Field) -> Result<u16, DecodeErrorView> {
        match self.number_of(field, 65535) {
            Ok(value) => Ok(value as u16),
            Err(error) => Err(error),
        }
    }

    /// The value as the text of `field`.
    pub open spec fn text_of(self, field: Field) -> Result<Seq<char>, DecodeErrorView> {
        match self {
            Wire::Text(text) => Ok(text@),
            _ => Err(self.wrong_shape_of(field)),
        }
    }

    /// The value as the list of `field`.
    pub open spec fn items_of(self, field: Field) -> Result<Seq<Wire>, DecodeErrorView> {
        match self {
            Wire::List(items) => Ok(items@),
            _ => Err(self.wrong_shape_of(field)),
        }
    }

    /// The value as the record of `field`.
    pub open spec fn entries_of(self, field: Field) -> Result<Seq<Entry>, DecodeErrorView> {
        match self {
            Wire::Record(entries) => Ok(entries@),
            _ => Err(self.wrong_shape_of(field)),
        }
    }

    /// Reads the value as the byte of `field`.
    pub fn as_byte(&self, field: Field) -> (byte: Result<u8, DecodeError>)
        ensures
            error_view(byte) == self.byte_of(field),
    {
        match self {
            Wire::Integer(value) => {
                if 0 <= *value && *value <= 255 {
                    Ok(*value as u8)
                } else {
                    Err(DecodeError { field, fault: Fault::OutOfRange { value: *value } })
                }
            },
            _ => Err(self.wrong_shape(field)),
        }
    }

    /// Reads the value as the 16-bit number of `field`.
    pub fn as_short(&self, field: Field) -> (short: Result<u16, DecodeError>)
        ensures
            error_view(short) == self.short_of(field),
    {
        match self {
            Wire::Integer(value) => {
                if 0 <= *value && *value <= 65535 {
                    Ok(*value as u16)
                } else {
                    Err(DecodeError { field, fault: Fault::OutOfRange { value: *value } })
                }
            },
            _ => Err(self.wrong_shape(field)),
        }
    }

    /// Reads the value as the text of `field`.
    pub fn as_text<'a>(&'a self, field: Field) -> (text: Result<&'a String, DecodeError>)
        ensures
            match text {
                Ok(found) => self.text_of(field) == Ok::<Seq<char>, DecodeErrorView>(found@),
                Err(error) => self.text_of(field) == Err::<Seq<char>, DecodeErrorView>(error@),
            },
    {
        match self {
            Wire::Text(text) => Ok(text),
            _ => Err(self.wrong_shape(field)),
        }
    }

    /// Reads the value as the list of `field`.
    pub fn as_list<'a>(&'a self, field: Field) -> (items: Result<&'a Vec<Wire>, DecodeError>)
        ensures
            match items {
                Ok(found) => self.items_of(field) == Ok::<Seq<Wire>, DecodeErrorView>(found@),
                Err(error) => self.items_of(field) == Err::<Seq<Wire>, DecodeErrorView>(error@),
            },
    {
        match self {
            Wire::List(items) => Ok(items),
            _ => Err(self.wrong_shape(field)),
        }
    }

    /// Reads the value as the record of `field`.
    pub fn as_record<'a>(&'a self, field: Field) -> (entries: Result<&'a Vec<Entry>, DecodeError>)
        ensures
            match entries {
                Ok(found) => self.entries_of(field) == Ok::<Seq<Entry>, DecodeErrorView>(found@),
                Err(error) => self.entries_of(field) == Err::<Seq<Entry>, DecodeErrorView>(
                    error@,
                ),
            },
    {
        match self {
            Wire::Record(entries) => Ok(entries),
            _ => Err(self.wrong_shape(field)),
        }
    }
}

/// Whether the entry at `i` is one of `field`, under either spelling.
pub open spec fn holds_at(entries: Seq<Entry>, field: Field, i: int) -> bool {
    0 <= i < entries.len() && field.accepts_text(entries[i].key@)
}

/// Whether the entry at `i` is the only one of `field`.
pub open spec fn only_at(entries: Seq<Entry>, field: Field, i: int) -> bool {
    &&& holds_at(entries, field, i)
    &&& forall|j: int| j != i ==> !#[trigger] holds_at(entries, field, j)
}

/// The value of `field` in a record: that of its one entry. A record
/// without an entry of the field is at fault, and so is one with two, be
/// they under one spelling or under both.
pub open spec fn value_of(entries: Seq<Entry>, field: Field) -> Result<Wire, DecodeErrorView> {
    if forall|i: int| !#[trigger] holds_at(entries, field, i) {
        Err(DecodeErrorView { field, fault: FaultView::Missing })
    } else if exists|i: int| only_at(entries, field, i) {
        Ok(entries[choose|i: int| only_at(entries, field, i)].value)
    } else {
        Err(DecodeErrorView { field, fault: FaultView::Duplicate })
    }
}

/// Looks `field` up in a record.
pub fn lookup<'a>(entries: &'a Vec<Entry>, field: Field) -> (value: Result<&'a Wire, DecodeError>)
    ensures
        match value {
            Ok(found) => value_of(entries@, field) == Ok::<Wire, DecodeErrorView>(*found),
            Err(error) => value_of(entries@, field) == Err::<Wire, DecodeErrorView>(error@),
        },
{
    let mut found: Option<usize> = None;
    let mut i: usize = 0;
    while i < entries.len()
        invariant
            i <= entries.len(),
            match found {
                Some(k) => k < i && holds_at(entries@, field, k as int) && forall|j: int|
                    0 <= j < i && j != k ==> !#[trigger] holds_at(entries@, field, j),
                None => forall|j: int| 0 <= j < i ==> !#[trigger] holds_at(entries@, field, j),
            },
        decreases entries.len() - i,
    {
        if field.accepts(entries[i].key.as_str()) {
            assert(holds_at(entries@, field, i as int));
            match found {
                Some(_) => {
                    return Err(DecodeError { field, fault: Fault::Duplicate });
                },
                None => {
                    found = Some(i);
                },
            }
        }
        i = i + 1;
    }
    match found {
        Some(k) => {
            assert(only_at(entries@, field, k as int));
            Ok(&entries[k].value)
        },
        None => Err(DecodeError { field, fault: Fault::Missing }),
    }
}

} // verus!
