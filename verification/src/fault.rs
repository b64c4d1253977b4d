//! What can be wrong with a response: the field at fault, the fault, and the
//! offending value as it was received.

use crate::field::Field;
use crate::text::{push_signed_decimal, signed_decimal};
use vstd::prelude::*;

verus! {

/// The shape of a received value.
#[derive(Clone, Copy, Debug, PartialEq, Eq, Structural)]
pub enum Shape {
    Null,
    Flag,
    Integer,
    Fraction,
    Text,
    List,
    Record,
}

impl Shape {
    /// The word for the shape in a message.
    pub open spec fn word_text(self) -> Seq<char> {
        match self {
            Shape::Null => "null"@,
            Shape::Flag => "flag"@,
            Shape::Integer => "integer"@,
            Shape::Fraction => "fraction"@,
            Shape::Text => "text"@,
            Shape::List => "list"@,
            Shape::Record => "record"@,
        }
    }

    /// The word for the shape in a message.
    pub fn word(self) -> (word: &'static str)
        ensures
            word@ == self.word_text(),
    {
        match self {
            Shape::Null => "null",
            Shape::Flag => "flag",
            Shape::Integer => "integer",
            Shape::Fraction => "fraction",
            Shape::Text => "text",
            Shape::List => "list",
            Shape::Record => "record",
        }
    }
}

/// What is wrong with the value of a field.
#[derive(Clone, Debug, PartialEq, Eq)]
pub enum Fault {
    /// The field is absent.
    Missing,
    /// The field is given twice, under one spelling or under both.
    Duplicate,
    /// The value has a shape that the field does not take. `raw` shows the
    /// value: a text or a number as it was received, a list or a record in
    /// outline.
    WrongShape { found: Shape, raw: String },
    /// The number does not fit the field.
    OutOfRange { value: i128 },
    /// The time has no colon between hours and minutes.
    MissingColon { raw: String },
    /// What stands before the colon of the time is not a number of hours.
    InvalidHour { raw: String },
    /// What stands after the colon of the time is not a number of minutes.
    InvalidMinute { raw: String },
    /// What stands before the percent signs is not a number.
    InvalidPercent { raw: String },
    /// The text names no phase or event.
    UnknownName { raw: String },
}

/// A fault, with the offending text as a sequence of characters.
pub enum FaultView {
    Missing,
    Duplicate,
    WrongShape { found: Shape, raw: Seq<char> },
    OutOfRange { value: i128 },
    MissingColon { raw: Seq<char> },
    InvalidHour { raw: Seq<char> },
    InvalidMinute { raw: Seq<char> },
    InvalidPercent { raw: Seq<char> },
    UnknownName { raw: Seq<char> },
}

impl View for Fault {
    type V = FaultView;

    open spec fn view(&self) -> FaultView {
        match *self {
            Fault::Missing => FaultView::Missing,
            Fault::Duplicate => FaultView::Duplicate,
            Fault::WrongShape { found, raw } => FaultView::WrongShape { found, raw: raw@ },
            Fault::OutOfRange { value } => FaultView::OutOfRange { value },
            Fault::MissingColon { raw } => FaultView::MissingColon { raw: raw@ },
            Fault::InvalidHour { raw } => FaultView::InvalidHour { raw: raw@ },
            Fault::InvalidMinute { raw } => FaultView::InvalidMinute { raw: raw@ },
            Fault::InvalidPercent { raw } => FaultView::InvalidPercent { raw: raw@ },
            Fault::UnknownName { raw } => FaultView::UnknownName { raw: raw@ },
        }
    }
}

impl FaultView {
    /// What a message says of the fault: what is wrong, then the offending
    /// value.
    pub open spec fn text(self) -> Seq<char> {
        match self {
            FaultView::Missing => "missing"@,
            FaultView::Duplicate => "given twice"@,
            FaultView::WrongShape { found, raw } => "unexpected "@ + found.word_text() + ": "@
                + raw,
            FaultView::OutOfRange { value } => "out of range: "@ + signed_decimal(value as int),
            FaultView::MissingColon { raw } => "time missing colon: "@ + raw,
            FaultView::InvalidHour { raw } => "invalid hour: "@ + raw,
            FaultView::InvalidMinute { raw } => "invalid minute: "@ + raw,
            FaultView::InvalidPercent { raw } => "failed to parse percent: "@ + raw,
            FaultView::UnknownName { raw } => "unknown name: "@ + raw,
        }
    }
}

/// A response that could not be decoded: the field at fault and what is
/// wrong with it.
#[derive(Clone, Debug, PartialEq, Eq)]
pub struct DecodeError {
    pub field: Field,
    pub fault: Fault,
}

/// A decoding error, with the offending text as a sequence of characters.
pub struct DecodeErrorView {
    pub field: Field,
    pub fault: FaultView,
}

impl View for DecodeError {
    type V = DecodeErrorView;

    open spec fn view(&self) -> DecodeErrorView {
        DecodeErrorView { field: self.field, fault: self.fault@ }
    }
}

impl DecodeErrorView {
    /// The message of the error: the field's name, a colon, what is wrong,
    /// and the offending value.
    pub open spec fn message_text(self) -> Seq<char> {
        self.field.name_text() + ": "@ + self.fault.text()
    }
}

impl DecodeError {
    /// A description of the error for a reader: the field's name, what is
    /// wrong with it, and the offending value.
    pub fn message(&self) -> (message: String)
        ensures
            message@ == self@.message_text(),
    {
        let mut message = String::from_str(self.field.name());
        message.append(": ");
        match &self.fault {
            Fault::Missing => {
                message.append("missing");
            },
            Fault::Duplicate => {
                message.append("given twice");
            },
            Fault::WrongShape { found, raw } => {
                message.append("unexpected ");
                message.append(found.word());
                message.append(": ");
                message.append(raw.as_str());
            },
            Fault::OutOfRange { value } => {
                message.append("out of range: ");
                push_signed_decimal(&mut message, *value);
            },
            Fault::MissingColon { raw } => {
                message.append("time missing colon: ");
                message.append(raw.as_str());
            },
            Fault::InvalidHour { raw } => {
                message.append("invalid hour: ");
                message.append(raw.as_str());
            },
            Fault::InvalidMinute { raw } => {
                message.append("invalid minute: ");
                message.append(raw.as_str());
            },
            Fault::InvalidPercent { raw } => {
                message.append("failed to parse percent: ");
                message.append(raw.as_str());
            },
            Fault::UnknownName { raw } => {
                message.append("unknown name: ");
                message.append(raw.as_str());
            },
        }
        message
    }
}

/// A result with its error taken by its view.
pub open spec fn error_view<T>(result: Result<T, DecodeError>) -> Result<T, DecodeErrorView> {
    match result {
        Ok(value) => Ok(value),
        Err(error) => Err(error@),
    }
}

/// A result with its value and its error taken by their views.
pub open spec fn result_view<T: View>(result: Result<T, DecodeError>) -> Result<
    T::V,
    DecodeErrorView,
> {
    match result {
        Ok(value) => Ok(value@),
        Err(error) => Err(error@),
    }
}

} // verus!
