//! The illuminated part of the moon in percent, read from its text form: a
//! numeral, with or without one percent sign behind it.

use crate::fault::{error_view, DecodeError, DecodeErrorView, Fault, FaultView};
use crate::field::Field;
use crate::text::{
    chars_of, decimal, is_digit, lemma_decimal_denotes, lemma_written_number_reads_back,
    numeral_digits, numeral_u8, parse_u8,
};
use crate::wire::Wire;
use vstd::prelude::*;

verus! {

/// `s` without the percent sign at its end, if it ends in one. No more than
/// that one sign is taken off.
pub open spec fn without_percent_sign(s: Seq<char>) -> Seq<char> {
    if s.len() > 0 && s.last() == '%' {
        s.drop_last()
    } else {
        s
    }
}

/// The error of a percentage that is at fault.
pub open spec fn percent_error(fault: FaultView) -> DecodeErrorView {
    DecodeErrorView { field: Field::PercentIlluminated, fault }
}

/// The percentage that the text `s` denotes: what stands before the one
/// percent sign that may end it, read as the numeral of a byte. All of that
/// rest must be the numeral, so a text that ends in two percent signs denotes
/// none. No bound but the width of a byte is put on the number.
pub open spec fn percent_of_text(s: Seq<char>) -> Result<u8, DecodeErrorView> {
    match numeral_u8(without_percent_sign(s)) {
        Some(percent) => Ok(percent),
        None => Err(percent_error(FaultView::InvalidPercent { raw: s })),
    }
}

/// Reads a percentage from its text form, such as `87%` or `87`.
pub fn percent_from_text(text: &str) -> (percent: Result<u8, DecodeError>)
    ensures
        error_view(percent) == percent_of_text(text@),
{
    let chars = chars_of(text);
    let mut end: usize = chars.len();
    if end > 0 && chars[end - 1] == '%' {
        end = end - 1;
    }
    assert(chars@.subrange(0, end as int) =~= without_percent_sign(chars@));
    match parse_u8(&chars, 0, end) {
        Some(percent) => Ok(percent),
        None => Err(
            DecodeError {
                field: Field::PercentIlluminated,
                fault: Fault::InvalidPercent { raw: String::from_str(text) },
            },
        ),
    }
}

/// The percentage that a received value denotes. A bare number is tried
/// first and taken as it is, if it is a byte; then the text form; no other
/// shape is a percentage.
pub open spec fn percent_of_wire(value: Wire) -> Result<u8, DecodeErrorView> {
    match value {
        Wire::Integer(_) => value.byte_of(Field::PercentIlluminated),
        Wire::Text(text) => percent_of_text(text@),
        _ => Err(value.wrong_shape_of(Field::PercentIlluminated)),
    }
}

/// A percentage as text: the number in decimal, with a percent sign behind
/// it or without.
pub open spec fn percent_text(percent: u8, signed: bool) -> Seq<char> {
    if signed {
        decimal(percent as nat).push('%')
    } else {
        decimal(percent as nat)
    }
}

/// A text denotes a percentage exactly when it is, or is with one percent
/// sign taken off its end, the numeral of that byte; else it is at fault,
/// and the error holds the text as it was.
pub proof fn lemma_percent_text_decodes(s: Seq<char>, percent: u8)
    ensures
        percent_of_text(s) == Ok::<u8, DecodeErrorView>(percent) <==> numeral_u8(
            without_percent_sign(s),
        ) == Some(percent),
        percent_of_text(s) is Err ==> percent_of_text(s) == Err::<u8, DecodeErrorView>(
            percent_error(FaultView::InvalidPercent { raw: s }),
        ),
        s.len() >= 2 && s[s.len() - 1] == '%' && s[s.len() - 2] == '%' ==> percent_of_text(s)
            is Err,
{
    if s.len() >= 2 && s[s.len() - 1] == '%' && s[s.len() - 2] == '%' {
        let rest = without_percent_sign(s);
        let digits = numeral_digits(rest);
        assert(rest.last() == '%');
        if digits.len() > 0 {
            assert(digits[digits.len() - 1] == '%');
            assert(!is_digit(digits[digits.len() - 1]));
        }
    }
}

/// The two shapes of a percentage agree: a bare number and the same number
/// written out, with a percent sign behind it or without, decode to that
/// number.
pub proof fn lemma_percent_shapes_agree(percent: u8, signed: bool, bare: Wire, written: Wire)
    requires
        bare == Wire::Integer(percent as i128),
        written matches Wire::Text(text) && text@ == percent_text(percent, signed),
    ensures
        percent_of_wire(bare) == Ok::<u8, DecodeErrorView>(percent),
        percent_of_wire(written) == Ok::<u8, DecodeErrorView>(percent),
{
    let body = decimal(percent as nat);
    lemma_decimal_denotes(percent as nat);
    lemma_written_number_reads_back(percent as nat, 0, 255);
    assert(is_digit(body[body.len() - 1]));
    if signed {
        assert(body.push('%').drop_last() =~= body);
    }
}

/// Reads a percentage from a received value in either of its two shapes.
pub fn percent_from_wire(value: &Wire) -> (percent: Result<u8, DecodeError>)
    ensures
        error_view(percent) == percent_of_wire(*value),
{
    match value {
        Wire::Integer(_) => value.as_byte(Field::PercentIlluminated),
        Wire::Text(text) => percent_from_text(text.as_str()),
        _ => Err(value.wrong_shape(Field::PercentIlluminated)),
    }
}

} // verus!
