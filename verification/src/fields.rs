//! Reading one member of a request.
//!
//! What a request holds under a key is a string, a number or something
//! else, or nothing at all. A structural parameter has to be a string that
//! spells a number; a quantity has to be a number. What is wrong with a
//! member is reported in a message that names it.

use crate::json::Entry;
use crate::decimal::{decimal_of, parse_decimal, Decimal, MAX_SCALE};
use crate::text::{integer_i64, parse_integer};
use vstd::prelude::*;
use vstd::string::*;

verus! {

/// The message for a request without the member `field`.
pub open spec fn missing_field(field: Seq<char>) -> Seq<char> {
    "Missing field: "@ + field
}

/// The message for a member `field` that is no JSON string.
pub open spec fn not_text(field: Seq<char>) -> Seq<char> {
    field + " could not be converted to a str"@
}

/// The message for a member `field` whose text denotes no integer.
pub open spec fn not_an_integer(field: Seq<char>) -> Seq<char> {
    field + " could not be converted to an integer"@
}

/// The message for a member `field` that is no number, or whose text
/// denotes no decimal.
pub open spec fn not_a_number(field: Seq<char>) -> Seq<char> {
    field + " could not be converted to a number"@
}

/// An outcome `r` whose message is a `String` is the outcome `expected`
/// whose message is that string's text.
pub open spec fn agrees<T>(r: Result<T, String>, expected: Result<T, Seq<char>>) -> bool {
    match r {
        Ok(value) => expected == Ok::<T, Seq<char>>(value),
        Err(message) => expected == Err::<T, Seq<char>>(message@),
    }
}

/// The text that the member `found` of a request gives for `field`: the
/// member has to be there and be a string.
pub open spec fn text_from(found: Option<Entry>, field: Seq<char>) -> Result<
    Seq<char>,
    Seq<char>,
> {
    match found {
        None => Err(missing_field(field)),
        Some(Entry::Text(text)) => Ok(text@),
        Some(_) => Err(not_text(field)),
    }
}

/// The integer that the member `found` of a request gives for `field`: the
/// member has to be there, be a string, and its text has to denote an
/// integer that fits in an `i64`.
pub open spec fn integer_from(found: Option<Entry>, field: Seq<char>) -> Result<i64, Seq<char>> {
    match found {
        None => Err(missing_field(field)),
        Some(Entry::Text(text)) => match integer_i64(text@) {
            Some(value) => Ok(value),
            None => Err(not_an_integer(field)),
        },
        Some(_) => Err(not_text(field)),
    }
}

/// The decimal that the member `found` of a request gives for `field`: the
/// member has to be there, be a string, and its text has to denote a
/// decimal.
pub open spec fn decimal_from(found: Option<Entry>, field: Seq<char>) -> Result<
    Decimal,
    Seq<char>,
> {
    match found {
        None => Err(missing_field(field)),
        Some(Entry::Text(text)) => match decimal_of(text@) {
            Some(value) => Ok(value),
            None => Err(not_a_number(field)),
        },
        Some(_) => Err(not_text(field)),
    }
}

/// What is wrong with the member `found` of a request as the quantity
/// `field`, if anything: it has to be there and be a number.
pub open spec fn quantity_fault(found: Option<Entry>, field: Seq<char>) -> Option<Seq<char>> {
    match found {
        None => Some(missing_field(field)),
        Some(Entry::Number) => None,
        Some(_) => Some(not_a_number(field)),
    }
}

/// Reads what the member `found` of a request gives for the identifier
/// `field`.
pub fn text_entry(found: Option<Entry>, field: &str) -> (r: Result<String, String>)
    ensures
        match r {
            Ok(text) => text_from(found, field@) == Ok::<Seq<char>, Seq<char>>(text@),
            Err(message) => text_from(found, field@) == Err::<Seq<char>, Seq<char>>(message@),
        },
{
    match found {
        None => Err(String::from_str("Missing field: ").concat(field)),
        Some(Entry::Text(text)) => Ok(text),
        Some(_) => Err(String::from_str(field).concat(" could not be converted to a str")),
    }
}

/// Reads what the member `found` of a request gives for the integer
/// parameter `field`.
pub fn integer_entry(found: Option<Entry>, field: &str) -> (r: Result<i64, String>)
    ensures
        agrees(r, integer_from(found, field@)),
{
    match found {
        None => Err(String::from_str("Missing field: ").concat(field)),
        Some(Entry::Text(text)) => match parse_integer(text.as_str()) {
            Some(value) => Ok(value),
            None => Err(String::from_str(field).concat(" could not be converted to an integer")),
        },
        Some(_) => Err(String::from_str(field).concat(" could not be converted to a str")),
    }
}

/// Reads what the member `found` of a request gives for the real
/// parameter `field`.
pub fn decimal_entry(found: Option<Entry>, field: &str) -> (r: Result<Decimal, String>)
    ensures
        agrees(r, decimal_from(found, field@)),
        r matches Ok(value) ==> value.scale <= MAX_SCALE,
{
    match found {
        None => Err(String::from_str("Missing field: ").concat(field)),
        Some(Entry::Text(text)) => match parse_decimal(text.as_str()) {
            Some(value) => Ok(value),
            None => Err(String::from_str(field).concat(" could not be converted to a number")),
        },
        Some(_) => Err(String::from_str(field).concat(" could not be converted to a str")),
    }
}

/// Checks that the member `found` of a request can stand for the quantity
/// `field`.
pub fn quantity_entry(found: Option<Entry>, field: &str) -> (r: Result<(), String>)
    ensures
        match r {
            Ok(_) => quantity_fault(found, field@) is None,
            Err(message) => quantity_fault(found, field@) == Some(message@),
        },
{
    match found {
        None => Err(String::from_str("Missing field: ").concat(field)),
        Some(Entry::Number) => Ok(()),
        Some(_) => Err(String::from_str(field).concat(" could not be converted to a number")),
    }
}

} // verus!
