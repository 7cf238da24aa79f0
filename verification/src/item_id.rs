//! Item identifiers, as a user writes them: a bare number or a workshop URL.

use crate::pattern::{capture, captured_text, pattern_compiles};
use crate::text::{decimal_digits, lemma_parse_decimal, parse_u32, parse_u32_spec};
use vstd::prelude::*;

verus! {

/// The pattern that finds the identifier inside a workshop page URL.
pub const WORKSHOP_URL_PATTERN: &'static str =
    r"https://steamcommunity.com/sharedfiles/filedetails/\?id=(\d+)";

/// Why a text was not accepted as an item identifier.
#[derive(Clone, Copy, Debug, PartialEq, Eq)]
pub enum InputError {
    /// The text is neither a decimal number nor holds a workshop URL.
    NoItemId,
    /// A number was found, but it is no identifier: it is zero, or it is
    /// the number of a workshop URL and does not fit 32 bits.
    InvalidItemId,
}

/// The identifier that a number stands for: the number itself, which has
/// to be positive.
pub open spec fn item_id_of_number(number: u32) -> Result<u32, InputError> {
    if number >= 1 {
        Ok(number)
    } else {
        Err(InputError::InvalidItemId)
    }
}

/// The identifier that the digits found in a workshop URL stand for.
pub open spec fn item_id_of_capture(captured: Option<Seq<char>>) -> Result<u32, InputError> {
    match captured {
        None => Err(InputError::NoItemId),
        Some(digits) => match parse_u32_spec(digits) {
            Some(number) => item_id_of_number(number),
            None => Err(InputError::InvalidItemId),
        },
    }
}

/// The identifier that a text stands for: the number itself where the
/// whole text is one, else the number in the first workshop URL that the
/// text holds. Zero is no identifier, however it is written.
pub open spec fn parse_item_id_spec(s: Seq<char>) -> Result<u32, InputError> {
    match parse_u32_spec(s) {
        Some(number) => item_id_of_number(number),
        None => if pattern_compiles(WORKSHOP_URL_PATTERN@) {
            item_id_of_capture(captured_text(WORKSHOP_URL_PATTERN@, s, 1))
        } else {
            Err(InputError::NoItemId)
        },
    }
}

/// Takes a number for an identifier, unless it is zero.
fn item_id_from_number(number: u32) -> (r: Result<u32, InputError>)
    ensures
        r == item_id_of_number(number),
{
    if number >= 1 {
        Ok(number)
    } else {
        Err(InputError::InvalidItemId)
    }
}

/// Reads the identifier out of the digits that the URL pattern captured,
/// if it captured any.
pub fn item_id_from_capture(captured: Option<&str>) -> (r: Result<u32, InputError>)
    ensures
        r == item_id_of_capture(
            match captured {
                Some(digits) => Some(digits@),
                None => None,
            },
        ),
        r matches Ok(id) ==> id >= 1,
{
    match captured {
        None => Err(InputError::NoItemId),
        Some(digits) => match parse_u32(digits) {
            Some(number) => item_id_from_number(number),
            None => Err(InputError::InvalidItemId),
        },
    }
}

/// Reads an item identifier from a bare decimal number or from a text that
/// holds a workshop URL. An identifier is a positive number.
pub fn parse_item_id(s: &str) -> (r: Result<u32, InputError>)
    ensures
        r == parse_item_id_spec(s@),
        r matches Ok(id) ==> id >= 1,
{
    match parse_u32(s) {
        Some(number) => item_id_from_number(number),
        None => match capture(WORKSHOP_URL_PATTERN, s, 1) {
            Ok(Some(digits)) => item_id_from_capture(Some(digits.as_str())),
            Ok(None) => item_id_from_capture(None),
            Err(_) => Err(InputError::NoItemId),
        },
    }
}

/// Every identifier, written in decimal, is read back as itself.
pub proof fn lemma_decimal_id_reads_back(item_id: u32)
    requires
        item_id >= 1,
    ensures
        parse_item_id_spec(decimal_digits(item_id as nat)) == Ok::<u32, InputError>(item_id),
{
    lemma_parse_decimal(item_id);
}

} // verus!
