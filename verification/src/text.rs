//! Unsigned integers read from decimal text.

use vstd::prelude::*;

verus! {

/// Whether `c` is one of the ten digits.
pub open spec fn is_digit(c: char) -> bool {
    '0' <= c <= '9'
}

/// The number that a sequence of digits stands for, read in base ten.
pub open spec fn digits_value(digits: Seq<char>) -> nat
    decreases digits.len(),
{
    if digits.len() == 0 {
        0
    } else {
        digits_value(digits.drop_last()) * 10 + ((digits.last() as u32 - '0' as u32) as nat)
    }
}

/// The unsigned integer up to `max` that `text` stands for: one or more
/// digits, with one `+` before them at most, and nothing else. Leading
/// zeros count for nothing. `None` for any other text, and where the number
/// is above `max`.
pub open spec fn unsigned_of_text(text: Seq<char>, max: nat) -> Option<nat> {
    let digits = if text.len() > 0 && text[0] == '+' {
        text.skip(1)
    } else {
        text
    };
    if digits.len() > 0 && (forall|i: int| 0 <= i < digits.len() ==> is_digit(#[trigger] digits[i]))
        && digits_value(digits) <= max {
        Some(digits_value(digits))
    } else {
        None
    }
}

/// `str::parse::<u16>`: the number that the text stands for, or `None`
/// where `parse` returns an error.
#[verifier::external_body]
pub(crate) fn parse_u16(text: &str) -> (r: Option<u16>)
    ensures
        match unsigned_of_text(text@, u16::MAX as nat) {
            Some(n) => r == Some(n as u16),
            None => r is None,
        },
{
    match text.parse::<u16>() {
        Ok(n) => Some(n),
        Err(_) => None,
    }
}

/// `str::parse::<u32>`: the number that the text stands for, or `None`
/// where `parse` returns an error.
#[verifier::external_body]
pub(crate) fn parse_u32(text: &str) -> (r: Option<u32>)
    ensures
        match unsigned_of_text(text@, u32::MAX as nat) {
            Some(n) => r == Some(n as u32),
            None => r is None,
        },
{
    match text.parse::<u32>() {
        Ok(n) => Some(n),
        Err(_) => None,
    }
}

} // verus!
