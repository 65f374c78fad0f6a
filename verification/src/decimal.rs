//! The decimal arithmetic of `rust_decimal`, reached through plain values.
//!
//! A decimal is handed over as its mantissa and its scale: the number
//! `mantissa / 10^scale`. Everything in this file that carries
//! `external_body` is believed, not proved.

use rust_decimal::Decimal;
use std::str::FromStr;
use vstd::prelude::*;

verus! {

/// The largest mantissa a decimal can hold: 96 bits.
pub const MAX_MANTISSA: i128 = 0xFFFF_FFFF_FFFF_FFFF_FFFF_FFFF;

/// The largest scale a decimal can hold.
pub const MAX_SCALE: u32 = 28;

/// Whether `m` fits a decimal's 96-bit mantissa, either sign.
pub open spec fn is_mantissa(m: int) -> bool {
    -MAX_MANTISSA <= m <= MAX_MANTISSA
}

/// Ten to the power `n`.
pub open spec fn pow10(n: nat) -> int
    decreases n,
{
    if n == 0 {
        1
    } else {
        10 * pow10((n - 1) as nat)
    }
}

/// `m / d` rounded to the nearest integer, a tie going to the even
/// neighbour; the sign of `m` is kept. Meant for `d > 0`.
pub open spec fn round_half_even(m: int, d: int) -> int {
    let a = if m < 0 { -m } else { m };
    let q = a / d;
    let r = a % d;
    let up = 2 * r > d || (2 * r == d && q % 2 == 1);
    let rounded = if up { q + 1 } else { q };
    if m < 0 { -rounded } else { rounded }
}

/// What `Decimal::from_str` makes of a text: the mantissa and scale of the
/// decimal it returns, or `None` where it returns an error.
pub uninterp spec fn parsed_decimal(text: Seq<char>) -> Option<(i128, u32)>;

/// `Decimal::from(u64)`: the integer itself as the mantissa, at scale zero.
#[verifier::external_body]
pub(crate) fn decimal_from_u64(n: u64) -> (r: (i128, u32))
    ensures
        r.0 == n,
        r.1 == 0,
{
    let d = Decimal::from(n);
    (d.mantissa(), d.scale())
}

/// `Decimal::from_str`: the result is a function of the text alone and gets
/// the name `parsed_decimal`. Any decimal lies within the type's limits of
/// 96 bits and 28 fractional digits, so one that comes back does.
#[verifier::external_body]
pub(crate) fn decimal_parse(text: &str) -> (r: Option<(i128, u32)>)
    ensures
        r == parsed_decimal(text@),
        r matches Some(p) ==> is_mantissa(p.0 as int),
        r matches Some(p) ==> p.1 <= MAX_SCALE,
{
    match Decimal::from_str(text) {
        Ok(d) => Some((d.mantissa(), d.scale())),
        Err(_) => None,
    }
}

/// `Decimal::round_dp`, on the decimal that `Decimal::from_i128_with_scale`
/// makes of the two numbers: a decimal with at most `dp` fractional digits
/// comes back unchanged; one with more is rounded to `dp` digits, a tie
/// going to the even neighbour.
#[verifier::external_body]
pub(crate) fn decimal_round_dp(mantissa: i128, scale: u32, dp: u32) -> (r: (i128, u32))
    requires
        is_mantissa(mantissa as int),
        scale <= MAX_SCALE,
        dp <= MAX_SCALE,
    ensures
        scale <= dp ==> r.0 == mantissa,
        scale <= dp ==> r.1 == scale,
        scale > dp ==> r.0 == round_half_even(mantissa as int, pow10((scale - dp) as nat)),
        scale > dp ==> r.1 == dp,
{
    let d = Decimal::from_i128_with_scale(mantissa, scale).round_dp(dp);
    (d.mantissa(), d.scale())
}

/// `Decimal`'s `+`, on the two decimals that `Decimal::from_i128_with_scale`
/// makes of `a` and `b` at one scale: where the sum of the mantissas fits
/// 96 bits, it is the mantissa of the result, and the scale stays.
#[verifier::external_body]
pub(crate) fn decimal_add(a: i128, b: i128, scale: u32) -> (r: (i128, u32))
    requires
        is_mantissa(a as int),
        is_mantissa(b as int),
        is_mantissa(a + b),
        scale <= MAX_SCALE,
    ensures
        r.0 == a + b,
        r.1 == scale,
{
    let d = Decimal::from_i128_with_scale(a, scale) + Decimal::from_i128_with_scale(b, scale);
    (d.mantissa(), d.scale())
}

/// `Decimal`'s `-`, on the two decimals that `Decimal::from_i128_with_scale`
/// makes of `a` and `b` at one scale: where the difference of the mantissas
/// fits 96 bits, it is the mantissa of the result, and the scale stays.
#[verifier::external_body]
pub(crate) fn decimal_sub(a: i128, b: i128, scale: u32) -> (r: (i128, u32))
    requires
        is_mantissa(a as int),
        is_mantissa(b as int),
        is_mantissa(a - b),
        scale <= MAX_SCALE,
    ensures
        r.0 == a - b,
        r.1 == scale,
{
    let d = Decimal::from_i128_with_scale(a, scale) - Decimal::from_i128_with_scale(b, scale);
    (d.mantissa(), d.scale())
}

} // verus!
