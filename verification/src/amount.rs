//! Amounts of money: exact decimals with four fractional digits.

use crate::decimal::{
    decimal_add, decimal_from_u64, decimal_parse, decimal_round_dp, decimal_sub, is_mantissa,
    parsed_decimal, pow10, round_half_even, MAX_MANTISSA, MAX_SCALE,
};
use std::ops::{Add, Sub};
use std::str::FromStr;
use vstd::prelude::*;
use vstd::std_specs::convert::FromSpecImpl;
use vstd::std_specs::ops::{AddSpecImpl, SubSpecImpl};

verus! {

/// The number of fractional digits every amount is rounded to.
pub const FRACTION_DIGITS: u32 = 4;

/// The ten-thousandths in `steps` steps of a decimal with `scale`
/// fractional digits, four at most: a step is ten thousand of them for a
/// whole number, and one at four digits.
pub open spec fn units_in(steps: int, scale: nat) -> int {
    if scale == 0 {
        steps * 10000
    } else if scale == 1 {
        steps * 1000
    } else if scale == 2 {
        steps * 100
    } else if scale == 3 {
        steps * 10
    } else {
        steps
    }
}

/// Whether `units` ten-thousandths can be written as a decimal with
/// `scale` fractional digits, four at most: whether they are whole steps of
/// that scale, and no more of them than 96 bits hold.
pub open spec fn held_at(units: int, scale: nat) -> bool {
    if scale == 0 {
        units % 10000 == 0 && is_mantissa(units / 10000)
    } else if scale == 1 {
        units % 1000 == 0 && is_mantissa(units / 1000)
    } else if scale == 2 {
        units % 100 == 0 && is_mantissa(units / 100)
    } else if scale == 3 {
        units % 10 == 0 && is_mantissa(units / 10)
    } else {
        is_mantissa(units)
    }
}

/// Whether an amount can hold `units` ten-thousandths: whether they can be
/// written as a decimal with four fractional digits or fewer.
pub open spec fn is_held(units: int) -> bool {
    held_at(units, 0) || held_at(units, 1) || held_at(units, 2) || held_at(units, 3) || held_at(
        units,
        4,
    )
}

/// Whether `a`, `b` and `c` can all be written with `scale` fractional
/// digits.
pub open spec fn meet_at(a: int, b: int, c: int, scale: nat) -> bool {
    held_at(a, scale) && held_at(b, scale) && held_at(c, scale)
}

/// Whether `a`, `b` and `c` can be written at one scale.
pub open spec fn meet(a: int, b: int, c: int) -> bool {
    meet_at(a, b, c, 0) || meet_at(a, b, c, 1) || meet_at(a, b, c, 2) || meet_at(a, b, c, 3)
        || meet_at(a, b, c, 4)
}

/// Whether `a + b` can be computed exactly: whether the two and their sum
/// can be written at one scale within 96 bits.
///
/// Whole numbers add up as long as the sum is within 96 bits, and so do
/// amounts of one scale. It fails where the sum is no decimal of four
/// digits or fewer, so that decimals of 96 bits would round it or overflow;
/// and, at the very end of the 96 bits, where the sum or one of the two
/// cannot be written as finely as the other needs.
pub open spec fn can_add(a: int, b: int) -> bool {
    meet(a, b, a + b)
}

/// Whether `a - b` can be computed exactly; as `can_add`.
pub open spec fn can_sub(a: int, b: int) -> bool {
    meet(a, b, a - b)
}

/// The ten-thousandths in the decimal `mantissa / 10^scale`, after rounding
/// to four fractional digits, half to even.
pub open spec fn units_of_decimal(mantissa: int, scale: nat) -> int {
    if scale <= FRACTION_DIGITS {
        units_in(mantissa, scale)
    } else {
        round_half_even(mantissa, pow10((scale - FRACTION_DIGITS) as nat))
    }
}

/// Whether `mantissa / 10^scale` is a decimal: within 96 bits and 28
/// fractional digits.
pub open spec fn is_decimal(mantissa: int, scale: nat) -> bool {
    is_mantissa(mantissa) && scale <= MAX_SCALE
}

/// The amount that a text stands for, in ten-thousandths, given what the
/// decimal parser made of the text: the decimal rounded to four fractional
/// digits, half to even; `None` where the text is no decimal.
pub open spec fn amount_of_parsed(parsed: Option<(i128, u32)>) -> Option<int> {
    match parsed {
        Some((m, s)) => Some(units_of_decimal(m as int, s as nat)),
        None => None,
    }
}

/// An exact amount of money with four fractional digits at most, either
/// sign: any decimal of 96 bits that has no more digits than that.
///
/// The view is the amount counted in ten-thousandths of the unit, so `1.5`
/// has the view `15000`.
#[derive(Clone, Copy, Debug, PartialEq, Eq, PartialOrd, Ord, Hash, Structural)]
pub struct AmountInMinorUnits {
    units: i128,
}

impl View for AmountInMinorUnits {
    type V = int;

    closed spec fn view(&self) -> int {
        self.units as int
    }
}

proof fn lemma_pow10_positive(n: nat)
    ensures
        pow10(n) >= 1,
    decreases n,
{
    if n > 0 {
        lemma_pow10_positive((n - 1) as nat);
    }
}

/// Rounding a quotient never takes it further from zero than the dividend.
proof fn lemma_round_half_even_bounded(m: int, d: int)
    requires
        d >= 1,
    ensures
        m >= 0 ==> 0 <= round_half_even(m, d) <= m,
        m < 0 ==> m <= round_half_even(m, d) <= 0,
{
    let a = if m < 0 { -m } else { m };
    let q = a / d;
    let r = a % d;
    assert(a == q * d + r && 0 <= r < d && q >= 0) by (nonlinear_arith)
        requires
            a >= 0,
            d >= 1,
            q == a / d,
            r == a % d,
    ;
    assert(q * d >= q) by (nonlinear_arith)
        requires
            q >= 0,
            d >= 1,
    ;
}

/// The mantissa of `units` at `scale` fractional digits.
fn scale_down(units: i128, scale: u32) -> (r: i128)
    requires
        scale <= FRACTION_DIGITS,
        held_at(units as int, scale as nat),
    ensures
        units_in(r as int, scale as nat) == units,
        is_mantissa(r as int),
{
    // the sign is set aside: the quotient of the magnitudes is exact
    let size: i128 = if units < 0 { -units } else { units };
    let steps: i128 = if scale == 0 {
        size / 10000
    } else if scale == 1 {
        size / 1000
    } else if scale == 2 {
        size / 100
    } else if scale == 3 {
        size / 10
    } else {
        size
    };
    if units < 0 { -steps } else { steps }
}

/// The ten-thousandths in `mantissa` steps of `scale` fractional digits.
fn scale_up(mantissa: i128, scale: u32) -> (r: i128)
    requires
        scale <= FRACTION_DIGITS,
        is_mantissa(mantissa as int),
    ensures
        r == units_in(mantissa as int, scale as nat),
        held_at(r as int, scale as nat),
{
    if scale == 0 {
        mantissa * 10000
    } else if scale == 1 {
        mantissa * 1000
    } else if scale == 2 {
        mantissa * 100
    } else if scale == 3 {
        mantissa * 10
    } else {
        mantissa
    }
}

/// Whether `units` can be written with `scale` fractional digits.
fn is_held_at(units: i128, scale: u32) -> (r: bool)
    requires
        scale <= FRACTION_DIGITS,
    ensures
        r == held_at(units as int, scale as nat),
{
    if units < -MAX_MANTISSA * 10000 || units > MAX_MANTISSA * 10000 {
        return false;
    }
    // the sign is set aside: it changes neither what divides nor what fits
    let size: i128 = if units < 0 { -units } else { units };
    if scale == 0 {
        size % 10000 == 0 && size / 10000 <= MAX_MANTISSA
    } else if scale == 1 {
        size % 1000 == 0 && size / 1000 <= MAX_MANTISSA
    } else if scale == 2 {
        size % 100 == 0 && size / 100 <= MAX_MANTISSA
    } else if scale == 3 {
        size % 10 == 0 && size / 10 <= MAX_MANTISSA
    } else {
        size <= MAX_MANTISSA
    }
}

/// Whether `a`, `b` and `c` can all be written with `scale` fractional
/// digits.
fn meet_at_scale(a: i128, b: i128, c: i128, scale: u32) -> (r: bool)
    requires
        scale <= FRACTION_DIGITS,
    ensures
        r == meet_at(a as int, b as int, c as int, scale as nat),
{
    is_held_at(a, scale) && is_held_at(b, scale) && is_held_at(c, scale)
}

/// Whether `a`, `b` and `c` can be written at one scale.
fn meets(a: i128, b: i128, c: i128) -> (r: bool)
    ensures
        r == meet(a as int, b as int, c as int),
{
    meet_at_scale(a, b, c, 4) || meet_at_scale(a, b, c, 3) || meet_at_scale(a, b, c, 2)
        || meet_at_scale(a, b, c, 1) || meet_at_scale(a, b, c, 0)
}

/// The finest scale at which `a`, `b` and `c` can all be written.
fn meeting_scale(a: i128, b: i128, c: i128) -> (r: u32)
    requires
        meet(a as int, b as int, c as int),
    ensures
        r <= FRACTION_DIGITS,
        meet_at(a as int, b as int, c as int, r as nat),
{
    let mut scale: u32 = FRACTION_DIGITS;
    while !meet_at_scale(a, b, c, scale)
        invariant
            scale <= FRACTION_DIGITS,
            meet(a as int, b as int, c as int),
            forall|k: nat| scale < k <= FRACTION_DIGITS ==> !meet_at(a as int, b as int, c as int, k),
        decreases scale,
    {
        scale = scale - 1;
    }
    scale
}

impl AmountInMinorUnits {
    #[verifier::type_invariant]
    closed spec fn can_be_held(self) -> bool {
        is_held(self.units as int)
    }

    /// The amount of `units` ten-thousandths.
    pub closed spec fn of_units(units: int) -> AmountInMinorUnits {
        AmountInMinorUnits { units: units as i128 }
    }

    /// An amount is known by its view: `of_units` gives back the amount
    /// whose view it is handed.
    pub proof fn lemma_of_units(self)
        ensures
            Self::of_units(self@) == self,
    {
    }

    /// The view of `of_units(units)` is `units`, for what an amount can
    /// hold.
    pub proof fn lemma_of_units_view(units: int)
        requires
            is_held(units),
        ensures
            Self::of_units(units)@ == units,
    {
    }

    /// The amount zero.
    pub fn zero() -> (r: Self)
        ensures
            r@ == 0,
    {
        AmountInMinorUnits { units: 0 }
    }

    /// The amount in ten-thousandths of the unit.
    pub fn units(&self) -> (r: i128)
        ensures
            r == self@,
            is_held(r as int),
    {
        proof {
            use_type_invariant(self);
        }
        self.units
    }

    /// The amount of `units` ten-thousandths, where an amount can hold
    /// them.
    pub fn from_units(units: i128) -> (r: Option<Self>)
        ensures
            is_held(units as int) ==> (r matches Some(a) && a@ == units),
            !is_held(units as int) ==> r is None,
    {
        if meets(units, units, units) {
            Some(AmountInMinorUnits { units })
        } else {
            None
        }
    }

    /// The amount as a decimal: a mantissa and a number of fractional
    /// digits, four where 96 bits hold that many and fewer where not.
    pub fn decimal_parts(&self) -> (r: (i128, u32))
        ensures
            r.1 <= FRACTION_DIGITS,
            is_mantissa(r.0 as int),
            units_in(r.0 as int, r.1 as nat) == self@,
    {
        proof {
            use_type_invariant(self);
        }
        let scale = meeting_scale(self.units, self.units, self.units);
        (scale_down(self.units, scale), scale)
    }

    /// The amount that the decimal `mantissa / 10^scale` rounds to at four
    /// fractional digits, half to even; `None` where the two numbers are no
    /// decimal, that is outside 96 bits or 28 digits.
    pub fn from_decimal_parts(mantissa: i128, scale: u32) -> (r: Option<Self>)
        ensures
            is_decimal(mantissa as int, scale as nat) ==> (r matches Some(a) && a@
                == units_of_decimal(mantissa as int, scale as nat)),
            !is_decimal(mantissa as int, scale as nat) ==> r is None,
    {
        if mantissa < -MAX_MANTISSA || mantissa > MAX_MANTISSA || scale > MAX_SCALE {
            return None;
        }
        let (m, s) = decimal_round_dp(mantissa, scale, FRACTION_DIGITS);
        proof {
            if scale > FRACTION_DIGITS {
                lemma_pow10_positive((scale - FRACTION_DIGITS) as nat);
                lemma_round_half_even_bounded(
                    mantissa as int,
                    pow10((scale - FRACTION_DIGITS) as nat),
                );
            }
        }
        Some(AmountInMinorUnits { units: scale_up(m, s) })
    }

    /// Reads an amount from decimal text and rounds it to four fractional
    /// digits. Fails where the text is no decimal, and nowhere else.
    pub fn parse(text: &str) -> (r: Result<Self, ()>)
        ensures
            match amount_of_parsed(parsed_decimal(text@)) {
                Some(units) => r matches Ok(a) && a@ == units,
                None => r is Err,
            },
    {
        match decimal_parse(text) {
            Some((m, s)) => match Self::from_decimal_parts(m, s) {
                Some(a) => Ok(a),
                None => Err(()),
            },
            None => Err(()),
        }
    }

    /// Whether this amount is strictly greater than `other`.
    pub fn exceeds(&self, other: &Self) -> (r: bool)
        ensures
            r == (self@ > other@),
    {
        self.units > other.units
    }

    /// Whether `self + rhs` can be computed exactly.
    pub fn can_add(&self, rhs: &Self) -> (r: bool)
        ensures
            r == can_add(self@, rhs@),
    {
        proof {
            use_type_invariant(self);
            use_type_invariant(rhs);
        }
        meets(self.units, rhs.units, self.units + rhs.units)
    }

    /// Whether `self - rhs` can be computed exactly.
    pub fn can_sub(&self, rhs: &Self) -> (r: bool)
        ensures
            r == can_sub(self@, rhs@),
    {
        proof {
            use_type_invariant(self);
            use_type_invariant(rhs);
        }
        meets(self.units, rhs.units, self.units - rhs.units)
    }
}

impl Default for AmountInMinorUnits {
    fn default() -> (r: Self)
        ensures
            r@ == 0,
    {
        AmountInMinorUnits::zero()
    }
}

impl From<u64> for AmountInMinorUnits {
    /// The amount of `amount` whole units.
    fn from(amount: u64) -> (r: Self)
        ensures
            r@ == amount * 10000,
    {
        let (m, s) = decimal_from_u64(amount);
        AmountInMinorUnits { units: scale_up(m, s) }
    }
}

impl FromSpecImpl<u64> for AmountInMinorUnits {
    open spec fn obeys_from_spec() -> bool {
        true
    }

    open spec fn from_spec(v: u64) -> Self {
        AmountInMinorUnits::of_units(v * 10000)
    }
}

impl FromStr for AmountInMinorUnits {
    type Err = ();

    /// Reads an amount as `parse` does.
    fn from_str(s: &str) -> (r: Result<Self, ()>)
        ensures
            match amount_of_parsed(parsed_decimal(s@)) {
                Some(units) => r matches Ok(a) && a@ == units,
                None => r is Err,
            },
    {
        AmountInMinorUnits::parse(s)
    }
}

impl Add for AmountInMinorUnits {
    type Output = AmountInMinorUnits;

    /// The sum, which is exact.
    fn add(self, rhs: Self) -> (r: Self)
        ensures
            r@ == self@ + rhs@,
    {
        proof {
            use_type_invariant(&self);
            use_type_invariant(&rhs);
        }
        // written at one scale, the two are added as decimals of that scale
        let scale = meeting_scale(self.units, rhs.units, self.units + rhs.units);
        let (m, s) = decimal_add(
            scale_down(self.units, scale),
            scale_down(rhs.units, scale),
            scale,
        );
        // the sum has four fractional digits at most, which rounding keeps
        let (m, s) = decimal_round_dp(m, s, FRACTION_DIGITS);
        AmountInMinorUnits { units: scale_up(m, s) }
    }
}

impl AddSpecImpl for AmountInMinorUnits {
    open spec fn obeys_add_spec() -> bool {
        true
    }

    open spec fn add_req(self, rhs: Self) -> bool {
        can_add(self@, rhs@)
    }

    open spec fn add_spec(self, rhs: Self) -> Self {
        AmountInMinorUnits::of_units(self@ + rhs@)
    }
}

impl Sub for AmountInMinorUnits {
    type Output = AmountInMinorUnits;

    /// The difference, which is exact.
    fn sub(self, rhs: Self) -> (r: Self)
        ensures
            r@ == self@ - rhs@,
    {
        proof {
            use_type_invariant(&self);
            use_type_invariant(&rhs);
        }
        // written at one scale, the two are subtracted as decimals of that scale
        let scale = meeting_scale(self.units, rhs.units, self.units - rhs.units);
        let (m, s) = decimal_sub(
            scale_down(self.units, scale),
            scale_down(rhs.units, scale),
            scale,
        );
        // the difference has four fractional digits at most, which rounding keeps
        let (m, s) = decimal_round_dp(m, s, FRACTION_DIGITS);
        AmountInMinorUnits { units: scale_up(m, s) }
    }
}

impl SubSpecImpl for AmountInMinorUnits {
    open spec fn obeys_sub_spec() -> bool {
        true
    }

    open spec fn sub_req(self, rhs: Self) -> bool {
        can_sub(self@, rhs@)
    }

    open spec fn sub_spec(self, rhs: Self) -> Self {
        AmountInMinorUnits::of_units(self@ - rhs@)
    }
}

} // verus!
