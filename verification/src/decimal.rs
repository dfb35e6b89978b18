//! Exact decimal numbers: a signed integer mantissa and the number of its
//! digits that stand after the decimal point.
//!
//! Rounding, parsing and printing are done by `rust_decimal`; the numbers
//! travel through the library as plain integers.

use crate::utils::{decimal_digits, hex_digit};
use vstd::prelude::*;

verus! {

/// The largest mantissa, in absolute value, that a decimal can hold: 96 bits.
pub const MAX_MANTISSA: i128 = 79_228_162_514_264_337_593_543_950_335;

/// The largest scale that a decimal can have.
pub const MAX_SCALE: u32 = 28;

/// What a decimal is: the number `mantissa / 10^scale`.
pub struct DecimalValue {
    pub mantissa: int,
    pub scale: nat,
}

/// Ten to the power `e`.
pub open spec fn pow10(e: nat) -> nat
    decreases e,
{
    if e == 0 {
        1
    } else {
        10 * pow10((e - 1) as nat)
    }
}

/// The absolute value of `m`.
pub open spec fn magnitude(m: int) -> nat {
    if m < 0 {
        (-m) as nat
    } else {
        m as nat
    }
}

/// `m / 10^drop`, rounded to the nearest integer, a tie going away from zero.
pub open spec fn round_half_away(m: int, drop: nat) -> int {
    let unit = pow10(drop) as int;
    let whole = magnitude(m) as int / unit;
    let rest = magnitude(m) as int % unit;
    let nearest = if 2 * rest >= unit {
        whole + 1
    } else {
        whole
    };
    if m < 0 {
        -nearest
    } else {
        nearest
    }
}

impl DecimalValue {
    /// Whether the number fits the representation: at most 96 bits of mantissa
    /// and at most 28 digits after the point.
    pub open spec fn fits(self) -> bool {
        &&& -MAX_MANTISSA <= self.mantissa <= MAX_MANTISSA
        &&& self.scale <= MAX_SCALE
    }

    /// The number rounded to `places` digits after the point, a tie going away
    /// from zero. A number that has no more than `places` digits is unchanged,
    /// scale included.
    pub open spec fn rounded(self, places: nat) -> DecimalValue {
        if self.scale <= places {
            self
        } else {
            DecimalValue {
                mantissa: round_half_away(self.mantissa, (self.scale - places) as nat),
                scale: places,
            }
        }
    }

    /// The number with the opposite sign.
    pub open spec fn negated(self) -> DecimalValue {
        DecimalValue { mantissa: -self.mantissa, scale: self.scale }
    }

    /// The number as plain decimal text: a minus sign if it is negative, the
    /// whole part without leading zeros (`0` if there is none), and, where the
    /// scale is not zero, a point and exactly `scale` digits.
    pub open spec fn text(self) -> Seq<char> {
        let sign = if self.mantissa < 0 {
            seq!['-']
        } else {
            Seq::<char>::empty()
        };
        let unit = pow10(self.scale);
        let whole = decimal_digits(magnitude(self.mantissa) / unit);
        if self.scale == 0 {
            sign + whole
        } else {
            sign + whole + seq!['.'] + fraction_digits(magnitude(self.mantissa) % unit, self.scale)
        }
    }
}

/// The last `width` decimal digits of `n`, the highest first, zeros included.
pub open spec fn fraction_digits(n: nat, width: nat) -> Seq<char>
    decreases width,
{
    if width == 0 {
        Seq::<char>::empty()
    } else {
        fraction_digits(n / 10, (width - 1) as nat).push(hex_digit((n % 10) as int))
    }
}

/// An exact decimal number.
#[derive(Clone, Copy, Debug)]
pub struct Decimal {
    mantissa: i128,
    scale: u32,
}

impl View for Decimal {
    type V = DecimalValue;

    closed spec fn view(&self) -> DecimalValue {
        DecimalValue { mantissa: self.mantissa as int, scale: self.scale as nat }
    }
}

/// `rust_decimal::Error`, which says why a text is no decimal number.
#[verifier::external_type_specification]
#[verifier::external_body]
pub struct ExDecimalError(rust_decimal::Error);

/// What `rust_decimal` reads from a text: the mantissa and the scale of the
/// number, or `None` where it refuses the text.
pub uninterp spec fn parsed_decimal(text: Seq<char>) -> Option<(int, nat)>;

/// `Decimal::round_dp_with_strategy` of `rust_decimal`, with the strategy
/// `MidpointAwayFromZero`. The contract claims that a number with at most
/// `places` digits after the point comes back unchanged, and that any other
/// comes back with scale `places` and the mantissa divided by the power of ten
/// that it loses, rounded to the nearest integer, a tie going away from zero.
#[verifier::external_body]
fn round_half_away_from_zero(value: &Decimal, places: u32) -> (r: Decimal)
    ensures
        r@ == value@.rounded(places as nat),
{
    let d = rust_decimal::Decimal::from_i128_with_scale(value.mantissa, value.scale)
        .round_dp_with_strategy(places, rust_decimal::RoundingStrategy::MidpointAwayFromZero);
    Decimal { mantissa: d.mantissa(), scale: d.scale() }
}

/// `Decimal::from_str` of `rust_decimal`. The contract gives what it reads a
/// name: the mantissa and the scale of the number it accepts, which that
/// crate keeps within 96 bits and 28 digits, or nothing where it refuses.
#[verifier::external_body]
fn read_decimal(text: &str) -> (r: Result<Decimal, rust_decimal::Error>)
    ensures
        match r {
            Ok(d) => parsed_decimal(text@) == Some((d@.mantissa, d@.scale)),
            Err(_) => parsed_decimal(text@) is None,
        },
{
    match <rust_decimal::Decimal as std::str::FromStr>::from_str(text) {
        Ok(d) => Ok(Decimal { mantissa: d.mantissa(), scale: d.scale() }),
        Err(e) => Err(e),
    }
}

/// The `Display` of `rust_decimal::Decimal`, as `format!` with `{}` calls it.
/// The contract claims that it writes a minus sign for a negative number, the
/// whole part without leading zeros, and, where the scale is not zero, a point
/// and as many digits as the scale says.
#[verifier::external_body]
fn write_decimal(value: &Decimal) -> (text: String)
    ensures
        text@ == value@.text(),
{
    format!("{}", rust_decimal::Decimal::from_i128_with_scale(value.mantissa, value.scale))
}

impl Decimal {
    #[verifier::type_invariant]
    spec fn within_limits(self) -> bool {
        &&& -MAX_MANTISSA <= self.mantissa <= MAX_MANTISSA
        &&& self.scale <= MAX_SCALE
    }

    /// The decimal `mantissa / 10^scale`, or `None` where the mantissa needs
    /// more than 96 bits or the scale is above 28.
    pub fn new(mantissa: i128, scale: u32) -> (r: Option<Decimal>)
        ensures
            match r {
                Some(d) => d@.mantissa == mantissa && d@.scale == scale && d@.fits(),
                None => !(DecimalValue { mantissa: mantissa as int, scale: scale as nat }).fits(),
            },
    {
        if -MAX_MANTISSA <= mantissa && mantissa <= MAX_MANTISSA && scale <= MAX_SCALE {
            Some(Decimal { mantissa, scale })
        } else {
            None
        }
    }

    /// The mantissa.
    pub fn mantissa(&self) -> (m: i128)
        ensures
            m == self@.mantissa,
            -MAX_MANTISSA <= m <= MAX_MANTISSA,
    {
        proof {
            use_type_invariant(self);
        }
        self.mantissa
    }

    /// The number of digits after the decimal point.
    pub fn scale(&self) -> (s: u32)
        ensures
            s == self@.scale,
            s <= MAX_SCALE,
    {
        proof {
            use_type_invariant(self);
        }
        self.scale
    }

    /// Reads a decimal number from text. What is read is whatever
    /// `rust_decimal` reads from that text.
    pub fn parse(text: &str) -> (r: Option<Decimal>)
        ensures
            match r {
                Some(d) => parsed_decimal(text@) == Some((d@.mantissa, d@.scale)),
                None => parsed_decimal(text@) is None,
            },
    {
        match read_decimal(text) {
            Ok(d) => Some(d),
            Err(_) => None,
        }
    }

    /// The number rounded to `places` digits after the point, to the nearest
    /// such number, a tie going away from zero.
    pub fn round_dp(&self, places: u32) -> (r: Decimal)
        ensures
            r@ == self@.rounded(places as nat),
    {
        round_half_away_from_zero(self, places)
    }

    /// The number with the opposite sign.
    pub fn negate(&self) -> (r: Decimal)
        ensures
            r@ == self@.negated(),
    {
        proof {
            use_type_invariant(self);
        }
        Decimal { mantissa: -self.mantissa, scale: self.scale }
    }

    /// Whether the number is below zero.
    pub fn is_negative(&self) -> (b: bool)
        ensures
            b == (self@.mantissa < 0),
    {
        self.mantissa < 0
    }

    /// Whether the number is zero.
    pub fn is_zero(&self) -> (b: bool)
        ensures
            b == (self@.mantissa == 0),
    {
        self.mantissa == 0
    }

    /// The number as plain decimal text, without an exponent.
    pub fn to_text(&self) -> (text: String)
        ensures
            text@ == self@.text(),
    {
        write_decimal(self)
    }
}

/// Ten to any power is at least one.
pub proof fn lemma_pow10_positive(e: nat)
    ensures
        pow10(e) >= 1,
    decreases e,
{
    if e > 0 {
        lemma_pow10_positive((e - 1) as nat);
    }
}

/// Rounding a number that is already rounded changes nothing.
pub proof fn lemma_rounding_idempotent(value: DecimalValue, places: nat)
    ensures
        value.rounded(places).rounded(places) == value.rounded(places),
        value.rounded(places).scale <= places,
{
}

/// Rounding gives the nearest multiple of the unit that is kept: the rounded
/// mantissa, scaled back, is off by at most half a unit, and has the sign of
/// the number unless it is zero.
pub proof fn lemma_rounding_nearest(m: int, drop: nat)
    ensures
        2 * magnitude(m - round_half_away(m, drop) * pow10(drop)) <= pow10(drop),
        m >= 0 ==> round_half_away(m, drop) >= 0,
        m <= 0 ==> round_half_away(m, drop) <= 0,
        magnitude(round_half_away(m, drop)) <= magnitude(m),
{
    let unit = pow10(drop) as int;
    lemma_pow10_positive(drop);
    let a = magnitude(m) as int;
    let whole = a / unit;
    let rest = a % unit;
    vstd::arithmetic::div_mod::lemma_fundamental_div_mod(a, unit);
    vstd::arithmetic::div_mod::lemma_mod_pos_bound(a, unit);
    vstd::arithmetic::div_mod::lemma_div_pos_is_pos(a, unit);
    assert(a == unit * whole + rest);
    assert((whole + 1) * unit == whole * unit + unit) by (nonlinear_arith);
    assert(unit * whole == whole * unit) by (nonlinear_arith);
    assert((-whole) * unit == -(whole * unit)) by (nonlinear_arith);
    assert((-(whole + 1)) * unit == -(whole * unit) - unit) by (nonlinear_arith);
    if 2 * rest >= unit {
        assert(whole + 1 <= a) by (nonlinear_arith)
            requires
                a == unit * whole + rest,
                2 * rest >= unit,
                rest < unit,
                whole >= 0,
                unit >= 1,
        ;
    } else {
        assert(whole <= a) by (nonlinear_arith)
            requires
                a == unit * whole + rest,
                whole >= 0,
                unit >= 1,
                rest >= 0,
        ;
    }
}

} // verus!
