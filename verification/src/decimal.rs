//! Exact decimals. The numbers are `bigdecimal::BigDecimal`; this module
//! states what the library relies on from that crate.

use vstd::prelude::*;
use bigdecimal::BigDecimal;
use bigdecimal::RoundingMode;
use std::str::FromStr;

verus! {

/// `bigdecimal::BigDecimal`, carried as an opaque value.
#[verifier::external_type_specification]
#[verifier::external_body]
pub struct ExBigDecimal(BigDecimal);

/// The direction in which a quotient is brought to a whole number.
#[derive(Debug, Clone, Copy, PartialEq, Eq, Structural)]
pub enum Rounding {
    /// Toward zero.
    Down,
    /// Away from zero.
    Up,
}

/// The largest magnitude of a scale on which this library does arithmetic.
/// The crate aligns two numbers by multiplying with the power of ten
/// between their scales, so the time and the memory of an operation grow
/// with the scales; the limit keeps both small. It is far above the scale of
/// any price, amount or fee rate.
pub const SCALE_LIMIT: i64 = 100_000;

/// The number of digits right of the decimal point (`fractional_digit_count`).
pub uninterp spec fn decimal_scale(d: BigDecimal) -> int;

/// Whether the decimal is zero (`is_zero`).
pub uninterp spec fn decimal_is_zero(d: BigDecimal) -> bool;

/// What `BigDecimal::from_str` makes of a text: the number, or nothing where
/// the text is no decimal literal.
pub uninterp spec fn parsed_decimal(text: Seq<char>) -> Option<BigDecimal>;

/// The quotient that `&a / &b` computes, at the crate's default precision.
pub uninterp spec fn decimal_quotient(a: BigDecimal, b: BigDecimal) -> BigDecimal;

/// The product that `a * &b` computes.
pub uninterp spec fn decimal_product(a: BigDecimal, b: BigDecimal) -> BigDecimal;

/// The sum that `a + &b` computes.
pub uninterp spec fn decimal_sum(a: BigDecimal, b: BigDecimal) -> BigDecimal;

/// The difference that `a - &b` computes.
pub uninterp spec fn decimal_difference(a: BigDecimal, b: BigDecimal) -> BigDecimal;

/// What `with_scale_round(scale, mode)` returns: the number with `scale`
/// digits right of the decimal point that is next to `d` in the given
/// direction.
pub uninterp spec fn decimal_rounded(d: BigDecimal, scale: int, mode: Rounding) -> BigDecimal;

/// Whether `a <= b` holds of the two numbers, as the crate compares them.
pub uninterp spec fn decimal_le(a: BigDecimal, b: BigDecimal) -> bool;

/// Whether a decimal's scale is one this library does arithmetic on.
pub open spec fn scale_in_range(d: BigDecimal) -> bool {
    -SCALE_LIMIT <= decimal_scale(d) <= SCALE_LIMIT
}

/// Calls `BigDecimal::from_str`. The result is a function of the text alone;
/// a text that the crate refuses gives `None`.
#[verifier::external_body]
pub(crate) fn parse_decimal(text: &str) -> (r: Option<BigDecimal>)
    ensures
        r == parsed_decimal(text@),
{
    BigDecimal::from_str(text).ok()
}

/// Calls `BigDecimal::fractional_digit_count`, which hands out the scale.
#[verifier::external_body]
pub(crate) fn scale_of(d: &BigDecimal) -> (r: i64)
    ensures
        r == decimal_scale(*d),
{
    d.fractional_digit_count()
}

/// Calls `Zero::is_zero` of `BigDecimal`.
#[verifier::external_body]
pub(crate) fn is_zero(d: &BigDecimal) -> (r: bool)
    ensures
        r == decimal_is_zero(*d),
{
    bigdecimal::Zero::is_zero(d)
}

/// `BigDecimal::clone` copies digits and scale: the copy is the number itself.
pub assume_specification[ <BigDecimal as Clone>::clone ](d: &BigDecimal) -> (r: BigDecimal)
    ensures
        r == *d,
;

/// Calls `&a / &b`. The crate panics on a zero divisor and subtracts the two
/// scales, so both are asked to be in range and the divisor not to be zero.
#[verifier::external_body]
pub(crate) fn divide(a: &BigDecimal, b: &BigDecimal) -> (r: BigDecimal)
    requires
        !decimal_is_zero(*b),
        scale_in_range(*a),
        scale_in_range(*b),
    ensures
        r == decimal_quotient(*a, *b),
{
    a / b
}

/// Calls `a * &b`. The crate adds the two scales, so both are asked to be in
/// range.
#[verifier::external_body]
pub(crate) fn multiply(a: BigDecimal, b: &BigDecimal) -> (r: BigDecimal)
    requires
        scale_in_range(a),
        scale_in_range(*b),
    ensures
        r == decimal_product(a, *b),
{
    a * b
}

/// Calls `a + &b`. Where neither number is zero the crate brings both to
/// the larger scale, so both scales are asked to be in range.
#[verifier::external_body]
pub(crate) fn plus(a: BigDecimal, b: &BigDecimal) -> (r: BigDecimal)
    requires
        scale_in_range(a),
        scale_in_range(*b),
    ensures
        r == decimal_sum(a, *b),
{
    a + b
}

/// Calls `a - &b`. Where neither number is zero the crate brings both to
/// the larger scale, so both scales are asked to be in range.
#[verifier::external_body]
pub(crate) fn minus(a: BigDecimal, b: &BigDecimal) -> (r: BigDecimal)
    requires
        scale_in_range(a),
        scale_in_range(*b),
    ensures
        r == decimal_difference(a, *b),
{
    a - b
}

/// Calls `a <= b`. The crate compares signs first and then the digits at
/// the difference of the two scales, which it measures without building a
/// power of ten, so every pair of numbers is compared.
#[verifier::external_body]
pub(crate) fn not_above(a: &BigDecimal, b: &BigDecimal) -> (r: bool)
    ensures
        r == decimal_le(*a, *b),
{
    a <= b
}

/// Calls `BigDecimal::with_scale_round`. Every branch of it builds its
/// result with the scale it was asked for, so that is the result's scale.
/// The crate multiplies by the power of ten between the two scales, so both
/// are asked to be in range.
#[verifier::external_body]
pub(crate) fn round_to_scale(d: &BigDecimal, scale: i64, mode: Rounding) -> (r: BigDecimal)
    requires
        scale_in_range(*d),
        -SCALE_LIMIT <= scale <= SCALE_LIMIT,
    ensures
        r == decimal_rounded(*d, scale as int, mode),
        decimal_scale(r) == scale,
{
    match mode {
        Rounding::Down => d.with_scale_round(scale, RoundingMode::Down),
        Rounding::Up => d.with_scale_round(scale, RoundingMode::Up),
    }
}

} // verus!
