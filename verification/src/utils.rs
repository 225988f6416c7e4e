//! Rounding at an exchange's step size, and decimals from text.

use vstd::prelude::*;
use vstd::string::StringExecFns;
use vstd::string::StrSliceExecFns;
use bigdecimal::BigDecimal;
use crate::decimal::{
    decimal_difference, decimal_is_zero, decimal_le, decimal_product, decimal_quotient,
    decimal_rounded, decimal_sum, divide, is_zero, minus, multiply, not_above, parse_decimal,
    parsed_decimal, plus, round_to_scale, scale_in_range, scale_of, Rounding, SCALE_LIMIT,
};
use crate::errors::{AppError, AppResult};
use crate::paths::{
    has_parent_step, holds_parent_step, joined, relative_part, relative_part_keeps_parent_steps,
    trim_leading, trim_text,
};

verus! {

/// Puts a path that a user names behind a base directory. The white space
/// around the path and its leading slashes are dropped first. A path that
/// holds two dots side by side could climb out of the base directory and is
/// refused; nothing else is looked at, and nothing on disk is touched.
pub fn safe_join(base_dir: &str, path: &str) -> (r: AppResult<String>)
    ensures
        match r {
            Ok(p) => !has_parent_step(path@) && p@ == joined(base_dir@, relative_part(path@)),
            Err(e) => has_parent_step(path@) && e is BadRequest && e.message_spec()
                == "Path traversal attempt detected"@,
        },
{
    let relative = trim_leading(trim_text(path), '/');
    proof {
        relative_part_keeps_parent_steps(path@);
    }
    if holds_parent_step(relative) {
        return Err(AppError::BadRequest(String::from_str("Path traversal attempt detected")));
    }
    let mut candidate = String::from_str(base_dir);
    let base_len: usize = base_dir.unicode_len();
    if base_len > 0 && base_dir.get_char(base_len - 1) != '/' {
        proof {
            reveal_strlit("/");
            assert("/"@ =~= seq!['/']);
        }
        candidate.append("/");
    }
    candidate.append(relative);
    Ok(candidate)
}

/// Whether the first names of `path` are those of `base`, one for one.
pub open spec fn is_below(base: Seq<String>, path: Seq<String>) -> bool {
    base.len() <= path.len() && forall|i: int| 0 <= i < base.len() ==> (#[trigger] base[i])@ == path[i]@
}

/// Whether a resolved path lies in or below a resolved base directory,
/// both given by the names of their components.
pub fn is_within(base: &Vec<String>, path: &Vec<String>) -> (r: bool)
    ensures
        r == is_below(base@, path@),
{
    if base.len() > path.len() {
        return false;
    }
    let mut i: usize = 0;
    while i < base.len()
        invariant
            i <= base.len(),
            base.len() <= path.len(),
            forall|j: int| 0 <= j < i ==> (#[trigger] base@[j])@ == path@[j]@,
        decreases base.len() - i,
    {
        if base[i] != path[i] {
            return false;
        }
        i = i + 1;
    }
    true
}

/// Admits a resolved path that lies in or below the resolved base
/// directory, and refuses any other as an attempt to climb out of it.
pub fn confine(base: &Vec<String>, path: &Vec<String>) -> (r: AppResult<()>)
    ensures
        match r {
            Ok(_) => is_below(base@, path@),
            Err(e) => !is_below(base@, path@) && e is BadRequest && e.message_spec()
                == "Path traversal attempt detected"@,
        },
{
    if is_within(base, path) {
        Ok(())
    } else {
        Err(AppError::BadRequest(String::from_str("Path traversal attempt detected")))
    }
}

/// Confines a user's path to a base directory, by its text and by what it
/// resolved to: `base` and `resolved` are the components of the base
/// directory and of the joined path as the file system resolves them. The
/// path is refused where it holds two dots side by side, and where it
/// resolved to a place that is not in or below the base directory; else the
/// resolved path is handed back.
pub fn safe_join_within(base_dir: &str, path: &str, base: &Vec<String>, resolved: Vec<String>) -> (r:
    AppResult<Vec<String>>)
    ensures
        match r {
            Ok(p) => !has_parent_step(path@) && is_below(base@, resolved@) && p == resolved,
            Err(e) => (has_parent_step(path@) || !is_below(base@, resolved@)) && e is BadRequest
                && e.message_spec() == "Path traversal attempt detected"@,
        },
{
    match safe_join(base_dir, path) {
        Ok(_) => {},
        Err(e) => {
            return Err(e);
        },
    }
    match confine(base, &resolved) {
        Ok(_) => Ok(resolved),
        Err(e) => Err(e),
    }
}

/// The message of a field that holds no decimal literal.
pub open spec fn invalid_field_message(field_name: Seq<char>, value: Seq<char>) -> Seq<char> {
    "Invalid "@ + field_name + ": "@ + value
}

/// Reads a decimal from text. A text that is no decimal literal is refused
/// with a message that names the field and repeats the text.
pub fn str_to_bigdecimal(value: &str, field_name: &str) -> (r: AppResult<BigDecimal>)
    ensures
        match r {
            Ok(d) => parsed_decimal(value@) == Some(d),
            Err(e) => parsed_decimal(value@) is None && e is BadRequest
                && e.message_spec() == invalid_field_message(field_name@, value@),
        },
{
    match parse_decimal(value) {
        Some(d) => Ok(d),
        None => {
            let mut message = String::from_str("Invalid ");
            message.append(field_name);
            message.append(": ");
            message.append(value);
            Err(AppError::BadRequest(message))
        },
    }
}

/// Whether the arithmetic of a rounding is defined for this library: either
/// the step is zero and nothing is computed, or the scales of the value, of
/// the step and of their quotient are in range.
pub open spec fn rounding_defined(value: BigDecimal, step: BigDecimal) -> bool {
    decimal_is_zero(step) || (scale_in_range(value) && scale_in_range(step) && scale_in_range(
        decimal_quotient(value, step),
    ))
}

/// A value brought to a multiple of a step: the value itself where the step
/// is zero, else the quotient, rounded to a whole number, times the step.
pub open spec fn rounded_to_step(value: BigDecimal, step: BigDecimal, mode: Rounding) -> BigDecimal {
    if decimal_is_zero(step) {
        value
    } else {
        decimal_product(decimal_rounded(decimal_quotient(value, step), 0, mode), step)
    }
}

fn round_to_step(value: &BigDecimal, step: &BigDecimal, mode: Rounding) -> (r: BigDecimal)
    requires
        rounding_defined(*value, *step),
    ensures
        r == rounded_to_step(*value, *step, mode),
{
    if is_zero(step) {
        return value.clone();
    }
    let divided = divide(value, step);
    let whole = round_to_scale(&divided, 0, mode);
    multiply(whole, step)
}

/// With a zero step, rounding in either direction gives the value itself.
pub proof fn zero_step_keeps_value(value: BigDecimal, step: BigDecimal, mode: Rounding)
    requires
        decimal_is_zero(step),
    ensures
        rounded_to_step(value, step, mode) == value,
        rounding_defined(value, step),
{
}

/// Rounds a value toward zero to a multiple of `precision`; a zero
/// `precision` means that no rounding is configured.
pub fn round_down_to_precision(value: &BigDecimal, precision: &BigDecimal) -> (r: BigDecimal)
    requires
        rounding_defined(*value, *precision),
    ensures
        r == rounded_to_step(*value, *precision, Rounding::Down),
        decimal_is_zero(*precision) ==> r == *value,
{
    round_to_step(value, precision, Rounding::Down)
}

/// Rounds a value away from zero to a multiple of `precision`; a zero
/// `precision` means that no rounding is configured.
pub fn round_up_to_precision(value: &BigDecimal, precision: &BigDecimal) -> (r: BigDecimal)
    requires
        rounding_defined(*value, *precision),
    ensures
        r == rounded_to_step(*value, *precision, Rounding::Up),
        decimal_is_zero(*precision) ==> r == *value,
{
    round_to_step(value, precision, Rounding::Up)
}

/// Whether a scale read from a decimal is one this library computes on.
pub fn in_range(d: &BigDecimal) -> (r: bool)
    ensures
        r == scale_in_range(*d),
{
    let s: i64 = scale_of(d);
    -SCALE_LIMIT <= s && s <= SCALE_LIMIT
}

/// Tests whether a rounding is defined for the two numbers.
pub fn can_round(value: &BigDecimal, precision: &BigDecimal) -> (r: bool)
    ensures
        r == rounding_defined(*value, *precision),
{
    if is_zero(precision) {
        return true;
    }
    if !in_range(value) || !in_range(precision) {
        return false;
    }
    let divided = divide(value, precision);
    in_range(&divided)
}

/// Rounds toward zero where the rounding is defined, and says so where it
/// is not.
pub fn try_round_down_to_precision(value: &BigDecimal, precision: &BigDecimal) -> (r: Option<
    BigDecimal,
>)
    ensures
        r == if rounding_defined(*value, *precision) {
            Some(rounded_to_step(*value, *precision, Rounding::Down))
        } else {
            None
        },
{
    if can_round(value, precision) {
        Some(round_down_to_precision(value, precision))
    } else {
        None
    }
}

/// Rounds away from zero where the rounding is defined, and says so where it
/// is not.
pub fn try_round_up_to_precision(value: &BigDecimal, precision: &BigDecimal) -> (r: Option<
    BigDecimal,
>)
    ensures
        r == if rounding_defined(*value, *precision) {
            Some(rounded_to_step(*value, *precision, Rounding::Up))
        } else {
            None
        },
{
    if can_round(value, precision) {
        Some(round_up_to_precision(value, precision))
    } else {
        None
    }
}

/// The result of an operation on two numbers, where both are in range.
pub open spec fn where_in_range(a: BigDecimal, b: BigDecimal, result: BigDecimal) -> Option<
    BigDecimal,
> {
    if scale_in_range(a) && scale_in_range(b) {
        Some(result)
    } else {
        None
    }
}

/// The product of two numbers, or nothing where one is out of range.
pub fn checked_product(a: &BigDecimal, b: &BigDecimal) -> (r: Option<BigDecimal>)
    ensures
        r == where_in_range(*a, *b, decimal_product(*a, *b)),
{
    if in_range(a) && in_range(b) {
        Some(multiply(a.clone(), b))
    } else {
        None
    }
}

/// The sum of two numbers, or nothing where one is out of range.
pub fn checked_sum(a: &BigDecimal, b: &BigDecimal) -> (r: Option<BigDecimal>)
    ensures
        r == where_in_range(*a, *b, decimal_sum(*a, *b)),
{
    if in_range(a) && in_range(b) {
        Some(plus(a.clone(), b))
    } else {
        None
    }
}

/// The difference of two numbers, or nothing where one is out of range.
pub fn checked_difference(a: &BigDecimal, b: &BigDecimal) -> (r: Option<BigDecimal>)
    ensures
        r == where_in_range(*a, *b, decimal_difference(*a, *b)),
{
    if in_range(a) && in_range(b) {
        Some(minus(a.clone(), b))
    } else {
        None
    }
}

/// Compares two numbers: whether the first is not above the second.
pub fn is_not_above(a: &BigDecimal, b: &BigDecimal) -> (r: bool)
    ensures
        r == decimal_le(*a, *b),
{
    not_above(a, b)
}

} // verus!
