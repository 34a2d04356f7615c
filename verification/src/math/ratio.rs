//! Taking a ratio of an amount, rounded down, with every intermediate checked.

use vstd::prelude::*;
use crate::error::ErrorCode;

verus! {

/// Whether `amount * numerator / denominator` can be computed in 128 bits:
/// the divisor is not zero and the product fits.
pub open spec fn ratio_is_defined(amount: u128, numerator: u128, denominator: u128) -> bool {
    denominator != 0 && amount * numerator <= u128::MAX
}

/// `amount * numerator / denominator` over the mathematical integers, rounded
/// toward zero.
pub open spec fn ratio_floor(amount: u128, numerator: u128, denominator: u128) -> int {
    (amount * numerator) / (denominator as int)
}

/// What taking a ratio yields: the rounded-down quotient where it is defined,
/// an arithmetic error where it is not.
pub open spec fn spec_checked_ratio(amount: u128, numerator: u128, denominator: u128) -> Result<
    u128,
    ErrorCode,
> {
    if ratio_is_defined(amount, numerator, denominator) {
        Ok(ratio_floor(amount, numerator, denominator) as u128)
    } else {
        Err(ErrorCode::MathError)
    }
}

/// A defined ratio fits in 128 bits, so the conversion in
/// [`spec_checked_ratio`] loses nothing.
pub proof fn ratio_floor_fits(amount: u128, numerator: u128, denominator: u128)
    requires
        ratio_is_defined(amount, numerator, denominator),
    ensures
        0 <= ratio_floor(amount, numerator, denominator) <= amount * numerator,
        ratio_floor(amount, numerator, denominator) <= u128::MAX,
{
    let p: int = amount * numerator;
    let d: int = denominator as int;
    assert(0 <= p) by (nonlinear_arith)
        requires
            p == amount * numerator,
    ;
    assert(0 <= p / d <= p) by (nonlinear_arith)
        requires
            0 <= p,
            0 < d,
    ;
}

/// Computes `floor(amount * numerator / denominator)`.
///
/// Fails exactly when the product exceeds 128 bits or the denominator is zero.
pub fn checked_ratio(amount: u128, numerator: u128, denominator: u128) -> (r: Result<
    u128,
    ErrorCode,
>)
    ensures
        r == spec_checked_ratio(amount, numerator, denominator),
        r is Ok <==> ratio_is_defined(amount, numerator, denominator),
        r is Ok ==> r->Ok_0 == ratio_floor(amount, numerator, denominator),
{
    match amount.checked_mul(numerator) {
        None => Err(ErrorCode::MathError),
        Some(product) => match product.checked_div(denominator) {
            None => Err(ErrorCode::MathError),
            Some(quotient) => {
                proof {
                    ratio_floor_fits(amount, numerator, denominator);
                }
                Ok(quotient)
            },
        },
    }
}

/// What is left of `amount` once `carve_out` is taken from it: an arithmetic
/// error where the carve-out is the larger.
pub open spec fn spec_checked_deduct(amount: u128, carve_out: u128) -> Result<u128, ErrorCode> {
    if carve_out <= amount {
        Ok((amount - carve_out) as u128)
    } else {
        Err(ErrorCode::MathError)
    }
}

/// Computes `amount - carve_out`.
///
/// Fails exactly when `carve_out` exceeds `amount`.
pub fn checked_deduct(amount: u128, carve_out: u128) -> (r: Result<u128, ErrorCode>)
    ensures
        r == spec_checked_deduct(amount, carve_out),
        r is Ok <==> carve_out <= amount,
        r is Ok ==> r->Ok_0 == amount - carve_out,
{
    match amount.checked_sub(carve_out) {
        None => Err(ErrorCode::MathError),
        Some(rest) => Ok(rest),
    }
}

} // verus!
