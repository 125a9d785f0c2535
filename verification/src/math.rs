//! Wide-ratio arithmetic borrowed from the host's integer library.

use vstd::prelude::*;

verus! {

/// Relies on `cosmwasm_std::Uint128::multiply_ratio`: it multiplies into a
/// 256-bit intermediate and floor-divides, so the result is exactly
/// `amount * numerator / denominator` whenever the denominator is non-zero
/// and the quotient fits in a `u128` (outside those bounds it panics, which
/// the preconditions rule out).
#[verifier::external_body]
pub(crate) fn mul_ratio_floor(amount: u128, numerator: u128, denominator: u128) -> (r: u128)
    requires
        denominator > 0,
        amount * numerator / (denominator as int) <= u128::MAX,
    ensures
        r == amount * numerator / (denominator as int),
{
    cosmwasm_std::Uint128::new(amount).multiply_ratio(numerator, denominator).u128()
}

} // verus!
