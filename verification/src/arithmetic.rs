//! Overflow-checked basis-point arithmetic on monetary quantities.
//!
//! Every operation either returns the exact mathematical result or fails with
//! `Error::ArithmeticOverflow`; nothing wraps or truncates silently.

use vstd::prelude::*;
use vstd::arithmetic::div_mod::{lemma_div_is_ordered, lemma_div_multiples_vanish, lemma_div_pos_is_pos, lemma_remainder_lower};
use crate::errors::Error;

verus! {

/// One whole, in basis points.
pub const BPS_DENOMINATOR: i128 = 10000;

/// The flash loan fee, in basis points (0.09%).
pub const FLASH_LOAN_FEE_BPS: i128 = 9;

/// Numerator of the constant-product venue fee (0.3% stays with the venue).
pub const SWAP_FEE_NUMERATOR: i128 = 997;

/// Denominator of the constant-product venue fee.
pub const SWAP_FEE_DENOMINATOR: i128 = 1000;

/// Whether `x` is representable as a signed 128-bit amount.
pub open spec fn fits_i128(x: int) -> bool {
    i128::MIN <= x <= i128::MAX
}

/// `bps` basis points of `amount`, rounded down (towards negative infinity).
pub open spec fn bps_of(amount: int, bps: int) -> int {
    amount * bps / 10000
}

/// The flash loan fee owed on `amount`.
pub open spec fn fee_of(amount: int) -> int {
    bps_of(amount, 9)
}

/// The least output accepted when `expected` may fall short by `slippage_bps`.
pub open spec fn slippage_floor(expected: int, slippage_bps: int) -> int {
    bps_of(expected, 10000 - slippage_bps)
}

/// The amount entering the constant-product curve after the venue fee.
pub open spec fn amount_in_with_fee(amount_in: int) -> int {
    amount_in * 997
}

/// Numerator of the constant-product curve.
pub open spec fn curve_numerator(reserve_out: int, amount_in: int) -> int {
    amount_in_with_fee(amount_in) * reserve_out
}

/// Denominator of the constant-product curve.
pub open spec fn curve_denominator(reserve_in: int, amount_in: int) -> int {
    reserve_in * 1000 + amount_in_with_fee(amount_in)
}

/// Output of the constant-product curve with its 0.3% fee: the quotient of
/// numerator and denominator, rounded down wherever the denominator is
/// positive, as it is on every pool with a positive input reserve and a
/// non-negative input.
pub open spec fn constant_product_out(reserve_in: int, reserve_out: int, amount_in: int) -> int {
    curve_numerator(reserve_out, amount_in) / curve_denominator(reserve_in, amount_in)
}

/// Whether every step of the constant-product computation is representable
/// and the division is defined.
pub open spec fn constant_product_defined(reserve_in: int, reserve_out: int, amount_in: int) -> bool {
    &&& fits_i128(amount_in_with_fee(amount_in))
    &&& fits_i128(curve_numerator(reserve_out, amount_in))
    &&& fits_i128(reserve_in * 1000)
    &&& fits_i128(curve_denominator(reserve_in, amount_in))
    &&& curve_denominator(reserve_in, amount_in) != 0
    &&& fits_i128(constant_product_out(reserve_in, reserve_out, amount_in))
}

/// Lifts a checked operation's outcome into the library's error type.
pub fn overflow_checked(value: Option<i128>) -> (res: Result<i128, Error>)
    ensures
        res == (match value {
            Some(v) => Ok::<i128, Error>(v),
            None => Err::<i128, Error>(Error::ArithmeticOverflow),
        }),
{
    match value {
        Some(v) => Ok(v),
        None => Err(Error::ArithmeticOverflow),
    }
}

/// `bps` basis points of `amount`, rounded down; fails when `amount * bps`
/// is not representable.
pub fn scale_by_bps(amount: i128, bps: i128) -> (res: Result<i128, Error>)
    ensures
        fits_i128(amount * bps) ==> res == Ok::<i128, Error>(bps_of(amount as int, bps as int) as i128),
        fits_i128(amount * bps) ==> fits_i128(bps_of(amount as int, bps as int)),
        !fits_i128(amount * bps) ==> res == Err::<i128, Error>(Error::ArithmeticOverflow),
{
    let product = overflow_checked(amount.checked_mul(bps))?;
    overflow_checked(product.checked_div_euclid(BPS_DENOMINATOR))
}

/// The flash loan fee on `amount`: nine basis points, rounded down.
pub fn flash_loan_fee(amount: i128) -> (res: Result<i128, Error>)
    ensures
        fits_i128(amount * 9) ==> res == Ok::<i128, Error>(fee_of(amount as int) as i128),
        fits_i128(amount * 9) ==> fits_i128(fee_of(amount as int)),
        !fits_i128(amount * 9) ==> res == Err::<i128, Error>(Error::ArithmeticOverflow),
{
    scale_by_bps(amount, FLASH_LOAN_FEE_BPS)
}

/// The least acceptable output for `expected` under a tolerance of
/// `slippage_bps`; a tolerance above 10000 has no floor and fails.
pub fn apply_slippage(expected: i128, slippage_bps: u32) -> (res: Result<i128, Error>)
    ensures
        slippage_bps <= 10000 && fits_i128(expected * (10000 - slippage_bps)) ==> res == Ok::<i128, Error>(
            slippage_floor(expected as int, slippage_bps as int) as i128,
        ),
        slippage_bps <= 10000 && fits_i128(expected * (10000 - slippage_bps)) ==> fits_i128(
            slippage_floor(expected as int, slippage_bps as int),
        ),
        slippage_bps > 10000 || !fits_i128(expected * (10000 - slippage_bps)) ==> res == Err::<i128, Error>(
            Error::ArithmeticOverflow,
        ),
{
    if slippage_bps > 10000 {
        return Err(Error::ArithmeticOverflow);
    }
    let kept: i128 = BPS_DENOMINATOR - slippage_bps as i128;
    scale_by_bps(expected, kept)
}

/// The least net profit accepted on `principal` for a floor of
/// `min_profit_bps`.
pub fn min_profit_floor(principal: i128, min_profit_bps: u32) -> (res: Result<i128, Error>)
    ensures
        fits_i128(principal * min_profit_bps) ==> res == Ok::<i128, Error>(
            bps_of(principal as int, min_profit_bps as int) as i128,
        ),
        fits_i128(principal * min_profit_bps) ==> fits_i128(bps_of(principal as int, min_profit_bps as int)),
        !fits_i128(principal * min_profit_bps) ==> res == Err::<i128, Error>(Error::ArithmeticOverflow),
{
    scale_by_bps(principal, min_profit_bps as i128)
}

/// Output of the constant-product curve for the given reserves and input.
pub fn constant_product_output(reserve_in: i128, reserve_out: i128, amount_in: i128) -> (res: Result<i128, Error>)
    ensures
        constant_product_defined(reserve_in as int, reserve_out as int, amount_in as int) ==> res == Ok::<i128, Error>(
            constant_product_out(reserve_in as int, reserve_out as int, amount_in as int) as i128,
        ),
        !constant_product_defined(reserve_in as int, reserve_out as int, amount_in as int) ==> res == Err::<
            i128,
            Error,
        >(Error::ArithmeticOverflow),
{
    let with_fee = overflow_checked(amount_in.checked_mul(SWAP_FEE_NUMERATOR))?;
    let numerator = overflow_checked(with_fee.checked_mul(reserve_out))?;
    let scaled_reserve = overflow_checked(reserve_in.checked_mul(SWAP_FEE_DENOMINATOR))?;
    let denominator = overflow_checked(scaled_reserve.checked_add(with_fee))?;
    overflow_checked(numerator.checked_div_euclid(denominator))
}

/// For non-negative amounts the fee is never negative and never more than
/// the amount itself.
pub proof fn lemma_fee_bounds(amount: int)
    requires
        amount >= 0,
    ensures
        0 <= fee_of(amount) <= amount,
{
}

/// For a non-negative expected output and a tolerance of at most 10000 basis
/// points, the slippage floor lies between zero and the expected output, and
/// a larger tolerance never raises it.
pub proof fn lemma_slippage_floor_bounds(expected: int, slippage_bps: int, larger_bps: int)
    requires
        expected >= 0,
        0 <= slippage_bps <= larger_bps <= 10000,
    ensures
        0 <= slippage_floor(expected, slippage_bps) <= expected,
        slippage_floor(expected, larger_bps) <= slippage_floor(expected, slippage_bps),
        slippage_floor(expected, 0) == expected,
        slippage_floor(expected, 10000) == 0,
{
    let kept = 10000 - slippage_bps;
    let kept_less = 10000 - larger_bps;
    assert(0 <= expected * kept_less <= expected * kept <= expected * 10000) by (nonlinear_arith)
        requires
            expected >= 0,
            0 <= kept_less <= kept <= 10000,
    ;
}

/// On a pool with a positive input reserve, the constant-product curve pays
/// nothing negative and never more than the output reserve.
pub proof fn lemma_constant_product_bounded(reserve_in: int, reserve_out: int, amount_in: int)
    requires
        reserve_in > 0,
        reserve_out >= 0,
        amount_in >= 0,
    ensures
        0 <= constant_product_out(reserve_in, reserve_out, amount_in) <= reserve_out,
{
    let weighted = amount_in_with_fee(amount_in);
    let numerator = curve_numerator(reserve_out, amount_in);
    let denominator = curve_denominator(reserve_in, amount_in);
    assert(0 <= numerator <= denominator * reserve_out) by (nonlinear_arith)
        requires
            numerator == weighted * reserve_out,
            denominator == reserve_in * 1000 + weighted,
            weighted >= 0,
            reserve_in > 0,
            reserve_out >= 0,
    ;
    lemma_div_pos_is_pos(numerator, denominator);
    lemma_div_is_ordered(numerator, denominator * reserve_out, denominator);
    lemma_div_multiples_vanish(reserve_out, denominator);
}

/// On fixed reserves, with a positive input reserve, the constant-product
/// curve never pays less for a larger input.
pub proof fn lemma_constant_product_monotonic(reserve_in: int, reserve_out: int, smaller_in: int, larger_in: int)
    requires
        reserve_in > 0,
        reserve_out >= 0,
        0 <= smaller_in <= larger_in,
    ensures
        constant_product_out(reserve_in, reserve_out, smaller_in) <= constant_product_out(
            reserve_in,
            reserve_out,
            larger_in,
        ),
{
    let scaled = reserve_in * 1000;
    let w1 = amount_in_with_fee(smaller_in);
    let w2 = amount_in_with_fee(larger_in);
    let n1 = curve_numerator(reserve_out, smaller_in);
    let n2 = curve_numerator(reserve_out, larger_in);
    let d1 = curve_denominator(reserve_in, smaller_in);
    let d2 = curve_denominator(reserve_in, larger_in);
    let q1 = n1 / d1;
    lemma_constant_product_bounded(reserve_in, reserve_out, smaller_in);
    assert(n1 >= 0) by (nonlinear_arith)
        requires
            n1 == w1 * reserve_out,
            w1 >= 0,
            reserve_out >= 0,
    ;
    lemma_remainder_lower(n1, d1);
    assert(q1 * d2 <= n2) by (nonlinear_arith)
        requires
            q1 * d1 <= n1,
            n1 == w1 * reserve_out,
            n2 == w2 * reserve_out,
            d1 == scaled + w1,
            d2 == scaled + w2,
            0 <= w1 <= w2,
            0 <= q1 <= reserve_out,
            scaled > 0,
    ;
    lemma_div_is_ordered(q1 * d2, n2, d2);
    lemma_div_multiples_vanish(q1, d2);
    assert(d2 * q1 == q1 * d2) by (nonlinear_arith);
}

} // verus!
