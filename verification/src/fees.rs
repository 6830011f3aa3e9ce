use vstd::arithmetic::div_mod::{
    lemma_div_is_ordered, lemma_div_multiples_vanish, lemma_fundamental_div_mod,
    lemma_hoist_over_denominator,
};
use vstd::arithmetic::mul::lemma_mul_inequality;
use vstd::prelude::*;

use crate::error::ContractError;

verus! {

/// The fee numerator is expressed in units of `1 / FEE_SCALE_FACTOR`
/// ("basis points").
pub const FEE_SCALE_FACTOR: u128 = 10_000;

/// Precision of the fixed-point fee rate: a rate `r` is stored as the
/// integer `r * FEE_DECIMAL_PRECISION`, so a rate strictly below one (100%)
/// is an integer strictly below this constant.
pub const FEE_DECIMAL_PRECISION: u128 = 100_000_000_000_000_000_000;

/// The integral basis-points-like numerator derived from a fixed-point fee
/// rate: `floor(rate * FEE_SCALE_FACTOR / FEE_DECIMAL_PRECISION)`.
pub open spec fn spec_fee_numerator(fee: u128) -> int {
    (fee * FEE_SCALE_FACTOR) / (FEE_DECIMAL_PRECISION as int)
}

/// The fee owed on `principal` at the fixed-point rate `fee`:
/// zero for a zero rate, else `floor(principal * numerator / FEE_SCALE_FACTOR)`.
pub open spec fn spec_fee(principal: u128, fee: u128) -> int {
    if fee == 0 {
        0int
    } else {
        (principal * spec_fee_numerator(fee)) / (FEE_SCALE_FACTOR as int)
    }
}

/// The fee on `principal` at rate `fee` can be computed without any
/// intermediate or final value escaping the amount type.
pub open spec fn fee_ok(principal: u128, fee: u128) -> bool {
    fee == 0 || (fee * FEE_SCALE_FACTOR <= u128::MAX && spec_fee(principal, fee) <= u128::MAX)
}

/// For every principal and every fixed-point rate in `[0, 1)`, the fee is
/// non-negative, never exceeds the principal, and its computation cannot
/// fail; so `principal - fee` never underflows.
pub proof fn lemma_fee_bounded(principal: u128, fee: u128)
    requires
        fee < FEE_DECIMAL_PRECISION,
    ensures
        0 <= spec_fee(principal, fee) <= principal,
        fee_ok(principal, fee),
{
    if fee != 0 {
        lemma_mul_inequality(fee as int, FEE_DECIMAL_PRECISION - 1, FEE_SCALE_FACTOR as int);
        assert(fee * FEE_SCALE_FACTOR <= (FEE_DECIMAL_PRECISION - 1) * FEE_SCALE_FACTOR);
        lemma_div_is_ordered(
            fee * FEE_SCALE_FACTOR,
            (FEE_DECIMAL_PRECISION - 1) * FEE_SCALE_FACTOR,
            FEE_DECIMAL_PRECISION as int,
        );
        assert(((FEE_DECIMAL_PRECISION - 1) * FEE_SCALE_FACTOR) / (FEE_DECIMAL_PRECISION as int)
            < FEE_SCALE_FACTOR) by (nonlinear_arith);
        let num = spec_fee_numerator(fee);
        assert(0 <= num) by {
            lemma_div_is_ordered(0, fee * FEE_SCALE_FACTOR, FEE_DECIMAL_PRECISION as int);
            assert(0 <= fee * FEE_SCALE_FACTOR) by (nonlinear_arith);
        }
        lemma_mul_inequality(num, FEE_SCALE_FACTOR as int, principal as int);
        lemma_div_is_ordered(
            principal * num,
            FEE_SCALE_FACTOR * principal,
            FEE_SCALE_FACTOR as int,
        );
        lemma_div_multiples_vanish(principal as int, FEE_SCALE_FACTOR as int);
        assert(0 <= principal * num) by (nonlinear_arith)
            requires 0 <= num && 0 <= principal;
        lemma_div_is_ordered(0, principal * num, FEE_SCALE_FACTOR as int);
    }
}

/// Converts a fixed-point fee rate into the integral numerator
/// `floor(rate * FEE_SCALE_FACTOR / FEE_DECIMAL_PRECISION)`, failing only
/// when the scaling multiplication overflows the amount type.
pub fn fee_decimal_to_uint128(fee: u128) -> (r: Result<u128, ContractError>)
    ensures
        r is Ok <==> fee * FEE_SCALE_FACTOR <= u128::MAX,
        r is Ok ==> r->Ok_0 == spec_fee_numerator(fee),
        r is Err ==> r->Err_0 is Std,
{
    match fee.checked_mul(FEE_SCALE_FACTOR) {
        Some(scaled) => Ok(scaled / FEE_DECIMAL_PRECISION),
        None => Err(ContractError::Std { msg: "fee rate scaling overflowed".to_owned() }),
    }
}

/// Computes `floor(a * b / FEE_SCALE_FACTOR)` exactly, as if through a
/// double-width intermediate product, returning `None` precisely when the
/// result does not fit the amount type.
///
/// Splitting both factors at the scale factor keeps every intermediate
/// value within range whenever the result itself is in range:
/// `floor(a*b/s) == (a/s)*b + (a%s)*(b/s) + floor((a%s)*(b%s)/s)`.
fn mul_div_scale(a: u128, b: u128) -> (r: Option<u128>)
    ensures
        (a * b) / (FEE_SCALE_FACTOR as int) <= u128::MAX
            ==> r == Some((((a * b) / (FEE_SCALE_FACTOR as int)) as u128)),
        (a * b) / (FEE_SCALE_FACTOR as int) > u128::MAX ==> r is None,
{
    let qa: u128 = a / FEE_SCALE_FACTOR;
    let ra: u128 = a % FEE_SCALE_FACTOR;
    let qb: u128 = b / FEE_SCALE_FACTOR;
    let rb: u128 = b % FEE_SCALE_FACTOR;
    proof {
        lemma_mul_div_scale_decomposition(a, b);
        assert(ra * qb <= FEE_SCALE_FACTOR * qb) by {
            lemma_mul_inequality(ra as int, FEE_SCALE_FACTOR as int, qb as int);
        }
        assert(FEE_SCALE_FACTOR * qb <= b) by {
            lemma_fundamental_div_mod(b as int, FEE_SCALE_FACTOR as int);
        }
        assert(ra * rb <= 9999 * 9999) by (nonlinear_arith)
            requires ra <= 9999 && rb <= 9999;
    }
    let mid: u128 = ra * qb;
    let low: u128 = (ra * rb) / FEE_SCALE_FACTOR;
    match qa.checked_mul(b) {
        Some(high) => match high.checked_add(mid) {
            Some(s) => match s.checked_add(low) {
                Some(total) => Some(total),
                None => None,
            },
            None => None,
        },
        None => None,
    }
}

/// `floor(a*b/s) == (a/s)*b + (a%s)*(b/s) + floor((a%s)*(b%s)/s)` for
/// `s == FEE_SCALE_FACTOR`, with every summand non-negative.
proof fn lemma_mul_div_scale_decomposition(a: u128, b: u128)
    ensures
        (a * b) / (FEE_SCALE_FACTOR as int) == (a / FEE_SCALE_FACTOR) * b + (a % FEE_SCALE_FACTOR)
            * (b / FEE_SCALE_FACTOR) + ((a % FEE_SCALE_FACTOR) * (b % FEE_SCALE_FACTOR)) / (
        FEE_SCALE_FACTOR as int),
        0 <= (a / FEE_SCALE_FACTOR) * b,
        0 <= (a % FEE_SCALE_FACTOR) * (b / FEE_SCALE_FACTOR),
        0 <= ((a % FEE_SCALE_FACTOR) * (b % FEE_SCALE_FACTOR)) / (FEE_SCALE_FACTOR as int),
{
    let s = FEE_SCALE_FACTOR as int;
    let qa = a as int / s;
    let ra = a as int % s;
    let qb = b as int / s;
    let rb = b as int % s;
    lemma_fundamental_div_mod(a as int, s);
    lemma_fundamental_div_mod(b as int, s);
    assert(a * b == ra * b + (qa * b) * s) by (nonlinear_arith)
        requires a == s * qa + ra;
    lemma_hoist_over_denominator(ra * b, qa * b, FEE_SCALE_FACTOR as nat);
    assert((a * b) / s == (ra * b) / s + qa * b);
    assert(ra * b == ra * rb + (ra * qb) * s) by (nonlinear_arith)
        requires b == s * qb + rb;
    lemma_hoist_over_denominator(ra * rb, ra * qb, FEE_SCALE_FACTOR as nat);
    assert((ra * b) / s == (ra * rb) / s + ra * qb);
    assert(0 <= qa * b && 0 <= ra * qb && 0 <= ra * rb) by (nonlinear_arith)
        requires 0 <= qa && 0 <= b && 0 <= ra && 0 <= qb && 0 <= rb;
    lemma_div_is_ordered(0, ra * rb, s);
}

/// The fee owed to the owner on `input_amount` at the fixed-point rate
/// `fee_percent`: exactly `spec_fee(input_amount, fee_percent)`, with
/// deterministic floor rounding. Fails only when the rate is at least one
/// and an intermediate or the result escapes the amount type; for every
/// rate strictly below one the call succeeds and the fee never exceeds the
/// principal.
pub fn get_owner_fee_amount(input_amount: u128, fee_percent: u128) -> (r: Result<
    u128,
    ContractError,
>)
    ensures
        r is Ok <==> fee_ok(input_amount, fee_percent),
        r is Ok ==> r->Ok_0 == spec_fee(input_amount, fee_percent),
        r is Err ==> r->Err_0 is Std,
        fee_percent < FEE_DECIMAL_PRECISION ==> r is Ok && r->Ok_0 <= input_amount,
{
    proof {
        if fee_percent < FEE_DECIMAL_PRECISION {
            lemma_fee_bounded(input_amount, fee_percent);
        }
    }
    if fee_percent == 0 {
        return Ok(0);
    }
    let numerator = match fee_decimal_to_uint128(fee_percent) {
        Ok(n) => n,
        Err(e) => {
            return Err(e);
        },
    };
    match mul_div_scale(input_amount, numerator) {
        Some(f) => Ok(f),
        None => Err(ContractError::Std { msg: "fee does not fit the amount type".to_owned() }),
    }
}

} // verus!
