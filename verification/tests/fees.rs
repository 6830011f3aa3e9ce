//! Exact values and bounds for the fixed-point fee calculator.

use bid_festival::error::ContractError;
use bid_festival::fees::{fee_decimal_to_uint128, get_owner_fee_amount};

/// Fixed-point rate for 3%: `0.03 * 10^20`.
const FEE_3_PERCENT: u128 = 3_000_000_000_000_000_000;
/// One, as a fixed-point rate: `10^20`.
const ONE: u128 = 100_000_000_000_000_000_000;

#[test]
fn numerator_of_three_percent_is_300() {
    assert_eq!(fee_decimal_to_uint128(FEE_3_PERCENT), Ok(300));
    assert_eq!(fee_decimal_to_uint128(0), Ok(0));
    assert_eq!(fee_decimal_to_uint128(ONE - 1), Ok(9999));
}

#[test]
fn numerator_overflow_reported() {
    let r = fee_decimal_to_uint128(u128::MAX);
    assert!(matches!(r, Err(ContractError::Std { .. })));
}

#[test]
fn fee_exact_values() {
    assert_eq!(get_owner_fee_amount(1000, FEE_3_PERCENT), Ok(30));
    assert_eq!(get_owner_fee_amount(1500, FEE_3_PERCENT), Ok(45));
    assert_eq!(get_owner_fee_amount(0, FEE_3_PERCENT), Ok(0));
    assert_eq!(get_owner_fee_amount(1000, 0), Ok(0));
    // floor rounding: 33 * 300 / 10000 = 0.99 rounds down to 0
    assert_eq!(get_owner_fee_amount(33, FEE_3_PERCENT), Ok(0));
    assert_eq!(get_owner_fee_amount(34, FEE_3_PERCENT), Ok(1));
    // 10001 * 300 / 10000 = 300.03 rounds down to 300
    assert_eq!(get_owner_fee_amount(10001, FEE_3_PERCENT), Ok(300));
}

#[test]
fn fee_never_exceeds_principal_below_rate_one() {
    // the largest representable rate strictly below one
    for principal in [0u128, 1, 33, 1000, u128::MAX] {
        let fee = get_owner_fee_amount(principal, ONE - 1).unwrap();
        assert!(fee <= principal);
        let fee = get_owner_fee_amount(principal, FEE_3_PERCENT).unwrap();
        assert!(fee <= principal);
    }
    assert_eq!(get_owner_fee_amount(1000, ONE - 1), Ok(999));
    assert_eq!(get_owner_fee_amount(u128::MAX, ONE - 1), Ok(u128::MAX / 10000 * 9999 + (u128::MAX % 10000) * 9999 / 10000));
}

#[test]
fn oversized_fee_reported_not_truncated() {
    // a rate of one hundred: the fee on a maximal principal cannot be
    // represented, and the calculator says so instead of wrapping
    let rate_hundred = u128::MAX / 10_000_000_000;
    let r = get_owner_fee_amount(u128::MAX, rate_hundred);
    assert!(matches!(r, Err(ContractError::Std { .. })));
}
