//! Multiplication of a value by a ratio, computed without losing the high
//! bits of the intermediate product.
use vstd::prelude::*;
use cosmwasm_std::Uint128;

verus! {

/// `value` scaled by `parts / total`, rounded down. A ratio whose parts equal
/// its total is one, whatever the total, zero included.
pub open spec fn mul_ratio(value: int, parts: int, total: int) -> int {
    if parts == total {
        value
    } else {
        value * parts / total
    }
}

/// `value` scaled by `parts / total` where that is defined and at most `max`.
pub open spec fn checked_ratio(value: int, parts: int, total: int, max: int) -> Option<int> {
    if parts == total {
        Some(value)
    } else if total == 0 || value * parts / total > max {
        None
    } else {
        Some(value * parts / total)
    }
}

/// A quotient of non-negative numbers is non-negative and grows with its
/// numerator.
pub proof fn lemma_ratio_bounds(value: int, parts: int, total: int)
    requires
        0 <= value,
        0 <= parts,
        0 < total,
    ensures
        0 <= value * parts / total,
        parts <= total ==> value * parts / total <= value,
{
    assert(0 <= value * parts) by (nonlinear_arith)
        requires
            0 <= value,
            0 <= parts,
    ;
    assert(0 <= value * parts / total) by (nonlinear_arith)
        requires
            0 <= value * parts,
            0 < total,
    ;
    if parts <= total {
        assert(value * parts <= value * total) by (nonlinear_arith)
            requires
                0 <= value,
                parts <= total,
        ;
        assert(value * parts / total <= value) by (nonlinear_arith)
            requires
                value * parts <= value * total,
                0 < total,
        ;
    }
}

/// Calls `cosmwasm_std::Uint128::checked_multiply_ratio`, which computes
/// `amount * numerator / denominator` over a 256-bit product, rounded down.
/// It yields nothing when the denominator is zero or the quotient does not
/// fit 128 bits.
#[verifier::external_body]
fn checked_multiply_ratio(amount: u128, numerator: u128, denominator: u128) -> (res: Option<u128>)
    ensures
        denominator == 0 ==> res.is_none(),
        denominator != 0 && amount * numerator / (denominator as int) > u128::MAX
            ==> res.is_none(),
        denominator != 0 && amount * numerator / (denominator as int) <= u128::MAX ==> res
            == Some((amount * numerator / (denominator as int)) as u128),
{
    match Uint128::new(amount).checked_multiply_ratio(numerator, denominator) {
        Ok(ratio) => Some(ratio.u128()),
        Err(_) => None,
    }
}

/// Calls `cosmwasm_std::Uint128::full_mul`, which multiplies two 128-bit
/// numbers into a 256-bit product that cannot overflow. The product comes
/// back as its high and its low 128 bits.
#[verifier::external_body]
fn full_mul(left: u128, right: u128) -> (res: (u128, u128))
    ensures
        res.0 * 0x1_0000_0000_0000_0000_0000_0000_0000_0000 + res.1 == left * right,
{
    let product: [u8; 32] = Uint128::new(left).full_mul(right).to_be_bytes();
    let mut high: [u8; 16] = [0u8; 16];
    let mut low: [u8; 16] = [0u8; 16];
    high.copy_from_slice(&product[..16]);
    low.copy_from_slice(&product[16..]);
    (u128::from_be_bytes(high), u128::from_be_bytes(low))
}

/// The product of two amounts, which may take up to 256 bits.
pub open spec fn spec_product(left: u128, right: u128) -> int {
    left * right
}

/// Whether `left.0 * left.1` is less than, equal to or greater than
/// `right.0 * right.1`: -1, 0 or 1.
pub fn product_order(left: (u128, u128), right: (u128, u128)) -> (res: i8)
    ensures
        spec_product(left.0, left.1) < spec_product(right.0, right.1) ==> res == -1,
        spec_product(left.0, left.1) == spec_product(right.0, right.1) ==> res == 0,
        spec_product(left.0, left.1) > spec_product(right.0, right.1) ==> res == 1,
{
    let (left_high, left_low): (u128, u128) = full_mul(left.0, left.1);
    let (right_high, right_low): (u128, u128) = full_mul(right.0, right.1);
    if left_high < right_high || (left_high == right_high && left_low < right_low) {
        -1
    } else if left_high == right_high && left_low == right_low {
        0
    } else {
        1
    }
}

/// `value` scaled by `parts / total`, or nothing where the ratio is undefined
/// or the result does not fit 128 bits.
pub fn checked_mul_amount(value: u128, parts: u128, total: u128) -> (res: Option<u128>)
    ensures
        match checked_ratio(value as int, parts as int, total as int, u128::MAX as int) {
            Some(r) => res == Some(r as u128),
            None => res.is_none(),
        },
{
    if parts == total {
        Some(value)
    } else {
        checked_multiply_ratio(value, parts, total)
    }
}

/// `value` scaled by `parts / total`.
pub fn safe_mul_amount(value: u128, parts: u128, total: u128) -> (res: u128)
    requires
        checked_ratio(value as int, parts as int, total as int, u128::MAX as int).is_some(),
    ensures
        res == mul_ratio(value as int, parts as int, total as int),
{
    match checked_mul_amount(value, parts, total) {
        Some(r) => r,
        None => value,
    }
}

/// `value` scaled by `parts / total`, or nothing where the ratio is undefined
/// or the result does not fit 32 bits. The product is taken in 64 bits.
pub fn checked_mul_units(value: u32, parts: u32, total: u32) -> (res: Option<u32>)
    ensures
        match checked_ratio(value as int, parts as int, total as int, u32::MAX as int) {
            Some(r) => res == Some(r as u32),
            None => res.is_none(),
        },
{
    if parts == total {
        Some(value)
    } else if total == 0 {
        None
    } else {
        assert(value * parts <= u32::MAX * u32::MAX) by (nonlinear_arith)
            requires
                0 <= value <= u32::MAX,
                0 <= parts <= u32::MAX,
        ;
        let product: u64 = (value as u64) * (parts as u64);
        let scaled: u64 = product / (total as u64);
        if scaled > u32::MAX as u64 {
            None
        } else {
            Some(scaled as u32)
        }
    }
}

/// `value` scaled by `parts / total`.
pub fn safe_mul_units(value: u32, parts: u32, total: u32) -> (res: u32)
    requires
        checked_ratio(value as int, parts as int, total as int, u32::MAX as int).is_some(),
    ensures
        res == mul_ratio(value as int, parts as int, total as int),
{
    match checked_mul_units(value, parts, total) {
        Some(r) => r,
        None => value,
    }
}

} // verus!
