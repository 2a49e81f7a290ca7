//! Collateral metrics over 32-bit inputs.
//!
//! Intermediate products are taken at full width; a final value that does
//! not fit in 32 bits is clamped to `u32::MAX`. None of these functions can
//! fail: zero divisors resolve to a defined value of zero.

use vstd::prelude::*;

verus! {

/// `x` clamped to the 32-bit range.
pub open spec fn clamp_u32(x: int) -> int {
    if x > u32::MAX as int {
        u32::MAX as int
    } else {
        x
    }
}

/// The collateral's value in price units, clamped.
pub open spec fn collateral_value_spec(collateral: u32, price: u32) -> int {
    clamp_u32(collateral * price)
}

/// The collateral ratio in percent; zero debt gives zero.
pub open spec fn ratio_spec(collateral: u32, debt: u32, price: u32) -> int {
    if debt == 0 {
        0
    } else {
        clamp_u32(collateral_value_spec(collateral, price) * 100 / (debt as int))
    }
}

/// The debt at which the position reaches the minimum ratio; zero when the
/// minimum ratio is zero.
pub open spec fn liquidation_threshold_spec(collateral: u32, price: u32, minimum_ratio: u32) -> int {
    if minimum_ratio == 0 {
        0
    } else {
        clamp_u32(collateral * price * 100 / (minimum_ratio as int))
    }
}

/// Debt as a whole percentage of the collateral's value; zero when the
/// collateral or the price is zero.
pub open spec fn loan_to_value_spec(debt: u32, collateral: u32, price: u32) -> int {
    if collateral == 0 || price == 0 {
        0
    } else {
        clamp_u32(debt * 100 / (collateral * price))
    }
}

/// The full 64-bit product of two 32-bit values.
fn wide_mul(a: u32, b: u32) -> (r: u64)
    ensures
        r == a * b,
        a != 0 && b != 0 ==> r != 0,
{
    proof {
        assert(0 <= a * b <= u32::MAX * u32::MAX) by (nonlinear_arith)
            requires
                a <= u32::MAX,
                b <= u32::MAX,
        {}
        assert(a != 0 && b != 0 ==> a * b != 0) by (nonlinear_arith);
    }
    a as u64 * b as u64
}

fn clamp_to_u32(x: u64) -> (r: u32)
    ensures
        r == clamp_u32(x as int),
{
    if x > u32::MAX as u64 {
        u32::MAX
    } else {
        x as u32
    }
}

/// Returns `(ratio, collateral_value)`: the collateral's value is
/// `collateral * price`, and the ratio is that value times 100 divided by the
/// debt, or 0 when the debt is 0. Both are clamped to `u32::MAX`.
pub fn collateral_ratio(collateral: u32, debt: u32, price: u32) -> (r: (u32, u32))
    ensures
        r.0 == ratio_spec(collateral, debt, price),
        r.1 == collateral_value_spec(collateral, price),
{
    let product: u64 = wide_mul(collateral, price);
    let value = clamp_to_u32(product);
    if debt == 0 {
        (0, value)
    } else {
        let scaled: u64 = value as u64 * 100;
        (clamp_to_u32(scaled / debt as u64), value)
    }
}

/// `collateral * price * 100 / minimum_ratio`, clamped to `u32::MAX`, or 0
/// when the minimum ratio is 0.
pub fn liquidation_threshold(collateral: u32, price: u32, minimum_ratio: u32) -> (r: u32)
    ensures
        r == liquidation_threshold_spec(collateral, price, minimum_ratio),
{
    if minimum_ratio == 0 {
        return 0;
    }
    let product: u64 = wide_mul(collateral, price);
    if product > u64::MAX / 100 {
        // The quotient is already beyond 32 bits.
        proof {
            let m = minimum_ratio as int;
            let x = product as int * 100;
            let big = u32::MAX as int;
            vstd::arithmetic::div_mod::lemma_div_is_ordered_by_denominator(x, m, big);
            assert(big * big <= x) by (nonlinear_arith)
                requires
                    x >= 18446744073709551700int,
                    big == 4294967295int,
            {}
            vstd::arithmetic::div_mod::lemma_div_is_ordered(big * big, x, big);
            vstd::arithmetic::div_mod::lemma_div_by_multiple(big, big);
        }
        return u32::MAX;
    }
    clamp_to_u32(product * 100 / minimum_ratio as u64)
}

/// `debt * 100 / (collateral * price)`, clamped to `u32::MAX`, or 0 when the
/// collateral or the price is 0.
pub fn loan_to_value(debt: u32, collateral: u32, price: u32) -> (r: u32)
    ensures
        r == loan_to_value_spec(debt, collateral, price),
{
    if collateral == 0 || price == 0 {
        return 0;
    }
    let value: u64 = wide_mul(collateral, price);
    let scaled: u64 = debt as u64 * 100;
    clamp_to_u32(scaled / value)
}

/// The metrics are functions of their inputs alone: equal inputs give equal
/// outputs, in any two calls.
pub proof fn lemma_metrics_deterministic(
    collateral: u32,
    debt: u32,
    price: u32,
    minimum_ratio: u32,
    collateral2: u32,
    debt2: u32,
    price2: u32,
    minimum_ratio2: u32,
)
    requires
        collateral == collateral2,
        debt == debt2,
        price == price2,
        minimum_ratio == minimum_ratio2,
    ensures
        ratio_spec(collateral, debt, price) == ratio_spec(collateral2, debt2, price2),
        collateral_value_spec(collateral, price) == collateral_value_spec(collateral2, price2),
        liquidation_threshold_spec(collateral, price, minimum_ratio) == liquidation_threshold_spec(
            collateral2,
            price2,
            minimum_ratio2,
        ),
        loan_to_value_spec(debt, collateral, price) == loan_to_value_spec(debt2, collateral2, price2),
{
}

/// The zero cases: zero debt gives ratio 0 beside the (clamped) value
/// `x * p`; a zero minimum ratio gives threshold 0; zero collateral gives
/// loan-to-value 0.
pub proof fn lemma_metric_zero_cases(x: u32, p: u32, d: u32)
    ensures
        ratio_spec(x, 0, p) == 0,
        collateral_value_spec(x, p) == clamp_u32(x * p),
        x * p <= u32::MAX ==> collateral_value_spec(x, p) == x * p,
        liquidation_threshold_spec(x, p, 0) == 0,
        loan_to_value_spec(d, 0, p) == 0,
{
}

} // verus!
