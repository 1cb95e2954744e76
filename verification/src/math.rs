//! Fixed-point accumulator arithmetic.
//!
//! The pool-wide accumulator `acc_reward_per_weight` carries "reward earned
//! per unit of weight since pool inception", scaled by `ACC_PRECISION`.
//! Converting between that rate and absolute token amounts uses integer-only
//! arithmetic: products saturate (a deliberate rounding cap on reward
//! computation, never used for principal), quotients floor.

use vstd::prelude::*;

verus! {

/// Fixed-point scale of the reward accumulator.
pub const ACC_PRECISION: u128 = 1_000_000_000_000;

/// Basis-point denominator: 10_000 bps = 100%.
pub const BPS_DENOMINATOR: u64 = 10_000;

/// Product of two 128-bit values, saturating at `u128::MAX`.
pub open spec fn sat_mul_u128(a: u128, b: u128) -> u128 {
    if a * b > u128::MAX {
        u128::MAX
    } else {
        (a * b) as u128
    }
}

/// Sum capped at `u64::MAX`.
pub open spec fn sat_add_u64(a: int, b: int) -> u64 {
    if a + b > u64::MAX {
        u64::MAX
    } else {
        (a + b) as u64
    }
}

/// Sum capped at `u128::MAX`.
pub open spec fn sat_add_u128(a: int, b: int) -> u128 {
    if a + b > u128::MAX {
        u128::MAX
    } else {
        (a + b) as u128
    }
}

/// A 128-bit value clamped into 64 bits.
pub open spec fn cap_u64(a: u128) -> u64 {
    if a > u64::MAX {
        u64::MAX
    } else {
        a as u64
    }
}

/// Total entitlement of `weight` under `accumulator`:
/// `floor(weight * accumulator / ACC_PRECISION)`, the product saturating.
pub open spec fn settle_spec(weight: u128, accumulator: u128) -> u128 {
    sat_mul_u128(weight, accumulator) / ACC_PRECISION
}

/// Accumulator increase from injecting `amount` over `total_weight`:
/// `floor(amount * ACC_PRECISION / total_weight)`, or 0 when no weight is
/// staked (the injection is then not folded in at all; callers must know
/// that such revenue is stranded).
pub open spec fn accrue_delta_spec(amount: u64, total_weight: u128) -> u128 {
    if total_weight == 0 {
        0
    } else {
        ((amount * ACC_PRECISION) / (total_weight as int)) as u128
    }
}

/// The whole-number share `pct` percent of `total`:
/// `floor(total * pct / 100)`.
pub open spec fn pct_amount_spec(total: u64, pct: u8) -> u64 {
    ((total * pct) / 100) as u64
}

/// Computes `floor(total * pct / 100)` through a widened intermediate, so
/// the product cannot overflow; with `pct` at most 100 the share never
/// exceeds `total`.
pub fn pct_amount(total: u64, pct: u8) -> (r: u64)
    requires
        pct <= 100,
    ensures
        r == pct_amount_spec(total, pct),
        r <= total,
{
    proof {
        assert(total * pct <= total * 100 && (total * pct) / 100 <= total) by (nonlinear_arith)
            requires
                pct <= 100,
                total >= 0,
        ;
    }
    let prod = (total as u128) * (pct as u128);
    let q = prod / 100;
    q as u64
}

/// The accumulator scale constant.
pub fn scale() -> (r: u128)
    ensures
        r == ACC_PRECISION,
{
    ACC_PRECISION
}

/// Sum of two 64-bit values, saturating at `u64::MAX`.
pub(crate) fn saturating_add_u64(a: u64, b: u64) -> (r: u64)
    ensures
        r == sat_add_u64(a as int, b as int),
{
    match a.checked_add(b) {
        Some(v) => v,
        None => u64::MAX,
    }
}

/// A 128-bit value clamped into 64 bits.
pub(crate) fn cap_to_u64(a: u128) -> (r: u64)
    ensures
        r == cap_u64(a),
{
    if a > u64::MAX as u128 {
        u64::MAX
    } else {
        a as u64
    }
}

fn saturating_mul_u128(a: u128, b: u128) -> (r: u128)
    ensures
        r == sat_mul_u128(a, b),
{
    match a.checked_mul(b) {
        Some(p) => p,
        None => u128::MAX,
    }
}

/// Converts a per-unit-weight rate back to an absolute amount:
/// `floor(weight * accumulator / ACC_PRECISION)`, the product saturating at
/// `u128::MAX` (an accepted under-payment cap, reserved for reward math).
pub fn settle(weight: u128, accumulator: u128) -> (r: u128)
    ensures
        r == settle_spec(weight, accumulator),
{
    let prod = saturating_mul_u128(weight, accumulator);
    prod / ACC_PRECISION
}

/// The accumulator delta for injecting `injected_amount` over
/// `total_weight`; 0 when `total_weight` is 0.
pub fn accrue_delta(injected_amount: u64, total_weight: u128) -> (r: u128)
    ensures
        r == accrue_delta_spec(injected_amount, total_weight),
{
    if total_weight == 0 {
        0
    } else {
        proof {
            assert(injected_amount * ACC_PRECISION <= u64::MAX * ACC_PRECISION) by (nonlinear_arith)
                requires
                    injected_amount <= u64::MAX,
            ;
        }
        let prod = (injected_amount as u128) * ACC_PRECISION;
        prod / total_weight
    }
}

} // verus!
