//! Platform fee computation.
//!
//! All money amounts are unsigned integers in the minor currency unit
//! (cents).  A shop is configured with a fee percentage (`0..=100`) and a
//! minimum fee in cents.  One-time payments carry the fee as an absolute
//! amount; recurring payments carry it as a percentage, because the
//! processor recomputes the absolute fee from each future invoice amount.
//! The recurring percentage is kept in hundredths of a percent, so that
//! the two-decimal rounding of the derived percentage stays in integers.

use vstd::arithmetic::div_mod::{
    lemma_div_is_ordered, lemma_fundamental_div_mod, lemma_mod_bound,
};
use vstd::arithmetic::mul::lemma_mul_inequality;
use vstd::prelude::*;

verus! {

/// The floor-division fee: `unit_amount * fee_pct / 100`, rounded down.
pub open spec fn spec_floor_fee(unit_amount: int, fee_pct: int) -> int {
    unit_amount * fee_pct / 100
}

/// The absolute platform fee for a one-time payment: the floor-division
/// fee, but never less than the configured minimum.
pub open spec fn spec_fee_amount(unit_amount: int, fee_pct: int, min_fee_cent: int) -> int {
    if spec_floor_fee(unit_amount, fee_pct) >= min_fee_cent {
        spec_floor_fee(unit_amount, fee_pct)
    } else {
        min_fee_cent
    }
}

/// `num / den` rounded to the nearest integer, halves rounded up.
/// Meaningful for `den > 0`.
pub open spec fn spec_round_half_up(num: int, den: int) -> int {
    (2 * num + den) / (2 * den)
}

/// The platform fee percentage for a recurring payment, in hundredths of
/// a percent.  If the floor-division fee already meets the minimum, the
/// configured percentage is kept.  Otherwise the percentage that would
/// have produced the minimum fee, `min_fee_cent * 100 / unit_amount`, is
/// derived and rounded to two decimals (half up) — in hundredths that is
/// `min_fee_cent * 10000 / unit_amount` rounded to the nearest integer.
/// A zero unit amount keeps the configured percentage, so that the
/// derivation never divides by zero.
pub open spec fn spec_fee_percent_hundredths(
    unit_amount: int,
    fee_pct: int,
    min_fee_cent: int,
) -> int {
    if spec_floor_fee(unit_amount, fee_pct) >= min_fee_cent {
        fee_pct * 100
    } else if unit_amount == 0 {
        fee_pct * 100
    } else {
        spec_round_half_up(min_fee_cent * 10000, unit_amount)
    }
}

/// Absolute platform fee in cents for a one-time payment.
pub fn calculate_fee_amount(unit_amount: u32, fee_pct: u32, min_fee_cent: u32) -> (r: i64)
    ensures
        r == spec_fee_amount(unit_amount as int, fee_pct as int, min_fee_cent as int),
        r >= min_fee_cent,
{
    proof {
        lemma_mul_inequality(unit_amount as int, u32::MAX as int, fee_pct as int);
        lemma_mul_inequality(fee_pct as int, u32::MAX as int, u32::MAX as int);
    }
    let floor_fee: u64 = (unit_amount as u64) * (fee_pct as u64) / 100;
    let min_fee: u64 = min_fee_cent as u64;
    if floor_fee >= min_fee {
        floor_fee as i64
    } else {
        min_fee as i64
    }
}

/// Platform fee percentage for a recurring payment, in hundredths of a
/// percent (so `850` stands for `8.50 %`).
pub fn calculate_fee_percent_hundredths(unit_amount: u32, fee_pct: u32, min_fee_cent: u32) -> (r:
    u64)
    ensures
        r == spec_fee_percent_hundredths(
            unit_amount as int,
            fee_pct as int,
            min_fee_cent as int,
        ),
{
    proof {
        lemma_mul_inequality(unit_amount as int, u32::MAX as int, fee_pct as int);
        lemma_mul_inequality(fee_pct as int, u32::MAX as int, u32::MAX as int);
    }
    let floor_fee: u64 = (unit_amount as u64) * (fee_pct as u64) / 100;
    if floor_fee >= min_fee_cent as u64 {
        (fee_pct as u64) * 100
    } else if unit_amount == 0 {
        (fee_pct as u64) * 100
    } else {
        let num: u64 = (min_fee_cent as u64) * 10000;
        (2 * num + unit_amount as u64) / (2 * (unit_amount as u64))
    }
}

/// The one-time fee never falls below the configured minimum.
pub proof fn lemma_fee_amount_at_least_minimum(unit_amount: int, fee_pct: int, min_fee_cent: int)
    ensures
        spec_fee_amount(unit_amount, fee_pct, min_fee_cent) >= min_fee_cent,
{
}

/// The one-time fee is monotonically non-decreasing in the unit amount,
/// for a fixed percentage and minimum.
pub proof fn lemma_fee_amount_monotonic(
    unit_amount1: int,
    unit_amount2: int,
    fee_pct: int,
    min_fee_cent: int,
)
    requires
        0 <= unit_amount1 <= unit_amount2,
        0 <= fee_pct,
    ensures
        spec_fee_amount(unit_amount1, fee_pct, min_fee_cent) <= spec_fee_amount(
            unit_amount2,
            fee_pct,
            min_fee_cent,
        ),
{
    lemma_mul_inequality(unit_amount1, unit_amount2, fee_pct);
    lemma_div_is_ordered(unit_amount1 * fee_pct, unit_amount2 * fee_pct, 100);
}

/// Whenever the floor-division fee already meets the minimum, the
/// recurring percentage is the configured percentage, unchanged.
pub proof fn lemma_fee_percent_keeps_configured_pct(
    unit_amount: int,
    fee_pct: int,
    min_fee_cent: int,
)
    requires
        spec_floor_fee(unit_amount, fee_pct) >= min_fee_cent,
    ensures
        spec_fee_percent_hundredths(unit_amount, fee_pct, min_fee_cent) == fee_pct * 100,
{
}

/// Sharp rounding bound for the derived recurring percentage: when the
/// floor-division fee is below the minimum, the fee that the processor
/// recomputes from the percentage, `r * unit_amount` in units of a
/// hundredth of a basis point, differs from `min_fee_cent` (in the same
/// units, `min_fee_cent * 10000`) by at most half a unit amount either
/// way.
pub proof fn lemma_fee_percent_rounding_bound(unit_amount: int, fee_pct: int, min_fee_cent: int)
    requires
        1 <= unit_amount,
        0 <= min_fee_cent,
        spec_floor_fee(unit_amount, fee_pct) < min_fee_cent,
    ensures
        2 * (spec_fee_percent_hundredths(unit_amount, fee_pct, min_fee_cent) * unit_amount) - 2 * (
        min_fee_cent * 10000) <= unit_amount,
        2 * (min_fee_cent * 10000) - 2 * (spec_fee_percent_hundredths(
            unit_amount,
            fee_pct,
            min_fee_cent,
        ) * unit_amount) <= unit_amount - 1,
{
    let n = min_fee_cent * 10000;
    let d = 2 * unit_amount;
    let bp = (2 * n + unit_amount) / d;
    lemma_fundamental_div_mod(2 * n + unit_amount, d);
    lemma_mod_bound(2 * n + unit_amount, d);
    let rem = (2 * n + unit_amount) % d;
    assert(2 * n + unit_amount == d * bp + rem);
    assert(d * bp == 2 * (bp * unit_amount)) by {
        assert((2 * unit_amount) * bp == 2 * (bp * unit_amount)) by (nonlinear_arith);
    }
    assert(spec_fee_percent_hundredths(unit_amount, fee_pct, min_fee_cent) == bp);
}

/// When the floor-division fee is below the minimum, the fee recomputed
/// from the rounded percentage lands within one cent of the minimum fee,
/// provided the unit amount is at most 20000 cents.  (One cent is 10000
/// in the scale of `percentage-hundredths times unit amount`; beyond a
/// unit amount of 20000 the two-decimal rounding alone can move the
/// recomputed fee by more than a cent.)
pub proof fn lemma_fee_percent_within_one_cent(unit_amount: int, fee_pct: int, min_fee_cent: int)
    requires
        1 <= unit_amount <= 20000,
        0 <= min_fee_cent,
        spec_floor_fee(unit_amount, fee_pct) < min_fee_cent,
    ensures
        -10000 <= spec_fee_percent_hundredths(unit_amount, fee_pct, min_fee_cent) * unit_amount
            - min_fee_cent * 10000 <= 10000,
{
    lemma_fee_percent_rounding_bound(unit_amount, fee_pct, min_fee_cent);
}

} // verus!
