//! Properties of the fee market that hold for every input.

use vstd::prelude::*;
use vstd::arithmetic::div_mod::{lemma_div_is_ordered, lemma_div_is_ordered_by_denominator, lemma_div_multiples_vanish_quotient};
use vstd::arithmetic::mul::lemma_mul_inequality;

use crate::fee_market::calculator::{fee_delta, next_base_fee_spec, transaction_fee_spec, unclamped_next_fee};
use crate::fee_market::config::{target_gas_spec, FeeMarketConfig};
use crate::fee_market::state::BlockFeeState;
use crate::arith::sat_add_spec;

verus! {

proof fn lemma_delta_nonneg(current: int, diff: int, target: int, denominator: int, above: bool)
    requires
        0 <= current,
        0 <= diff,
        0 <= target,
        0 <= denominator,
    ensures
        0 <= fee_delta(current, diff, target, denominator, above),
{
    let den = target * denominator;
    assert(den >= 0) by (nonlinear_arith)
        requires
            0 <= target,
            0 <= denominator,
            den == target * denominator,
    ;
    if den != 0 {
        assert(current * diff >= 0) by (nonlinear_arith)
            requires
                0 <= current,
                0 <= diff,
        ;
        lemma_div_is_ordered(0, current * diff, den);
    }
}

proof fn lemma_delta_mono_diff(current: int, d1: int, d2: int, target: int, denominator: int, above: bool)
    requires
        0 <= current,
        0 <= d1 <= d2,
        0 <= target,
        0 <= denominator,
    ensures
        fee_delta(current, d1, target, denominator, above) <= fee_delta(current, d2, target, denominator, above),
{
    let den = target * denominator;
    assert(den >= 0) by (nonlinear_arith)
        requires
            0 <= target,
            0 <= denominator,
            den == target * denominator,
    ;
    if den != 0 {
        lemma_mul_inequality(d1, d2, current);
        assert(current * d1 <= current * d2) by (nonlinear_arith)
            requires
                d1 * current <= d2 * current,
        ;
        lemma_div_is_ordered(current * d1, current * d2, den);
    }
}

proof fn lemma_unclamped_mono(current: int, p1: int, p2: int, target: int, denominator: int)
    requires
        0 <= current <= u64::MAX,
        0 <= p1 <= p2,
        0 < target,
        0 <= denominator,
    ensures
        unclamped_next_fee(current, p1, target, denominator) <= unclamped_next_fee(current, p2, target, denominator),
{
    if p1 < target {
        lemma_delta_nonneg(current, target - p1, target, denominator, false);
    }
    if p2 > target {
        lemma_delta_nonneg(current, p2 - target, target, denominator, true);
    }
    if p1 < target && p2 < target {
        lemma_delta_mono_diff(current, target - p2, target - p1, target, denominator, false);
    }
    if p1 > target && p2 > target {
        lemma_delta_mono_diff(current, p1 - target, p2 - target, target, denominator, true);
    }
}

/// For a consistent configuration the next base fee always lies in `[min_base_fee, max_base_fee]`.
pub proof fn law_next_fee_within_bounds(config: FeeMarketConfig, state: BlockFeeState)
    requires
        config.min_base_fee <= config.max_base_fee,
    ensures
        config.min_base_fee <= next_base_fee_spec(config, state) <= config.max_base_fee,
{
}

/// A block exactly at target leaves an in-range base fee unchanged.
pub proof fn law_fee_unchanged_at_target(config: FeeMarketConfig, state: BlockFeeState)
    requires
        target_gas_spec(config) > 0,
        state.parent_gas_used == target_gas_spec(config),
        config.min_base_fee <= state.base_fee_per_cu <= config.max_base_fee,
    ensures
        next_base_fee_spec(config, state) == state.base_fee_per_cu,
{
}

/// A block above target raises an in-range base fee that is below the ceiling.
pub proof fn law_fee_rises_above_target(config: FeeMarketConfig, state: BlockFeeState)
    requires
        target_gas_spec(config) > 0,
        state.parent_gas_used > target_gas_spec(config),
        config.base_fee_change_denominator != 0,
        config.min_base_fee <= state.base_fee_per_cu < config.max_base_fee,
    ensures
        next_base_fee_spec(config, state) > state.base_fee_per_cu,
{
    let target = target_gas_spec(config);
    let den = target * config.base_fee_change_denominator;
    assert(den >= 1) by (nonlinear_arith)
        requires
            target >= 1,
            config.base_fee_change_denominator >= 1,
            den == target * config.base_fee_change_denominator,
    ;
}

/// A block below target never raises an in-range base fee.
pub proof fn law_fee_does_not_rise_below_target(config: FeeMarketConfig, state: BlockFeeState)
    requires
        target_gas_spec(config) > 0,
        state.parent_gas_used < target_gas_spec(config),
        config.min_base_fee <= state.base_fee_per_cu <= config.max_base_fee,
    ensures
        next_base_fee_spec(config, state) <= state.base_fee_per_cu,
{
    lemma_delta_nonneg(
        state.base_fee_per_cu as int,
        target_gas_spec(config) - state.parent_gas_used,
        target_gas_spec(config),
        config.base_fee_change_denominator as int,
        false,
    );
}

/// The next base fee is monotone in the parent block's usage: more usage never gives a lower fee.
pub proof fn law_next_fee_monotone_in_usage(config: FeeMarketConfig, s1: BlockFeeState, s2: BlockFeeState)
    requires
        config.min_base_fee <= config.max_base_fee,
        s1.base_fee_per_cu == s2.base_fee_per_cu,
        s1.parent_gas_used <= s2.parent_gas_used,
    ensures
        next_base_fee_spec(config, s1) <= next_base_fee_spec(config, s2),
{
    let target = target_gas_spec(config);
    if target > 0 {
        lemma_unclamped_mono(
            s1.base_fee_per_cu as int,
            s1.parent_gas_used as int,
            s2.parent_gas_used as int,
            target,
            config.base_fee_change_denominator as int,
        );
    }
}

/// Above target, a smaller change denominator adjusts the fee at least as much.
pub proof fn law_smaller_denominator_adjusts_faster(c1: FeeMarketConfig, c2: FeeMarketConfig, state: BlockFeeState)
    requires
        c1.min_base_fee == c2.min_base_fee,
        c1.max_base_fee == c2.max_base_fee,
        c1.min_base_fee <= c1.max_base_fee,
        c1.target_utilization_pct == c2.target_utilization_pct,
        c1.max_block_compute_units == c2.max_block_compute_units,
        1 <= c1.base_fee_change_denominator <= c2.base_fee_change_denominator,
        state.parent_gas_used > target_gas_spec(c1),
    ensures
        next_base_fee_spec(c1, state) >= next_base_fee_spec(c2, state),
{
    let target = target_gas_spec(c1);
    if target > 0 {
        let current = state.base_fee_per_cu as int;
        let diff = state.parent_gas_used - target;
        let den1 = target * c1.base_fee_change_denominator;
        let den2 = target * c2.base_fee_change_denominator;
        assert(1 <= den1 <= den2) by (nonlinear_arith)
            requires
                target >= 1,
                1 <= c1.base_fee_change_denominator <= c2.base_fee_change_denominator,
                den1 == target * c1.base_fee_change_denominator,
                den2 == target * c2.base_fee_change_denominator,
        ;
        assert(current * diff >= 0) by (nonlinear_arith)
            requires
                0 <= current,
                0 <= diff,
        ;
        lemma_div_is_ordered_by_denominator(current * diff, den1, den2);
    }
}

/// The total of a transaction fee covers each of its parts and is their sum, saturating at
/// `u64::MAX`; it is their exact sum, each part the exact product, when no step saturates.
pub proof fn law_total_fee_covers_parts(base_fee_per_cu: u64, priority_fee_per_cu: u64, compute_units: u64)
    ensures
        ({
            let fee = transaction_fee_spec(base_fee_per_cu, priority_fee_per_cu, compute_units);
            &&& fee.total_fee >= fee.base_fee
            &&& fee.total_fee >= fee.priority_fee
            &&& fee.total_fee == sat_add_spec(fee.base_fee as int, fee.priority_fee as int)
            &&& (base_fee_per_cu + priority_fee_per_cu) * compute_units <= u64::MAX ==> {
                &&& fee.base_fee == base_fee_per_cu * compute_units
                &&& fee.priority_fee == priority_fee_per_cu * compute_units
                &&& fee.total_fee == fee.base_fee + fee.priority_fee
            }
        }),
{
    let b = base_fee_per_cu as int;
    let p = priority_fee_per_cu as int;
    let c = compute_units as int;
    assert((b + p) * c == b * c + p * c) by (nonlinear_arith);
    assert(b * c >= 0 && p * c >= 0) by (nonlinear_arith)
        requires
            b >= 0,
            p >= 0,
            c >= 0,
    ;
}

/// A higher priority fee never lowers the total fee, for the same base fee and compute units.
pub proof fn law_total_fee_monotone_in_priority(base_fee_per_cu: u64, p1: u64, p2: u64, compute_units: u64)
    requires
        p1 <= p2,
    ensures
        transaction_fee_spec(base_fee_per_cu, p1, compute_units).total_fee
            <= transaction_fee_spec(base_fee_per_cu, p2, compute_units).total_fee,
        transaction_fee_spec(base_fee_per_cu, p1, compute_units).base_fee
            == transaction_fee_spec(base_fee_per_cu, p2, compute_units).base_fee,
{
    lemma_mul_inequality(p1 as int, p2 as int, compute_units as int);
}


proof fn lemma_delta_at_most_share(current: int, diff: int, target: int, denominator: int)
    requires
        0 <= current,
        0 <= diff <= target,
        0 < target,
        0 < denominator,
    ensures
        current * diff / (target * denominator) <= current / denominator,
{
    lemma_mul_inequality(diff, target, current);
    assert(current * diff <= current * target) by (nonlinear_arith)
        requires
            diff * current <= target * current,
    ;
    assert(target * denominator > 0) by (nonlinear_arith)
        requires
            0 < target,
            0 < denominator,
    ;
    lemma_div_is_ordered(current * diff, current * target, target * denominator);
    if current > 0 {
        lemma_div_multiples_vanish_quotient(target, current, denominator);
        assert(current * target == target * current) by (nonlinear_arith);
    }
}

/// Each block moves an in-range base fee by at most `1 / base_fee_change_denominator` of
/// itself (upwards at least 1), as long as the parent block used at most twice the target.
pub proof fn law_fee_change_bounded(config: FeeMarketConfig, state: BlockFeeState)
    requires
        target_gas_spec(config) > 0,
        config.base_fee_change_denominator >= 1,
        config.min_base_fee <= state.base_fee_per_cu <= config.max_base_fee,
        state.parent_gas_used <= 2 * target_gas_spec(config),
    ensures
        ({
            let current = state.base_fee_per_cu as int;
            let share = current / (config.base_fee_change_denominator as int);
            &&& next_base_fee_spec(config, state) <= current + (if share < 1 { 1 } else { share })
            &&& next_base_fee_spec(config, state) >= current - share
        }),
{
    let current = state.base_fee_per_cu as int;
    let parent = state.parent_gas_used as int;
    let target = target_gas_spec(config);
    let d = config.base_fee_change_denominator as int;
    let share = current / d;
    assert(target * d > 0) by (nonlinear_arith)
        requires
            0 < target,
            0 < d,
    ;
    assert(0 <= share <= current) by (nonlinear_arith)
        requires
            0 <= current,
            1 <= d,
            share == current / d,
    ;
    if parent > target {
        lemma_delta_at_most_share(current, parent - target, target, d);
        lemma_delta_nonneg(current, parent - target, target, d, true);
        let delta = fee_delta(current, parent - target, target, d, true);
        assert(delta <= if share < 1 { 1 } else { share });
        assert(unclamped_next_fee(current, parent, target, d) <= current + delta);
        assert(unclamped_next_fee(current, parent, target, d) >= current);
    } else if parent < target {
        lemma_delta_at_most_share(current, target - parent, target, d);
        lemma_delta_nonneg(current, target - parent, target, d, false);
        let delta = fee_delta(current, target - parent, target, d, false);
        assert(delta <= share);
        assert(unclamped_next_fee(current, parent, target, d) >= current - delta);
        assert(unclamped_next_fee(current, parent, target, d) <= current);
    }
}

} // verus!
