//! The EIP-1559 base-fee update and transaction fee pricing.

use vstd::prelude::*;
use crate::arith::{sat_add_spec, sat_mul, sat_mul_spec, sat_sub_spec};
use crate::decimal::{decimal, decimal_spec};
use crate::fee_market::config::{target_gas_spec, FeeMarketConfig};
use crate::fee_market::error::FeeError;
use crate::fee_market::state::{BlockFeeState, TransactionFee};

verus! {

/// `value` limited to `[min, max]` (the lower bound checked first).
pub open spec fn clamp_spec(value: int, min: int, max: int) -> int {
    if value < min { min } else if value > max { max } else { value }
}

/// The adjustment `current * diff / (target * denominator)` of one block, capped at `u64::MAX`;
/// when the block was above target it is at least 1.
pub open spec fn fee_delta(current: int, diff: int, target: int, denominator: int, above: bool) -> int {
    let den = target * denominator;
    if den == 0 {
        if above { current } else { 0 }
    } else {
        let d = current * diff / den;
        let d1 = if above && d < 1 { 1 } else { d };
        if d1 > u64::MAX { u64::MAX as int } else { d1 }
    }
}

/// The base fee of the next block before clamping, for a nonzero target.
pub open spec fn unclamped_next_fee(current: int, parent: int, target: int, denominator: int) -> int {
    if parent == target {
        current
    } else if parent > target {
        sat_add_spec(current, fee_delta(current, parent - target, target, denominator, true))
    } else {
        sat_sub_spec(current, fee_delta(current, target - parent, target, denominator, false))
    }
}

/// The next block's base fee as the EIP-1559 rule defines it.
pub open spec fn next_base_fee_spec(config: FeeMarketConfig, state: BlockFeeState) -> int {
    let target = target_gas_spec(config);
    let min = config.min_base_fee as int;
    let max = config.max_base_fee as int;
    if target == 0 {
        if state.parent_gas_used > 0 {
            max
        } else {
            clamp_spec(state.base_fee_per_cu as int, min, max)
        }
    } else {
        clamp_spec(
            unclamped_next_fee(
                state.base_fee_per_cu as int,
                state.parent_gas_used as int,
                target,
                config.base_fee_change_denominator as int,
            ),
            min,
            max,
        )
    }
}

/// The fee breakdown for `compute_units` at the given per-CU fees, every step saturating.
pub open spec fn transaction_fee_spec(base_fee_per_cu: u64, priority_fee_per_cu: u64, compute_units: u64) -> TransactionFee {
    let base = sat_mul_spec(base_fee_per_cu as int, compute_units as int);
    let priority = sat_mul_spec(priority_fee_per_cu as int, compute_units as int);
    TransactionFee {
        base_fee: base as u64,
        priority_fee: priority as u64,
        total_fee: sat_add_spec(base, priority) as u64,
    }
}

/// Whether a configuration is internally consistent.
pub open spec fn config_is_valid(config: FeeMarketConfig) -> bool {
    &&& config.min_base_fee <= config.max_base_fee
    &&& config.base_fee_change_denominator != 0
    &&& config.target_utilization_pct <= 100
}

/// Limits `value` to `[min, max]`, checking the lower bound first.
pub fn clamp(value: u64, min: u64, max: u64) -> (r: u64)
    ensures
        r == clamp_spec(value as int, min as int, max as int),
{
    if value < min {
        min
    } else if value > max {
        max
    } else {
        value
    }
}

/// `current * diff / (target * denominator)` computed in 128 bits and capped at `u64::MAX`;
/// at least 1 when `above` (the go-ethereum minimum increase).
fn compute_delta(current: u64, diff: u64, target: u64, denominator: u64, above: bool) -> (r: u64)
    ensures
        r == fee_delta(current as int, diff as int, target as int, denominator as int, above),
{
    let cur = current as u128;
    let dif = diff as u128;
    let tgt = target as u128;
    let dnm = denominator as u128;
    assert(cur * dif <= u64::MAX * u64::MAX) by (nonlinear_arith)
        requires
            cur <= u64::MAX,
            dif <= u64::MAX,
    ;
    assert(tgt * dnm <= u64::MAX * u64::MAX) by (nonlinear_arith)
        requires
            tgt <= u64::MAX,
            dnm <= u64::MAX,
    ;
    let numerator = cur * dif;
    let den = tgt * dnm;
    if den == 0 {
        if above { current } else { 0 }
    } else {
        let d = numerator / den;
        let d1 = if above && d < 1 { 1 } else { d };
        if d1 > u64::MAX as u128 { u64::MAX } else { d1 as u64 }
    }
}

/// Computes the next block's base fee with the EIP-1559 rule.
///
/// With `target = max_block_compute_units * target_utilization_pct / 100`:
/// at target the fee is unchanged; above target it rises by
/// `max(current * excess / target / denominator, 1)`; below target it falls by
/// `current * deficit / target / denominator`; the result is clamped to
/// `[min_base_fee, max_base_fee]`. A zero target sends any nonempty block to
/// the maximum.
pub fn calculate_next_base_fee(config: &FeeMarketConfig, state: &BlockFeeState) -> (r: u64)
    ensures
        r == next_base_fee_spec(*config, *state),
{
    let target = config.target_gas();
    if target == 0 {
        return if state.parent_gas_used > 0 {
            config.max_base_fee
        } else {
            clamp(state.base_fee_per_cu, config.min_base_fee, config.max_base_fee)
        };
    }
    let current = state.base_fee_per_cu;
    let next = if state.parent_gas_used == target {
        current
    } else if state.parent_gas_used > target {
        let excess = state.parent_gas_used - target;
        let delta = compute_delta(current, excess, target, config.base_fee_change_denominator, true);
        current.saturating_add(delta)
    } else {
        let deficit = target - state.parent_gas_used;
        let delta = compute_delta(current, deficit, target, config.base_fee_change_denominator, false);
        current.saturating_sub(delta)
    };
    clamp(next, config.min_base_fee, config.max_base_fee)
}

/// The fee breakdown of one transaction; every product and the sum saturate.
pub fn calculate_transaction_fee(base_fee_per_cu: u64, priority_fee_per_cu: u64, compute_units_used: u64) -> (r: TransactionFee)
    ensures
        r == transaction_fee_spec(base_fee_per_cu, priority_fee_per_cu, compute_units_used),
{
    let base_fee = sat_mul(base_fee_per_cu, compute_units_used);
    let priority_fee = sat_mul(priority_fee_per_cu, compute_units_used);
    let total_fee = base_fee.saturating_add(priority_fee);
    TransactionFee { base_fee, priority_fee, total_fee }
}

/// Checks that a transaction can pay for `requested_cu` at the current base fee.
///
/// Fails, in this order, when the request exceeds the block capacity, when the
/// priority fee is below the minimum, or when `offered_lamports` is below the total fee.
pub fn validate_transaction_fee(
    offered_lamports: u64,
    priority_fee_per_cu: u64,
    base_fee_per_cu: u64,
    requested_cu: u64,
    config: &FeeMarketConfig,
) -> (r: Result<TransactionFee, FeeError>)
    ensures
        ({
            let fee = transaction_fee_spec(base_fee_per_cu, priority_fee_per_cu, requested_cu);
            if requested_cu > config.max_block_compute_units {
                r == Err::<TransactionFee, FeeError>(FeeError::ComputeUnitsExceedMax {
                    requested: requested_cu,
                    max_block_cu: config.max_block_compute_units,
                })
            } else if priority_fee_per_cu < config.min_priority_fee {
                r == Err::<TransactionFee, FeeError>(FeeError::PriorityFeeTooLow {
                    offered: priority_fee_per_cu,
                    minimum: config.min_priority_fee,
                })
            } else if offered_lamports < fee.total_fee {
                r == Err::<TransactionFee, FeeError>(FeeError::InsufficientFee {
                    offered: offered_lamports,
                    required: fee.total_fee,
                    base_fee_per_cu,
                    compute_units: requested_cu,
                })
            } else {
                r == Ok::<TransactionFee, FeeError>(fee)
            }
        }),
{
    if requested_cu > config.max_block_compute_units {
        return Err(FeeError::ComputeUnitsExceedMax {
            requested: requested_cu,
            max_block_cu: config.max_block_compute_units,
        });
    }
    if priority_fee_per_cu < config.min_priority_fee {
        return Err(FeeError::PriorityFeeTooLow {
            offered: priority_fee_per_cu,
            minimum: config.min_priority_fee,
        });
    }
    let fee = calculate_transaction_fee(base_fee_per_cu, priority_fee_per_cu, requested_cu);
    if offered_lamports < fee.total_fee {
        return Err(FeeError::InsufficientFee {
            offered: offered_lamports,
            required: fee.total_fee,
            base_fee_per_cu,
            compute_units: requested_cu,
        });
    }
    Ok(fee)
}

/// The reason given for a minimum base fee above the maximum.
pub open spec fn min_above_max_text(min: u64, max: u64) -> Seq<char> {
    "min_base_fee ("@ + decimal_spec(min as nat) + ") > max_base_fee ("@ + decimal_spec(max as nat) + ")"@
}

/// The reason given for a utilisation target above 100 %.
pub open spec fn utilization_text(pct: u8) -> Seq<char> {
    "target_utilization_pct ("@ + decimal_spec(pct as nat) + ") must be 0–100"@
}

fn min_above_max_reason(min: u64, max: u64) -> (r: String)
    ensures
        r@ == min_above_max_text(min, max),
{
    let mut s = String::new();
    s.append("min_base_fee (");
    s.append(decimal(min).as_str());
    s.append(") > max_base_fee (");
    s.append(decimal(max).as_str());
    s.append(")");
    proof {
        assert(s@ =~= min_above_max_text(min, max));
    }
    s
}

fn utilization_reason(pct: u8) -> (r: String)
    ensures
        r@ == utilization_text(pct),
{
    let mut s = String::new();
    s.append("target_utilization_pct (");
    s.append(decimal(pct as u64).as_str());
    s.append(") must be 0–100");
    proof {
        assert(s@ =~= utilization_text(pct));
    }
    s
}

/// Checks that a configuration is internally consistent, in this order: minimum not above
/// maximum, nonzero denominator, utilisation target at most 100 %. The error's reason names
/// the first check that fails.
pub fn validate_config(config: &FeeMarketConfig) -> (r: Result<(), FeeError>)
    ensures
        r is Ok <==> config_is_valid(*config),
        config.min_base_fee > config.max_base_fee ==> (r matches Err(FeeError::InvalidConfig { reason })
            && reason@ == min_above_max_text(config.min_base_fee, config.max_base_fee)),
        config.min_base_fee <= config.max_base_fee && config.base_fee_change_denominator == 0 ==> (r matches Err(
            FeeError::InvalidConfig { reason },
        ) && reason@ == "base_fee_change_denominator must be > 0"@),
        config.min_base_fee <= config.max_base_fee && config.base_fee_change_denominator != 0
            && config.target_utilization_pct > 100 ==> (r matches Err(FeeError::InvalidConfig { reason })
            && reason@ == utilization_text(config.target_utilization_pct)),
{
    if config.min_base_fee > config.max_base_fee {
        return Err(FeeError::InvalidConfig { reason: min_above_max_reason(config.min_base_fee, config.max_base_fee) });
    }
    if config.base_fee_change_denominator == 0 {
        return Err(FeeError::InvalidConfig { reason: String::from_str("base_fee_change_denominator must be > 0") });
    }
    if config.target_utilization_pct > 100 {
        return Err(FeeError::InvalidConfig { reason: utilization_reason(config.target_utilization_pct) });
    }
    Ok(())
}

} // verus!
