//! Tunables of the fee market.

use vstd::prelude::*;
use crate::arith::{sat_mul, sat_mul_spec};

verus! {

/// Configuration of the EIP-1559-style fee market, in compute units (CU).
#[derive(Debug, Clone, PartialEq, Eq)]
pub struct FeeMarketConfig {
    /// Floor of the base fee per CU, in lamports.
    pub min_base_fee: u64,
    /// Ceiling of the base fee per CU, in lamports.
    pub max_base_fee: u64,
    /// Target block utilisation in percent (0–100).
    pub target_utilization_pct: u8,
    /// Hard capacity of one block, in CU.
    pub max_block_compute_units: u64,
    /// The base fee changes by at most `1 / base_fee_change_denominator` per block.
    pub base_fee_change_denominator: u64,
    /// Minimum priority fee per CU a transaction must offer.
    pub min_priority_fee: u64,
}

/// `max_block_compute_units * target_utilization_pct / 100`, the product saturating.
pub open spec fn target_gas_spec(config: FeeMarketConfig) -> int {
    sat_mul_spec(config.max_block_compute_units as int, config.target_utilization_pct as int) / 100
}

impl FeeMarketConfig {
    /// Target compute units per block: `max_block_compute_units * target_utilization_pct / 100`.
    pub fn target_gas(&self) -> (r: u64)
        ensures
            r == target_gas_spec(*self),
    {
        sat_mul(self.max_block_compute_units, self.target_utilization_pct as u64) / 100
    }
}

impl Default for FeeMarketConfig {
    /// Genesis defaults of TRv1.
    fn default() -> (r: Self)
        ensures
            r.min_base_fee == 5_000,
            r.max_base_fee == 50_000_000,
            r.target_utilization_pct == 50,
            r.max_block_compute_units == 48_000_000,
            r.base_fee_change_denominator == 8,
            r.min_priority_fee == 0,
    {
        FeeMarketConfig {
            min_base_fee: 5_000,
            max_base_fee: 50_000_000,
            target_utilization_pct: 50,
            max_block_compute_units: 48_000_000,
            base_fee_change_denominator: 8,
            min_priority_fee: 0,
        }
    }
}

} // verus!
