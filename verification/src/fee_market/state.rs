//! Per-block fee state.

use vstd::prelude::*;
use crate::arith::sat_add_spec;

verus! {

/// Fee state carried by each block.
#[derive(Debug, Clone, Copy, PartialEq, Eq, Default)]
pub struct BlockFeeState {
    /// Base fee per CU of this block.
    pub base_fee_per_cu: u64,
    /// CU consumed by the parent block.
    pub parent_gas_used: u64,
    /// CU consumed so far in this block.
    pub current_gas_used: u64,
    /// Block height.
    pub height: u64,
}

impl BlockFeeState {
    /// The genesis fee state with the given base fee.
    pub fn genesis(initial_base_fee: u64) -> (r: Self)
        ensures
            r == (BlockFeeState {
                base_fee_per_cu: initial_base_fee,
                parent_gas_used: 0,
                current_gas_used: 0,
                height: 0,
            }),
    {
        BlockFeeState { base_fee_per_cu: initial_base_fee, parent_gas_used: 0, current_gas_used: 0, height: 0 }
    }

    /// Records `cu` consumed compute units (saturating) and returns the new running total.
    pub fn record_gas(&mut self, cu: u64) -> (total: u64)
        ensures
            final(self).current_gas_used == sat_add_spec(old(self).current_gas_used as int, cu as int),
            total == final(self).current_gas_used,
            final(self).base_fee_per_cu == old(self).base_fee_per_cu,
            final(self).parent_gas_used == old(self).parent_gas_used,
            final(self).height == old(self).height,
    {
        self.current_gas_used = self.current_gas_used.saturating_add(cu);
        self.current_gas_used
    }

    /// The child block's fee state: this block's usage becomes the parent usage.
    pub fn next_block(&self, next_base_fee: u64, next_height: u64) -> (r: Self)
        ensures
            r == (BlockFeeState {
                base_fee_per_cu: next_base_fee,
                parent_gas_used: self.current_gas_used,
                current_gas_used: 0,
                height: next_height,
            }),
    {
        BlockFeeState {
            base_fee_per_cu: next_base_fee,
            parent_gas_used: self.current_gas_used,
            current_gas_used: 0,
            height: next_height,
        }
    }
}

/// Fee breakdown of one transaction.
#[derive(Debug, Clone, Copy, PartialEq, Eq, Default)]
pub struct TransactionFee {
    /// `base_fee_per_cu * compute_units`, saturating.
    pub base_fee: u64,
    /// `priority_fee_per_cu * compute_units`, saturating.
    pub priority_fee: u64,
    /// `base_fee + priority_fee`, saturating.
    pub total_fee: u64,
}

} // verus!
