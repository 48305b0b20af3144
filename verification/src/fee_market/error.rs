//! Errors of the fee market.

use vstd::prelude::*;

verus! {

/// Errors produced by the fee market.
#[derive(Debug, Clone, PartialEq, Eq)]
pub enum FeeError {
    /// The offered lamports do not cover the required fee.
    InsufficientFee { offered: u64, required: u64, base_fee_per_cu: u64, compute_units: u64 },
    /// The priority fee is below the configured minimum.
    PriorityFeeTooLow { offered: u64, minimum: u64 },
    /// The configuration is inconsistent.
    InvalidConfig { reason: String },
    /// More compute units were requested than a block can hold.
    ComputeUnitsExceedMax { requested: u64, max_block_cu: u64 },
    /// Arithmetic overflow during a fee calculation.
    Overflow,
}

} // verus!
