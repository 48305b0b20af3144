//! Timing, quorum and round-limit parameters of the BFT engine.

use vstd::prelude::*;

verus! {

/// Configuration of the BFT engine. Timeouts are in milliseconds; the quorum threshold is
/// in parts per million of the total stake.
#[derive(Debug, Clone, Copy)]
pub struct BftConfig {
    /// Target block interval.
    pub block_time_ms: u64,
    /// Timeout of the prevote step.
    pub prevote_timeout_ms: u64,
    /// Timeout of the precommit step.
    pub precommit_timeout_ms: u64,
    /// Fraction of the total stake needed for a quorum, in parts per million (667_000 = 0.667).
    pub finality_threshold_ppm: u64,
    /// Rounds per height after which the engine warns.
    pub max_rounds_per_height: u32,
    /// Propose timeout of round 0.
    pub propose_timeout_base_ms: u64,
    /// Extra propose timeout per round.
    pub propose_timeout_delta_ms: u64,
}

/// Errors of [`BftConfig::validate`].
#[derive(Debug, Clone, Copy, PartialEq, Eq)]
pub enum ConfigError {
    /// `block_time_ms` is zero.
    InvalidBlockTime,
    /// The threshold (parts per million) is outside `[500_000, 1_000_000]`.
    InvalidFinalityThreshold(u64),
    /// `max_rounds_per_height` is zero.
    InvalidMaxRounds,
}

/// `propose_timeout_base_ms + propose_timeout_delta_ms * round`.
pub open spec fn propose_timeout_spec(config: BftConfig, round: u32) -> int {
    config.propose_timeout_base_ms + config.propose_timeout_delta_ms * round
}

impl Default for BftConfig {
    /// One-second blocks, one-second vote timeouts, a 0.667 quorum, 5 rounds, and a propose
    /// timeout of 3 s plus 0.5 s per round.
    fn default() -> (r: Self)
        ensures
            r.block_time_ms == 1000,
            r.prevote_timeout_ms == 1000,
            r.precommit_timeout_ms == 1000,
            r.finality_threshold_ppm == 667_000,
            r.max_rounds_per_height == 5,
            r.propose_timeout_base_ms == 3000,
            r.propose_timeout_delta_ms == 500,
    {
        BftConfig {
            block_time_ms: 1000,
            prevote_timeout_ms: 1000,
            precommit_timeout_ms: 1000,
            finality_threshold_ppm: 667_000,
            max_rounds_per_height: 5,
            propose_timeout_base_ms: 3000,
            propose_timeout_delta_ms: 500,
        }
    }
}

impl BftConfig {
    /// The propose timeout of `round`: base plus delta per round.
    pub fn propose_timeout_ms(&self, round: u32) -> (r: u64)
        requires
            propose_timeout_spec(*self, round) <= u64::MAX,
        ensures
            r == propose_timeout_spec(*self, round),
    {
        assert(self.propose_timeout_delta_ms * round >= 0) by (nonlinear_arith)
            requires
                self.propose_timeout_delta_ms >= 0,
                round >= 0,
        ;
        self.propose_timeout_base_ms + self.propose_timeout_delta_ms * (round as u64)
    }

    /// Checks the parameters: nonzero block time, a threshold in `[0.5, 1.0]`, at least one
    /// round.
    pub fn validate(&self) -> (r: Result<(), ConfigError>)
        ensures
            self.block_time_ms == 0 ==> r == Err::<(), ConfigError>(ConfigError::InvalidBlockTime),
            self.block_time_ms != 0 && (self.finality_threshold_ppm < 500_000 || self.finality_threshold_ppm > 1_000_000)
                ==> r == Err::<(), ConfigError>(ConfigError::InvalidFinalityThreshold(self.finality_threshold_ppm)),
            self.block_time_ms != 0 && 500_000 <= self.finality_threshold_ppm <= 1_000_000 && self.max_rounds_per_height == 0
                ==> r == Err::<(), ConfigError>(ConfigError::InvalidMaxRounds),
            self.block_time_ms != 0 && 500_000 <= self.finality_threshold_ppm <= 1_000_000 && self.max_rounds_per_height != 0
                ==> r is Ok,
    {
        if self.block_time_ms == 0 {
            return Err(ConfigError::InvalidBlockTime);
        }
        if self.finality_threshold_ppm < 500_000 || self.finality_threshold_ppm > 1_000_000 {
            return Err(ConfigError::InvalidFinalityThreshold(self.finality_threshold_ppm));
        }
        if self.max_rounds_per_height == 0 {
            return Err(ConfigError::InvalidMaxRounds);
        }
        Ok(())
    }
}

} // verus!
