//! Per-step timeouts. Time is passed in as milliseconds on a monotonic clock.

use vstd::prelude::*;
use crate::bft::config::{BftConfig, propose_timeout_spec};
use crate::bft::step::ConsensusStep;

verus! {

/// The timeout of `step` in `round`: the propose timeout (growing with the round) for
/// NewRound and Propose, the configured vote timeouts, and zero for Commit.
pub open spec fn timeout_spec(config: BftConfig, step: ConsensusStep, round: u32) -> int {
    match step {
        ConsensusStep::Propose | ConsensusStep::NewRound => propose_timeout_spec(config, round),
        ConsensusStep::Prevote => config.prevote_timeout_ms as int,
        ConsensusStep::Precommit => config.precommit_timeout_ms as int,
        ConsensusStep::Commit => 0,
    }
}

/// Tracks the single active timeout.
#[derive(Debug)]
pub struct TimeoutScheduler {
    /// The configuration giving the durations.
    pub config: BftConfig,
    /// When the active timeout started, in milliseconds.
    pub started_at: Option<u64>,
    /// The step the active timeout is for.
    pub active_step: Option<ConsensusStep>,
    /// The round of the active timeout.
    pub current_round: u32,
}

impl TimeoutScheduler {
    /// A scheduler with no active timeout.
    pub fn new(config: BftConfig) -> (r: Self)
        ensures
            r.config == config,
            r.started_at is None,
            r.active_step is None,
            r.current_round == 0,
    {
        TimeoutScheduler { config, started_at: None, active_step: None, current_round: 0 }
    }

    /// Starts the timeout of `step` in `round` at time `now_ms`, replacing any active one.
    pub fn start(&mut self, step: ConsensusStep, round: u32, now_ms: u64)
        ensures
            final(self).config == old(self).config,
            final(self).started_at == Some(now_ms),
            final(self).active_step == Some(step),
            final(self).current_round == round,
    {
        self.started_at = Some(now_ms);
        self.active_step = Some(step);
        self.current_round = round;
    }

    /// Cancels the active timeout.
    pub fn cancel(&mut self)
        ensures
            final(self).config == old(self).config,
            final(self).started_at is None,
            final(self).active_step is None,
            final(self).current_round == old(self).current_round,
    {
        self.started_at = None;
        self.active_step = None;
    }

    /// The timeout duration of `step` in `round`, in milliseconds.
    pub fn timeout_duration(&self, step: ConsensusStep, round: u32) -> (r: u64)
        requires
            propose_timeout_spec(self.config, round) <= u64::MAX,
        ensures
            r == timeout_spec(self.config, step, round),
    {
        match step {
            ConsensusStep::Propose | ConsensusStep::NewRound => self.config.propose_timeout_ms(round),
            ConsensusStep::Prevote => self.config.prevote_timeout_ms,
            ConsensusStep::Precommit => self.config.precommit_timeout_ms,
            ConsensusStep::Commit => 0,
        }
    }

    /// The step whose timeout has run out at `now_ms`, if a timeout is active and at least its
    /// duration has elapsed since it started.
    pub fn check_expired(&self, now_ms: u64) -> (r: Option<ConsensusStep>)
        requires
            propose_timeout_spec(self.config, self.current_round) <= u64::MAX,
        ensures
            match (self.started_at, self.active_step) {
                (Some(t), Some(s)) => if now_ms - t >= timeout_spec(self.config, s, self.current_round)
                    || (now_ms < t && timeout_spec(self.config, s, self.current_round) == 0) {
                    r == Some(s)
                } else {
                    r is None
                },
                _ => r is None,
            },
    {
        match (self.started_at, self.active_step) {
            (Some(t), Some(s)) => {
                let duration = self.timeout_duration(s, self.current_round);
                let elapsed = now_ms.saturating_sub(t);
                if elapsed >= duration { Some(s) } else { None }
            },
            _ => None,
        }
    }

    /// The time left before the active timeout runs out at `now_ms` (zero once it has), or
    /// `None` when no timeout is active.
    pub fn remaining(&self, now_ms: u64) -> (r: Option<u64>)
        requires
            propose_timeout_spec(self.config, self.current_round) <= u64::MAX,
        ensures
            match (self.started_at, self.active_step) {
                (Some(t), Some(s)) => r == Some(
                    if now_ms < t {
                        timeout_spec(self.config, s, self.current_round) as u64
                    } else if now_ms - t >= timeout_spec(self.config, s, self.current_round) {
                        0u64
                    } else {
                        (timeout_spec(self.config, s, self.current_round) - (now_ms - t)) as u64
                    }),
                _ => r is None,
            },
    {
        match (self.started_at, self.active_step) {
            (Some(t), Some(s)) => {
                let duration = self.timeout_duration(s, self.current_round);
                let elapsed = now_ms.saturating_sub(t);
                Some(duration.saturating_sub(elapsed))
            },
            _ => None,
        }
    }

    /// The step of the active timeout.
    pub fn active_step(&self) -> (r: Option<ConsensusStep>)
        ensures
            r == self.active_step,
    {
        self.active_step
    }

    /// The round of the active timeout.
    pub fn current_round(&self) -> (r: u32)
        ensures
            r == self.current_round,
    {
        self.current_round
    }

    /// Replaces the configuration.
    pub fn update_config(&mut self, config: BftConfig)
        ensures
            final(self).config == config,
            final(self).started_at == old(self).started_at,
            final(self).active_step == old(self).active_step,
            final(self).current_round == old(self).current_round,
    {
        self.config = config;
    }
}

} // verus!
