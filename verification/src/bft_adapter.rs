//! The node's driver of the consensus engine: it starts heights, feeds messages and timeouts
//! to the engine, keeps the step timeouts running, and tracks the hash of the last committed
//! block.
//!
//! The bank is the caller's: the driver says when to propose ([`BftAdapter::start_height`],
//! [`BftAdapter::check_timeouts`]) and builds the proposal from the pending transactions and
//! the bank's state root ([`BftAdapter::produce_block`]); the caller executes a committed
//! block and hands the result to [`BftAdapter::process_engine_output`]. Times are
//! milliseconds on the caller's clock.

use vstd::prelude::*;
use crate::primitives::{Hash32, Pubkey, Signature};
use crate::bft::config::{BftConfig, propose_timeout_spec};
use crate::bft::engine::{
    ConsensusEngine, EngineOutput, EngineView, precommit_step, prevote_step, proposal_step, timeout_step,
};
use crate::bft::proposer::is_proposer_choice;
use crate::bft::step::{ConsensusStep, step_rank};
use crate::bft::timeout::TimeoutScheduler;
use crate::bft::types::{ConsensusMessage, ProposedBlock, block_hash_spec};
use crate::bft::validator_set::ValidatorSet;
use crate::producer::{BlockProducer, BlockProducerError};

verus! {

/// What the driver hands back for one event: votes to broadcast, and whether (and with which
/// hash) a block was committed.
#[derive(Debug)]
pub struct AdapterOutput {
    /// Messages to broadcast.
    pub messages: Vec<ConsensusMessage>,
    /// Whether a block was committed.
    pub block_committed: bool,
    /// The bank hash of the executed block, or the block's own hash when execution failed.
    pub committed_hash: Option<Hash32>,
}

impl AdapterOutput {
    /// Nothing to broadcast, nothing committed.
    pub fn empty() -> (r: Self)
        ensures
            r.messages@.len() == 0,
            !r.block_committed,
            r.committed_hash is None,
    {
        AdapterOutput { messages: Vec::new(), block_committed: false, committed_hash: None }
    }

    /// The engine's messages, and its committed block reported by the block's hash.
    pub fn from_engine_output(output: EngineOutput) -> (r: Self)
        ensures
            r.messages@ == output.messages@,
            r.block_committed == output.committed_block is Some,
            output.committed_block matches Some(cb) ==> (r.committed_hash matches Some(h) && h.bytes@ == block_hash_spec(
                cb.block@,
            )),
            output.committed_block is None ==> r.committed_hash is None,
    {
        let committed_hash = match &output.committed_block {
            Some(cb) => Some(cb.block.hash()),
            None => None,
        };
        AdapterOutput { block_committed: output.committed_block.is_some(), committed_hash, messages: output.messages }
    }
}

/// The consensus engine with its timeouts, for the node's own identity.
#[derive(Debug)]
pub struct BftAdapter {
    engine: ConsensusEngine,
    timeout_scheduler: TimeoutScheduler,
    identity: Pubkey,
    last_committed_hash: Hash32,
}

/// Which step timeout the engine's step calls for after a message: Prevote once the engine
/// reached Prevote on a proposal, Precommit once it reached Precommit on a prevote.
pub open spec fn restarts_timeout(before: TimeoutScheduler, after: TimeoutScheduler, step: ConsensusStep, round: u32, now_ms: u64, fire: bool) -> bool {
    if fire {
        &&& after.config == before.config
        &&& after.started_at == Some(now_ms)
        &&& after.active_step == Some(step)
        &&& after.current_round == round
    } else {
        after == before
    }
}

impl BftAdapter {
    /// The engine.
    pub closed spec fn engine_spec(&self) -> ConsensusEngine {
        self.engine
    }

    /// The timeouts.
    pub closed spec fn timeouts(&self) -> TimeoutScheduler {
        self.timeout_scheduler
    }

    /// The node's identity.
    pub closed spec fn identity_spec(&self) -> Pubkey {
        self.identity
    }

    /// The hash of the last committed block.
    pub closed spec fn last_hash(&self) -> Hash32 {
        self.last_committed_hash
    }

    /// The driver's invariant: the engine is well formed and runs for the driver's identity.
    pub closed spec fn wf(&self) -> bool {
        &&& self.engine.wf()
        &&& self.engine.id() == self.identity
    }

    /// A driver for `identity` with a fresh engine, no timeout running, and the given hash as
    /// the last committed block's.
    pub fn new(config: BftConfig, identity: Pubkey, validator_set: ValidatorSet, last_committed_hash: Hash32) -> (r: Self)
        requires
            validator_set.wf(),
        ensures
            r.wf(),
            r.engine_spec().cfg() == config,
            r.engine_spec().vs() == validator_set,
            r.engine_spec()@ == (EngineView { step: ConsensusStep::NewRound, ..crate::bft::engine::fresh_height(0) }),
            r.timeouts() == (TimeoutScheduler { config, started_at: None, active_step: None, current_round: 0 }),
            r.identity_spec() == identity,
            r.last_hash() == last_committed_hash,
    {
        let timeout_scheduler = TimeoutScheduler::new(config);
        let engine = ConsensusEngine::new(config, identity, validator_set);
        BftAdapter { engine, timeout_scheduler, identity, last_committed_hash }
    }

    /// Starts consensus for `height`: the engine starts the height, the propose timeout of
    /// round 0 runs from `now_ms`, and the result says whether this node proposes (then the
    /// caller adds the proposal of [`Self::produce_block`] to the output).
    pub fn start_height(&mut self, height: u64, now_ms: u64) -> (r: (AdapterOutput, bool))
        requires
            old(self).wf(),
        ensures
            final(self).wf(),
            final(self).engine_spec()@ == crate::bft::engine::fresh_height(height),
            final(self).engine_spec().vs() == old(self).engine_spec().vs(),
            final(self).engine_spec().cfg() == old(self).engine_spec().cfg(),
            final(self).timeouts() == (TimeoutScheduler {
                started_at: Some(now_ms),
                active_step: Some(ConsensusStep::Propose),
                current_round: 0,
                ..old(self).timeouts()
            }),
            final(self).identity_spec() == old(self).identity_spec(),
            final(self).last_hash() == old(self).last_hash(),
            r.0.messages@.len() == 0,
            !r.0.block_committed,
            r.1 == (old(self).engine_spec().vs()@.len() > 0 && is_proposer_choice(
                old(self).engine_spec().vs()@,
                height,
                0,
                old(self).identity_spec(),
            )),
    {
        let output = self.engine.start_new_height(height);
        let round = self.engine.round();
        self.timeout_scheduler.start(ConsensusStep::Propose, round, now_ms);
        let out = AdapterOutput::from_engine_output(output);
        let propose = self.engine.is_proposer(height, round);
        (out, propose)
    }

    /// The proposal of `block` for the current height and round, from this node, carrying the
    /// engine's valid round.
    pub fn proposal_message(&self, block: ProposedBlock) -> (r: ConsensusMessage)
        ensures
            r == (ConsensusMessage::Proposal {
                height: self.engine_spec()@.height,
                round: self.engine_spec()@.round,
                block,
                proposer: self.identity_spec(),
                signature: r->Proposal_signature,
                valid_round: self.engine_spec()@.valid_round,
            }),
            crate::primitives::is_zero_signature(r->Proposal_signature),
    {
        let valid_round = self.engine.state().valid_round;
        ConsensusMessage::Proposal {
            height: self.engine.height(),
            round: self.engine.round(),
            block,
            proposer: self.identity,
            signature: Signature::default(),
            valid_round,
        }
    }

    /// This node's proposal for `height` in the current round: a block from `producer` on the
    /// last committed block, with the bank's `state_root` and the proposal time `timestamp`,
    /// carrying the engine's valid round.
    pub fn produce_block(&self, producer: &BlockProducer, height: u64, state_root: Hash32, timestamp: i64) -> (r: Result<ConsensusMessage, BlockProducerError>)
        ensures
            r matches Ok(ConsensusMessage::Proposal { height: h, round, block, proposer, signature, valid_round }) && {
                &&& h == height
                &&& round == self.engine_spec()@.round
                &&& valid_round == self.engine_spec()@.valid_round
                &&& proposer == self.identity_spec()
                &&& crate::primitives::is_zero_signature(signature)
                &&& block.height == height
                &&& block.parent_hash == self.last_hash()
                &&& block.proposer == self.identity_spec()
                &&& block.state_root == state_root
                &&& block.timestamp == timestamp
                &&& block.transactions@.len() <= producer.config_spec().max_transactions_per_block
            },
    {
        let block = match producer.create_block(height, self.last_committed_hash, self.identity, state_root, timestamp) {
            Ok(b) => b,
            Err(e) => return Err(e),
        };
        let valid_round = self.engine.state().valid_round;
        Ok(ConsensusMessage::Proposal {
            height,
            round: self.engine.round(),
            block,
            proposer: self.identity,
            signature: Signature::default(),
            valid_round,
        })
    }

    /// Feeds a message to the engine. After a proposal that brought the engine to Prevote or
    /// later, the prevote timeout runs from `now_ms`; after a prevote that brought it to
    /// Precommit or later, the precommit timeout. The engine's output goes to
    /// [`Self::process_engine_output`] once any committed block was executed.
    pub fn handle_message(&mut self, msg: ConsensusMessage, now_ms: u64) -> (r: EngineOutput)
        requires
            old(self).wf(),
        ensures
            final(self).wf(),
            final(self).identity_spec() == old(self).identity_spec(),
            final(self).last_hash() == old(self).last_hash(),
            match msg {
                ConsensusMessage::Proposal { .. } => {
                    &&& proposal_step(old(self).engine_spec(), final(self).engine_spec(), msg, r)
                    &&& restarts_timeout(old(self).timeouts(), final(self).timeouts(), ConsensusStep::Prevote,
                        final(self).engine_spec()@.round, now_ms, step_rank(final(self).engine_spec()@.step) >= 2)
                },
                ConsensusMessage::Prevote { .. } => {
                    &&& prevote_step(old(self).engine_spec(), final(self).engine_spec(), msg, r)
                    &&& restarts_timeout(old(self).timeouts(), final(self).timeouts(), ConsensusStep::Precommit,
                        final(self).engine_spec()@.round, now_ms, step_rank(final(self).engine_spec()@.step) >= 3)
                },
                ConsensusMessage::Precommit { .. } => {
                    &&& precommit_step(old(self).engine_spec(), final(self).engine_spec(), msg, r)
                    &&& final(self).timeouts() == old(self).timeouts()
                },
            },
    {
        match &msg {
            ConsensusMessage::Proposal { .. } => {
                let output = self.engine.on_proposal(msg);
                if self.engine.step().rank() >= 2 {
                    let round = self.engine.round();
                    self.timeout_scheduler.start(ConsensusStep::Prevote, round, now_ms);
                }
                output
            },
            ConsensusMessage::Prevote { .. } => {
                let output = self.engine.on_prevote(msg);
                if self.engine.step().rank() >= 3 {
                    let round = self.engine.round();
                    self.timeout_scheduler.start(ConsensusStep::Precommit, round, now_ms);
                }
                output
            },
            ConsensusMessage::Precommit { .. } => self.engine.on_precommit(msg),
        }
    }

    /// Finishes an engine output. `executed` is what executing the committed block against the
    /// bank gave (`None` when nothing was committed). A successful execution records the
    /// block's hash as the last committed one, cancels the timeout, and reports the bank hash;
    /// a failed one changes nothing and reports the block's own hash.
    pub fn process_engine_output(&mut self, output: EngineOutput, executed: Option<Result<Hash32, String>>) -> (r: AdapterOutput)
        requires
            output.committed_block is Some <==> executed is Some,
        ensures
            final(self).engine_spec() == old(self).engine_spec(),
            final(self).identity_spec() == old(self).identity_spec(),
            r.messages@ == output.messages@,
            r.block_committed == output.committed_block is Some,
            match (output.committed_block, executed) {
                (Some(cb), Some(Ok(bank_hash))) => {
                    &&& r.committed_hash == Some(bank_hash)
                    &&& final(self).last_hash().bytes@ == block_hash_spec(cb.block@)
                    &&& final(self).timeouts() == (TimeoutScheduler {
                        started_at: None,
                        active_step: None,
                        ..old(self).timeouts()
                    })
                },
                (Some(cb), _) => {
                    &&& r.committed_hash matches Some(h) && h.bytes@ == block_hash_spec(cb.block@)
                    &&& final(self).last_hash() == old(self).last_hash()
                    &&& final(self).timeouts() == old(self).timeouts()
                },
                (None, _) => {
                    &&& r.committed_hash is None
                    &&& final(self).last_hash() == old(self).last_hash()
                    &&& final(self).timeouts() == old(self).timeouts()
                },
            },
    {
        let success = match (&output.committed_block, &executed) {
            (Some(cb), Some(Ok(bank_hash))) => Some((cb.block.hash(), *bank_hash)),
            _ => None,
        };
        match success {
            Some((block_hash, bank_hash)) => {
                self.last_committed_hash = block_hash;
                self.timeout_scheduler.cancel();
                AdapterOutput { messages: output.messages, block_committed: true, committed_hash: Some(bank_hash) }
            },
            None => AdapterOutput::from_engine_output(output),
        }
    }

    /// Checks the running timeout at `now_ms`. If it ran out, the engine handles it and the
    /// next timeout starts for the step the engine is in: propose, prevote or precommit; at
    /// Commit the timeout stops. The result carries the engine's output and whether this node
    /// proposes in the round just entered.
    pub fn check_timeouts(&mut self, now_ms: u64) -> (r: (EngineOutput, bool))
        requires
            old(self).wf(),
            old(self).engine_spec()@.round < u32::MAX,
            propose_timeout_spec(old(self).timeouts().config, old(self).timeouts().current_round) <= u64::MAX,
        ensures
            final(self).wf(),
            final(self).identity_spec() == old(self).identity_spec(),
            final(self).last_hash() == old(self).last_hash(),
            match (old(self).timeouts().started_at, old(self).timeouts().active_step) {
                (Some(t), Some(s)) => {
                    let d = crate::bft::timeout::timeout_spec(old(self).timeouts().config, s, old(self).timeouts().current_round);
                    if now_ms - t >= d || (now_ms < t && d == 0) {
                        let e1 = final(self).engine_spec();
                        let next = e1@.step;
                        &&& timeout_step(old(self).engine_spec(), e1, s, r.0)
                        &&& next is Commit ==> final(self).timeouts() == (TimeoutScheduler {
                            started_at: None,
                            active_step: None,
                            ..old(self).timeouts()
                        })
                        &&& next is NewRound ==> final(self).timeouts() == old(self).timeouts()
                        &&& (next is Propose || next is Prevote || next is Precommit) ==> restarts_timeout(
                            old(self).timeouts(),
                            final(self).timeouts(),
                            next,
                            e1@.round,
                            now_ms,
                            true,
                        )
                        &&& r.1 == (next is Propose && e1.vs()@.len() > 0 && is_proposer_choice(e1.vs()@, e1@.height, e1@.round, e1.id()))
                    } else {
                        &&& r.0.messages@.len() == 0 && r.0.committed_block is None && !r.1
                        &&& final(self).engine_spec() == old(self).engine_spec()
                        &&& final(self).timeouts() == old(self).timeouts()
                    }
                },
                _ => {
                    &&& r.0.messages@.len() == 0 && r.0.committed_block is None && !r.1
                    &&& final(self).engine_spec() == old(self).engine_spec()
                    &&& final(self).timeouts() == old(self).timeouts()
                },
            },
    {
        let expired = self.timeout_scheduler.check_expired(now_ms);
        match expired {
            None => (EngineOutput { messages: Vec::new(), committed_block: None }, false),
            Some(step) => {
                let output = self.engine.on_timeout(step);
                let round = self.engine.round();
                let mut propose = false;
                match self.engine.step() {
                    ConsensusStep::Propose => {
                        self.timeout_scheduler.start(ConsensusStep::Propose, round, now_ms);
                        let height = self.engine.height();
                        propose = self.engine.is_proposer(height, round);
                    },
                    ConsensusStep::Prevote => {
                        self.timeout_scheduler.start(ConsensusStep::Prevote, round, now_ms);
                    },
                    ConsensusStep::Precommit => {
                        self.timeout_scheduler.start(ConsensusStep::Precommit, round, now_ms);
                    },
                    ConsensusStep::Commit => {
                        self.timeout_scheduler.cancel();
                    },
                    ConsensusStep::NewRound => {},
                }
                (output, propose)
            },
        }
    }

    /// The time left on the running timeout at `now_ms`, or `None` when none runs.
    pub fn time_to_next_timeout(&self, now_ms: u64) -> (r: Option<u64>)
        requires
            propose_timeout_spec(self.timeouts().config, self.timeouts().current_round) <= u64::MAX,
        ensures
            match (self.timeouts().started_at, self.timeouts().active_step) {
                (Some(t), Some(s)) => {
                    let d = crate::bft::timeout::timeout_spec(self.timeouts().config, s, self.timeouts().current_round);
                    r == Some(if now_ms < t {
                        d as u64
                    } else if now_ms - t >= d {
                        0u64
                    } else {
                        (d - (now_ms - t)) as u64
                    })
                },
                _ => r is None,
            },
    {
        self.timeout_scheduler.remaining(now_ms)
    }

    /// Replaces the engine's validator set.
    pub fn update_validator_set(&mut self, validator_set: ValidatorSet)
        requires
            old(self).wf(),
            validator_set.wf(),
        ensures
            final(self).wf(),
            final(self).engine_spec().vs() == validator_set,
            final(self).engine_spec()@ == old(self).engine_spec()@,
            final(self).timeouts() == old(self).timeouts(),
            final(self).identity_spec() == old(self).identity_spec(),
            final(self).last_hash() == old(self).last_hash(),
    {
        self.engine.update_validator_set(validator_set);
    }

    /// The current height.
    pub fn height(&self) -> (r: u64)
        ensures
            r == self.engine_spec()@.height,
    {
        self.engine.height()
    }

    /// The current round.
    pub fn round(&self) -> (r: u32)
        ensures
            r == self.engine_spec()@.round,
    {
        self.engine.round()
    }

    /// The current step.
    pub fn step(&self) -> (r: ConsensusStep)
        ensures
            r == self.engine_spec()@.step,
    {
        self.engine.step()
    }

    /// This node's identity.
    pub fn identity(&self) -> (r: Pubkey)
        ensures
            r == self.identity_spec(),
    {
        self.identity
    }

    /// The hash of the last committed block.
    pub fn last_committed_hash(&self) -> (r: Hash32)
        ensures
            r == self.last_hash(),
    {
        self.last_committed_hash
    }

    /// The engine.
    pub fn engine(&self) -> (r: &ConsensusEngine)
        ensures
            *r == self.engine_spec(),
    {
        &self.engine
    }
}

} // verus!
