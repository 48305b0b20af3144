//! The consensus state machine: Propose → Prevote → Precommit → Commit.
//!
//! The engine is pure: it takes messages and timeout events and returns the votes to
//! broadcast and, once a quorum of precommits names the proposal, the committed block.

use vstd::prelude::*;
use crate::primitives::{Hash32, Pubkey, Signature, is_zero_signature, lemma_hash_ext};
use crate::bft::config::BftConfig;
use crate::bft::evidence::{EvidenceCollector, VoteType, record_outcome};
use crate::bft::proposer::{is_proposer as proposer_check, is_proposer_choice, proposer_for_round};
use crate::bft::step::{ConsensusStep, step_rank};
use crate::bft::types::{BlockView, CommittedBlock, ConsensusMessage, ConsensusState, ProposedBlock, block_hash_spec};
use crate::bft::validator_set::{ValidatorInfo, ValidatorSet, position_of, quorum_spec, stake_sum};
use crate::bft::votes::{
    find_quorum_value, opt_hash_eq, quorum_value, record, record_vote, total_weight, total_weight_of,
    vote_weight, voters_distinct, weight_of, lemma_record_distinct,
};

verus! {

/// The value of the engine's round state.
#[verifier::ext_equal]
pub struct EngineView {
    pub height: u64,
    pub round: u32,
    pub step: ConsensusStep,
    pub locked_value: Option<Hash32>,
    pub locked_round: Option<u32>,
    pub valid_value: Option<Hash32>,
    pub valid_round: Option<u32>,
    pub prevotes: Seq<(Pubkey, Option<Hash32>)>,
    pub precommits: Seq<(Pubkey, Option<Hash32>)>,
    pub proposal: Option<BlockView>,
    /// Whether this validator already prevoted in the round.
    pub sent_prevote: bool,
    /// Whether this validator already precommitted in the round.
    pub sent_precommit: bool,
}

/// A vote the engine broadcasts, without its signature.
pub struct VoteDesc {
    pub kind: VoteType,
    pub height: u64,
    pub round: u32,
    pub value: Option<Hash32>,
    pub voter: Pubkey,
}

/// `m` is the vote `d`, with the placeholder (all-zero) signature.
pub open spec fn describes(m: ConsensusMessage, d: VoteDesc) -> bool {
    match m {
        ConsensusMessage::Prevote { height, round, block_hash, voter, signature } => {
            &&& d.kind == VoteType::Prevote
            &&& height == d.height && round == d.round && block_hash == d.value && voter == d.voter
            &&& is_zero_signature(signature)
        },
        ConsensusMessage::Precommit { height, round, block_hash, voter, signature } => {
            &&& d.kind == VoteType::Precommit
            &&& height == d.height && round == d.round && block_hash == d.value && voter == d.voter
            &&& is_zero_signature(signature)
        },
        ConsensusMessage::Proposal { .. } => false,
    }
}

/// The messages are exactly the votes `ds`, in order.
pub open spec fn messages_are(ms: Seq<ConsensusMessage>, ds: Seq<VoteDesc>) -> bool {
    ms.len() == ds.len() && forall|i: int| 0 <= i < ms.len() ==> describes(#[trigger] ms[i], ds[i])
}

/// The hash identifying a block value.
pub open spec fn hash_of(b: BlockView) -> Hash32 {
    choose|h: Hash32| h.bytes@ == block_hash_spec(b)
}

/// The view of an optional block.
pub open spec fn opt_block_view(b: Option<ProposedBlock>) -> Option<BlockView> {
    match b {
        Some(x) => Some(x@),
        None => None,
    }
}

/// A prevote of `voter` in `v`'s height and round.
pub open spec fn prevote_desc(v: EngineView, value: Option<Hash32>, voter: Pubkey) -> VoteDesc {
    VoteDesc { kind: VoteType::Prevote, height: v.height, round: v.round, value, voter }
}

/// A precommit of `voter` in `v`'s height and round.
pub open spec fn precommit_desc(v: EngineView, value: Option<Hash32>, voter: Pubkey) -> VoteDesc {
    VoteDesc { kind: VoteType::Precommit, height: v.height, round: v.round, value, voter }
}

/// Entering `round` of the same height: step NewRound, votes and proposal cleared, nothing
/// sent yet; locks and the valid value are kept.
pub open spec fn enter_round(v: EngineView, round: u32) -> EngineView {
    EngineView {
        round,
        step: ConsensusStep::NewRound,
        prevotes: Seq::empty(),
        precommits: Seq::empty(),
        proposal: None,
        sent_prevote: false,
        sent_precommit: false,
        ..v
    }
}

/// Starting `round`: as [`enter_round`], then waiting for the proposal.
pub open spec fn start_round_view(v: EngineView, round: u32) -> EngineView {
    EngineView { step: ConsensusStep::Propose, ..enter_round(v, round) }
}

/// The state at the start of `height`: round 0, waiting for the proposal, no lock, no votes.
pub open spec fn fresh_height(height: u64) -> EngineView {
    EngineView {
        height,
        round: 0,
        step: ConsensusStep::Propose,
        locked_value: None,
        locked_round: None,
        valid_value: None,
        valid_round: None,
        prevotes: Seq::empty(),
        precommits: Seq::empty(),
        proposal: None,
        sent_prevote: false,
        sent_precommit: false,
    }
}

/// The Tendermint prevote rule: a validator locked on another value prevotes nil unless the
/// proposal carries a polka round at or after the lock round; otherwise it prevotes the
/// proposal.
pub open spec fn prevote_choice(locked_value: Option<Hash32>, locked_round: Option<u32>, proposal: Hash32, valid_round: Option<u32>) -> Option<Hash32> {
    match locked_value {
        Some(l) => if l == proposal {
            Some(proposal)
        } else if valid_round is Some && locked_round is Some && valid_round->0 >= locked_round->0 {
            Some(proposal)
        } else {
            None
        },
        None => Some(proposal),
    }
}

/// What the collected prevotes trigger: a polka for a value locks on it and precommits it; a
/// quorum of prevotes without a single value moves to Precommit with a nil precommit. A
/// precommit is sent at most once per round.
pub open spec fn after_prevotes(v: EngineView, vs: Seq<ValidatorInfo>, quorum: int, id: Pubkey) -> (EngineView, Seq<VoteDesc>) {
    match quorum_value(vs, v.prevotes, quorum) {
        Some(h) => {
            let v1 = EngineView {
                valid_value: Some(h),
                valid_round: Some(v.round),
                locked_value: Some(h),
                locked_round: Some(v.round),
                step: ConsensusStep::Precommit,
                ..v
            };
            if !v.sent_precommit {
                (
                    EngineView { sent_precommit: true, precommits: record_vote(v.precommits, id, Some(h)), ..v1 },
                    seq![precommit_desc(v, Some(h), id)],
                )
            } else {
                (v1, Seq::empty())
            }
        },
        None => if total_weight(vs, v.prevotes) >= quorum && step_rank(v.step) < 3 {
            let v1 = EngineView { step: ConsensusStep::Precommit, ..v };
            if !v.sent_precommit {
                (
                    EngineView { sent_precommit: true, precommits: record_vote(v.precommits, id, None), ..v1 },
                    seq![precommit_desc(v, None, id)],
                )
            } else {
                (v1, Seq::empty())
            }
        } else {
            (v, Seq::empty())
        },
    }
}

/// Handling an accepted proposal for `round`: jump to a later round, store the proposal,
/// move to Prevote, and (once per round) prevote by the lock rule, then react to the
/// prevotes.
pub open spec fn accept_proposal(
    v: EngineView,
    vs: Seq<ValidatorInfo>,
    quorum: int,
    id: Pubkey,
    round: u32,
    block: BlockView,
    valid_round: Option<u32>,
) -> (EngineView, Seq<VoteDesc>) {
    let v1 = if round > v.round { enter_round(v, round) } else { v };
    let pv = prevote_choice(v1.locked_value, v1.locked_round, hash_of(block), valid_round);
    let v2 = EngineView { proposal: Some(block), step: ConsensusStep::Prevote, ..v1 };
    if v1.sent_prevote {
        (v2, Seq::empty())
    } else {
        let v3 = EngineView { sent_prevote: true, prevotes: record_vote(v2.prevotes, id, pv), ..v2 };
        let (v4, outs) = after_prevotes(v3, vs, quorum, id);
        (v4, seq![prevote_desc(v3, pv, id)] + outs)
    }
}

/// Whether a proposal is taken: the height's block is not yet committed, and the proposal is
/// for the current height and round or later, from the proposer of its round.
pub open spec fn proposal_accepted(v: EngineView, vs: Seq<ValidatorInfo>, height: u64, round: u32, proposer: Pubkey) -> bool {
    &&& v.step !is Commit
    &&& height == v.height
    &&& round >= v.round
    &&& vs.len() > 0
    &&& is_proposer_choice(vs, height, round, proposer)
    &&& position_of(vs, proposer) >= 0
}

/// The voters whose precommit names `h`, in tally order.
pub open spec fn precommitters(votes: Seq<(Pubkey, Option<Hash32>)>, h: Hash32) -> Seq<Pubkey>
    decreases votes.len(),
{
    if votes.len() == 0 {
        Seq::empty()
    } else {
        let rest = precommitters(votes.drop_last(), h);
        if votes.last().1 == Some(h) { rest.push(votes.last().0) } else { rest }
    }
}

/// The block committed by the current precommits: a value with a quorum of precommits that
/// is the hash of the stored proposal.
pub open spec fn commit_target(v: EngineView, vs: Seq<ValidatorInfo>, quorum: int) -> Option<BlockView> {
    match quorum_value(vs, v.precommits, quorum) {
        Some(h) => match v.proposal {
            Some(b) => if hash_of(b) == h { Some(b) } else { None },
            None => None,
        },
        None => None,
    }
}

/// The effect of a timeout of `step`: none once the height's block is committed.
pub open spec fn timeout_view(v: EngineView, id: Pubkey, step: ConsensusStep) -> (EngineView, Seq<VoteDesc>) {
    if v.step is Commit {
        (v, Seq::empty())
    } else {
        timeout_view_in_round(v, id, step)
    }
}

/// The effect of a timeout of `step` before the height's block is committed.
pub open spec fn timeout_view_in_round(v: EngineView, id: Pubkey, step: ConsensusStep) -> (EngineView, Seq<VoteDesc>) {
    match step {
        ConsensusStep::Propose | ConsensusStep::NewRound => if step_rank(v.step) <= 1 {
            let v1 = EngineView { step: ConsensusStep::Prevote, ..v };
            if !v.sent_prevote {
                (
                    EngineView { sent_prevote: true, prevotes: record_vote(v.prevotes, id, None), ..v1 },
                    seq![prevote_desc(v, None, id)],
                )
            } else {
                (v1, Seq::empty())
            }
        } else {
            (v, Seq::empty())
        },
        ConsensusStep::Prevote => if step_rank(v.step) <= 2 {
            let v1 = EngineView { step: ConsensusStep::Precommit, ..v };
            if !v.sent_precommit {
                (
                    EngineView { sent_precommit: true, precommits: record_vote(v.precommits, id, None), ..v1 },
                    seq![precommit_desc(v, None, id)],
                )
            } else {
                (v1, Seq::empty())
            }
        } else {
            (v, Seq::empty())
        },
        ConsensusStep::Precommit => (start_round_view(v, (v.round + 1) as u32), Seq::empty()),
        ConsensusStep::Commit => (v, Seq::empty()),
    }
}

/// The result of processing one consensus event.
#[derive(Debug)]
pub struct EngineOutput {
    /// Votes to broadcast.
    pub messages: Vec<ConsensusMessage>,
    /// The block committed by this event, if any.
    pub committed_block: Option<CommittedBlock>,
}

impl EngineOutput {
    fn empty() -> (r: Self)
        ensures
            r.messages@.len() == 0,
            r.committed_block is None,
    {
        EngineOutput { messages: Vec::new(), committed_block: None }
    }
}

/// The BFT consensus engine of one validator.
#[derive(Debug)]
pub struct ConsensusEngine {
    config: BftConfig,
    identity: Pubkey,
    validator_set: ValidatorSet,
    state: ConsensusState,
    evidence: EvidenceCollector,
    sent_prevote: bool,
    sent_precommit: bool,
}

/// The view of a round state and the sent flags.
pub open spec fn view_of(st: ConsensusState, sent_prevote: bool, sent_precommit: bool) -> EngineView {
    EngineView {
        height: st.height,
        round: st.round,
        step: st.step,
        locked_value: st.locked_value,
        locked_round: st.locked_round,
        valid_value: st.valid_value,
        valid_round: st.valid_round,
        prevotes: st.prevotes@,
        precommits: st.precommits@,
        proposal: opt_block_view(st.proposal),
        sent_prevote,
        sent_precommit,
    }
}

fn make_vote(kind: VoteType, height: u64, round: u32, value: Option<Hash32>, voter: Pubkey) -> (r: ConsensusMessage)
    ensures
        describes(r, VoteDesc { kind, height, round, value, voter }),
{
    match kind {
        VoteType::Prevote => ConsensusMessage::Prevote { height, round, block_hash: value, voter, signature: Signature::default() },
        VoteType::Precommit => ConsensusMessage::Precommit { height, round, block_hash: value, voter, signature: Signature::default() },
    }
}

proof fn lemma_hash_of(b: BlockView, h: Hash32)
    requires
        h.bytes@ == block_hash_spec(b),
    ensures
        hash_of(b) == h,
{
    let c = hash_of(b);
    assert(c.bytes@ == block_hash_spec(b));
    lemma_hash_ext(c, h);
}

/// What handling a proposal does (see [`ConsensusEngine::on_proposal`]).
pub open spec fn proposal_step(e0: ConsensusEngine, e1: ConsensusEngine, proposal: ConsensusMessage, r: EngineOutput) -> bool {
    &&& (e1.vs() == e0.vs())
    &&& (e1.id() == e0.id())
    &&& (e1.cfg() == e0.cfg())
    &&& (e1.ev() == e0.ev())
    &&& (r.committed_block is None)
    &&& (match proposal {
                ConsensusMessage::Proposal { height, round, block, proposer, valid_round, .. } =>
                    if proposal_accepted(e0@, e0.vs()@, height, round, proposer) {
                        e1@ == accept_proposal(e0@, e0.vs()@, e0.quorum(),
                            e0.id(), round, block@, valid_round).0
                        && messages_are(r.messages@, accept_proposal(e0@, e0.vs()@,
                            e0.quorum(), e0.id(), round, block@, valid_round).1)
                    } else {
                        e1@ == e0@ && r.messages@.len() == 0
                    },
                _ => e1@ == e0@ && r.messages@.len() == 0
            })
}

/// What handling a prevote does (see [`ConsensusEngine::on_prevote`]).
pub open spec fn prevote_step(e0: ConsensusEngine, e1: ConsensusEngine, prevote: ConsensusMessage, r: EngineOutput) -> bool {
    &&& (e1.vs() == e0.vs())
    &&& (e1.id() == e0.id())
    &&& (e1.cfg() == e0.cfg())
    &&& (e1.ev().min_height_view() == e0.ev().min_height_view())
    &&& (r.committed_block is None)
    &&& (match prevote {
                ConsensusMessage::Prevote { height, round, block_hash, voter, .. } =>
                    if height != e0@.height {
                        e1@ == e0@ && e1.ev() == e0.ev() && r.messages@.len() == 0
                    } else {
                        let out = record_outcome(e0.ev().votes_view(), e0.ev().evidence_view(),
                            e0.ev().min_height_view(), prevote);
                        &&& e1.ev().votes_view() == out.0
                        &&& e1.ev().evidence_view() == out.1
                        &&& if e0@.step is Commit || round != e0@.round || position_of(e0.vs()@, voter) < 0 {
                            e1@ == e0@ && r.messages@.len() == 0
                        } else {
                            let v1 = EngineView { prevotes: record_vote(e0@.prevotes, voter, block_hash), ..e0@ };
                            e1@ == after_prevotes(v1, e0.vs()@, e0.quorum(), e0.id()).0
                            && messages_are(r.messages@, after_prevotes(v1, e0.vs()@, e0.quorum(), e0.id()).1)
                        }
                    },
                _ => e1@ == e0@ && e1.ev() == e0.ev() && r.messages@.len() == 0
            })
}

/// What handling a precommit does (see [`ConsensusEngine::on_precommit`]).
pub open spec fn precommit_step(e0: ConsensusEngine, e1: ConsensusEngine, precommit: ConsensusMessage, r: EngineOutput) -> bool {
    &&& (e1.vs() == e0.vs())
    &&& (e1.id() == e0.id())
    &&& (e1.cfg() == e0.cfg())
    &&& (e1.ev().min_height_view() == e0.ev().min_height_view())
    &&& (r.messages@.len() == 0)
    &&& (match precommit {
                ConsensusMessage::Precommit { height, round, block_hash, voter, .. } =>
                    if height != e0@.height {
                        e1@ == e0@ && e1.ev() == e0.ev() && r.committed_block is None
                    } else {
                        let out = record_outcome(e0.ev().votes_view(), e0.ev().evidence_view(),
                            e0.ev().min_height_view(), precommit);
                        &&& e1.ev().votes_view() == out.0
                        &&& e1.ev().evidence_view() == out.1
                        &&& if e0@.step is Commit || round != e0@.round || position_of(e0.vs()@, voter) < 0 {
                            e1@ == e0@ && r.committed_block is None
                        } else {
                            let v1 = EngineView { precommits: record_vote(e0@.precommits, voter, block_hash), ..e0@ };
                            commit_outcome(v1, e0.vs()@, e0.quorum(), e1@, r)
                        }
                    },
                _ => e1@ == e0@ && e1.ev() == e0.ev() && r.committed_block is None
            })
}

/// What handling a timeout does (see [`ConsensusEngine::on_timeout`]).
pub open spec fn timeout_step(e0: ConsensusEngine, e1: ConsensusEngine, step: ConsensusStep, r: EngineOutput) -> bool {
    &&& (e1.vs() == e0.vs())
    &&& (e1.id() == e0.id())
    &&& (e1.cfg() == e0.cfg())
    &&& (e1.ev() == e0.ev())
    &&& (r.committed_block is None)
    &&& (e1@ == timeout_view(e0@, e0.id(), step).0)
    &&& (messages_are(r.messages@, timeout_view(e0@, e0.id(), step).1))
}

impl ConsensusEngine {
    /// The round state and sent flags.
    pub closed spec fn view(&self) -> EngineView {
        view_of(self.state, self.sent_prevote, self.sent_precommit)
    }

    /// The validator set in use.
    pub closed spec fn vs(&self) -> ValidatorSet {
        self.validator_set
    }

    /// This validator's key.
    pub closed spec fn id(&self) -> Pubkey {
        self.identity
    }

    /// The configuration.
    pub closed spec fn cfg(&self) -> BftConfig {
        self.config
    }

    /// The double-sign evidence collector.
    pub closed spec fn ev(&self) -> EvidenceCollector {
        self.evidence
    }

    /// The stake needed for a quorum with the current set and threshold.
    pub open spec fn quorum(&self) -> int {
        quorum_spec(stake_sum(self.vs()@), self.cfg().finality_threshold_ppm as int)
    }

    /// The engine invariant: a well-formed validator set and one vote per voter in each tally.
    pub open spec fn wf(&self) -> bool {
        &&& self.vs().wf()
        &&& voters_distinct(self@.prevotes)
        &&& voters_distinct(self@.precommits)
    }

    /// A new engine at height 0, round 0, step NewRound, with no votes and no evidence.
    pub fn new(config: BftConfig, identity: Pubkey, validator_set: ValidatorSet) -> (r: Self)
        requires
            validator_set.wf(),
        ensures
            r.wf(),
            r.cfg() == config,
            r.id() == identity,
            r.vs() == validator_set,
            r@ == (EngineView { step: ConsensusStep::NewRound, ..fresh_height(0) }),
            r.ev().votes_view().len() == 0,
            r.ev().evidence_view().len() == 0,
            r.ev().min_height_view() == 0,
    {
        ConsensusEngine {
            config,
            identity,
            validator_set,
            state: ConsensusState::new(0),
            evidence: EvidenceCollector::new(),
            sent_prevote: false,
            sent_precommit: false,
        }
    }

    /// Begins consensus for `height`: a fresh state for the height, round 0 started (step
    /// Propose), and evidence votes below `height - 100` pruned.
    pub fn start_new_height(&mut self, height: u64) -> (r: EngineOutput)
        requires
            old(self).wf(),
        ensures
            final(self).wf(),
            final(self).vs() == old(self).vs(),
            final(self).id() == old(self).id(),
            final(self).cfg() == old(self).cfg(),
            final(self)@ == fresh_height(height),
            final(self).ev().min_height_view() == (if height >= 100 { height - 100 } else { 0 }),
            final(self).ev().votes_view() == old(self).ev().votes_view().filter(
                |e: (crate::bft::evidence::VoteKey, crate::bft::evidence::StoredVote)|
                    e.0.height >= (if height >= 100 { height - 100 } else { 0 })),
            final(self).ev().evidence_view() == old(self).ev().evidence_view(),
            r.messages@.len() == 0,
            r.committed_block is None,
    {
        self.state = ConsensusState::new(height);
        self.sent_prevote = false;
        self.sent_precommit = false;
        self.evidence.prune(height.saturating_sub(100));
        self.start_round(0);
        EngineOutput::empty()
    }

    fn start_round(&mut self, round: u32)
        requires
            old(self).wf(),
        ensures
            final(self).wf(),
            final(self).vs() == old(self).vs(),
            final(self).id() == old(self).id(),
            final(self).cfg() == old(self).cfg(),
            final(self).ev() == old(self).ev(),
            final(self)@ == start_round_view(old(self)@, round),
    {
        self.state.advance_round(round);
        self.sent_prevote = false;
        self.sent_precommit = false;
        self.state.step = ConsensusStep::Propose;
    }

    fn quorum_stake(&self) -> (r: u64)
        requires
            self.vs().wf(),
        ensures
            r == self.quorum(),
    {
        self.validator_set.quorum_stake(self.config.finality_threshold_ppm)
    }

    /// The Tendermint prevote rule for a proposal with hash `block_hash`.
    fn determine_prevote(&self, block_hash: &Hash32, valid_round: Option<u32>) -> (r: Option<Hash32>)
        ensures
            r == prevote_choice(self@.locked_value, self@.locked_round, *block_hash, valid_round),
    {
        match self.state.locked_value {
            Some(locked) => {
                if locked == *block_hash {
                    return Some(*block_hash);
                }
                match (valid_round, self.state.locked_round) {
                    (Some(vr), Some(lr)) => if vr >= lr { Some(*block_hash) } else { None },
                    _ => None,
                }
            },
            None => Some(*block_hash),
        }
    }

    /// Reacts to the collected prevotes (see [`after_prevotes`]) and returns the votes to send.
    fn advance_from_prevotes(&mut self) -> (ms: Vec<ConsensusMessage>)
        requires
            old(self).wf(),
        ensures
            final(self).wf(),
            final(self).vs() == old(self).vs(),
            final(self).id() == old(self).id(),
            final(self).cfg() == old(self).cfg(),
            final(self).ev() == old(self).ev(),
            final(self)@ == after_prevotes(old(self)@, old(self).vs()@, old(self).quorum(), old(self).id()).0,
            messages_are(ms@, after_prevotes(old(self)@, old(self).vs()@, old(self).quorum(), old(self).id()).1),
    {
        let quorum = self.quorum_stake();
        let mut ms: Vec<ConsensusMessage> = Vec::new();
        match find_quorum_value(&self.validator_set, &self.state.prevotes, quorum) {
            Some(h) => {
                self.state.valid_value = Some(h);
                self.state.valid_round = Some(self.state.round);
                self.state.locked_value = Some(h);
                self.state.locked_round = Some(self.state.round);
                self.state.step = ConsensusStep::Precommit;
                if !self.sent_precommit {
                    self.sent_precommit = true;
                    ms.push(make_vote(VoteType::Precommit, self.state.height, self.state.round, Some(h), self.identity));
                    proof {
                        lemma_record_distinct(self.state.precommits@, self.identity, Some(h));
                    }
                    record(&mut self.state.precommits, self.identity, Some(h));
                }
            },
            None => {
                let total = total_weight_of(&self.validator_set, &self.state.prevotes);
                if total >= quorum as u128 && self.state.step.rank() < 3 {
                    self.state.step = ConsensusStep::Precommit;
                    if !self.sent_precommit {
                        self.sent_precommit = true;
                        ms.push(make_vote(VoteType::Precommit, self.state.height, self.state.round, None, self.identity));
                        proof {
                            lemma_record_distinct(self.state.precommits@, self.identity, None);
                        }
                        record(&mut self.state.precommits, self.identity, None);
                    }
                }
            },
        }
        proof {
            assert(final_view_eq(self@, after_prevotes(old(self)@, old(self).vs()@, old(self).quorum(), old(self).id()).0));
        }
        ms
    }

    /// Processes a proposal.
    ///
    /// Ignored once the height's block is committed, and unless it is for the current height,
    /// for the current round or a later one, and from the proposer of its round. A later round is entered first. The proposal is stored,
    /// the step becomes Prevote, and unless this validator already prevoted in the round it
    /// prevotes by the lock rule ([`prevote_choice`]) and reacts to the prevotes.
    pub fn on_proposal(&mut self, proposal: ConsensusMessage) -> (r: EngineOutput)
        requires
            old(self).wf(),
        ensures
            final(self).wf(),
            proposal_step(*old(self), *final(self), proposal, r),

    {
        let (height, round, block, proposer, valid_round) = match proposal {
            ConsensusMessage::Proposal { height, round, block, proposer, signature: _, valid_round } =>
                (height, round, block, proposer, valid_round),
            _ => return EngineOutput::empty(),
        };
        if height != self.state.height {
            return EngineOutput::empty();
        }
        if let ConsensusStep::Commit = self.state.step {
            return EngineOutput::empty();
        }
        if round < self.state.round {
            return EngineOutput::empty();
        }
        proof {
            self.validator_set.lemma_wf();
        }
        match proposer_for_round(&self.validator_set, height, round) {
            Some(expected) => {
                if !(expected == proposer) {
                    proof {
                        if is_proposer_choice(self.validator_set@, height, round, proposer) {
                            crate::bft::proposer::law_proposer_unique(self.validator_set@, height, round, expected, proposer);
                        }
                    }
                    return EngineOutput::empty();
                }
            },
            None => {
                return EngineOutput::empty();
            },
        }
        if !self.validator_set.contains(&proposer) {
            return EngineOutput::empty();
        }
        let ghost v0 = self@;
        if round > self.state.round {
            self.state.advance_round(round);
            self.sent_prevote = false;
            self.sent_precommit = false;
        }
        let ghost v1 = self@;
        assert(v1 =~= (if round > v0.round { enter_round(v0, round) } else { v0 }));
        let block_hash = block.hash();
        proof {
            lemma_hash_of(block@, block_hash);
        }
        let ghost bv = block@;
        self.state.proposal = Some(block);
        self.state.step = ConsensusStep::Propose;
        let our_prevote = self.determine_prevote(&block_hash, valid_round);
        self.state.step = ConsensusStep::Prevote;
        if self.sent_prevote {
            proof {
                assert(self@ =~= EngineView { proposal: Some(bv), step: ConsensusStep::Prevote, ..v1 });
            }
            return EngineOutput::empty();
        }
        self.sent_prevote = true;
        let prevote = make_vote(VoteType::Prevote, self.state.height, self.state.round, our_prevote, self.identity);
        proof {
            lemma_record_distinct(self.state.prevotes@, self.identity, our_prevote);
        }
        record(&mut self.state.prevotes, self.identity, our_prevote);
        let ghost v3 = self@;
        assert(v3 =~= EngineView {
            sent_prevote: true,
            prevotes: record_vote(v1.prevotes, self.identity, our_prevote),
            proposal: Some(bv),
            step: ConsensusStep::Prevote,
            ..v1
        });
        let mut more = self.advance_from_prevotes();
        let mut messages: Vec<ConsensusMessage> = Vec::new();
        messages.push(prevote);
        messages.append(&mut more);
        let r = EngineOutput { messages, committed_block: None };
        proof {
            let outs = after_prevotes(v3, self.vs()@, self.quorum(), self.id()).1;
            let all = seq![prevote_desc(v3, our_prevote, self.id())] + outs;
            assert forall|i: int| 0 <= i < r.messages@.len() implies describes(#[trigger] r.messages@[i], all[i]) by {
                if i > 0 {
                    assert(r.messages@[i] == more_view(r.messages@, i));
                }
            }
        }
        r
    }

    /// Processes a prevote.
    ///
    /// Votes for another height are ignored. Otherwise the vote goes to the double-sign
    /// check; it is then tallied only if the height's block is not yet committed, the vote is
    /// for the current round and from a member of the validator set, after which the engine
    /// reacts to the prevotes ([`after_prevotes`]).
    pub fn on_prevote(&mut self, prevote: ConsensusMessage) -> (r: EngineOutput)
        requires
            old(self).wf(),
        ensures
            final(self).wf(),
            prevote_step(*old(self), *final(self), prevote, r),

    {
        let (height, round, block_hash, voter) = match &prevote {
            ConsensusMessage::Prevote { height, round, block_hash, voter, .. } => (*height, *round, *block_hash, *voter),
            _ => return EngineOutput::empty(),
        };
        if height != self.state.height {
            return EngineOutput::empty();
        }
        self.evidence.check_and_record(&prevote);
        if let ConsensusStep::Commit = self.state.step {
            return EngineOutput::empty();
        }
        if round < self.state.round {
            return EngineOutput::empty();
        }
        if !self.validator_set.contains(&voter) {
            return EngineOutput::empty();
        }
        if round > self.state.round {
            return EngineOutput::empty();
        }
        proof {
            lemma_record_distinct(self.state.prevotes@, voter, block_hash);
        }
        record(&mut self.state.prevotes, voter, block_hash);
        let messages = self.advance_from_prevotes();
        EngineOutput { messages, committed_block: None }
    }

    /// Processes a precommit.
    ///
    /// Votes for another height are ignored. Otherwise the vote goes to the double-sign
    /// check; it is then tallied only if the height's block is not yet committed, the vote is
    /// for the current round and from a member of the validator set. When a quorum of
    /// precommits names the hash of the stored proposal, the step becomes Commit and the block
    /// is returned with the keys of its precommitters.
    pub fn on_precommit(&mut self, precommit: ConsensusMessage) -> (r: EngineOutput)
        requires
            old(self).wf(),
        ensures
            final(self).wf(),
            precommit_step(*old(self), *final(self), precommit, r),

    {
        let (height, round, block_hash, voter) = match &precommit {
            ConsensusMessage::Precommit { height, round, block_hash, voter, .. } => (*height, *round, *block_hash, *voter),
            _ => return EngineOutput::empty(),
        };
        if height != self.state.height {
            return EngineOutput::empty();
        }
        self.evidence.check_and_record(&precommit);
        if let ConsensusStep::Commit = self.state.step {
            return EngineOutput::empty();
        }
        if round < self.state.round {
            return EngineOutput::empty();
        }
        if !self.validator_set.contains(&voter) {
            return EngineOutput::empty();
        }
        if round > self.state.round {
            return EngineOutput::empty();
        }
        proof {
            lemma_record_distinct(self.state.precommits@, voter, block_hash);
        }
        record(&mut self.state.precommits, voter, block_hash);
        self.try_commit()
    }

    /// Commits the stored proposal when a quorum of precommits names its hash.
    fn try_commit(&mut self) -> (r: EngineOutput)
        requires
            old(self).wf(),
        ensures
            final(self).wf(),
            final(self).vs() == old(self).vs(),
            final(self).id() == old(self).id(),
            final(self).cfg() == old(self).cfg(),
            final(self).ev() == old(self).ev(),
            r.messages@.len() == 0,
            commit_outcome(old(self)@, old(self).vs()@, old(self).quorum(), final(self)@, r),
    {
        let quorum = self.quorum_stake();
        match find_quorum_value(&self.validator_set, &self.state.precommits, quorum) {
            Some(h) => {
                match &self.state.proposal {
                    Some(p) => {
                        let ph = p.hash();
                        proof {
                            lemma_hash_of(p@, ph);
                        }
                        if ph == h {
                            let block = p.duplicate();
                            let sigs = commit_signatures(&self.state.precommits, &h);
                            self.state.step = ConsensusStep::Commit;
                            return EngineOutput {
                                messages: Vec::new(),
                                committed_block: Some(CommittedBlock {
                                    block,
                                    commit_signatures: sigs,
                                    commit_round: self.state.round,
                                }),
                            };
                        }
                    },
                    None => {},
                }
            },
            None => {},
        }
        EngineOutput::empty()
    }

    /// Handles the timeout of `step` (see [`timeout_view`]): a propose (or new-round) timeout
    /// moves to Prevote with a nil prevote, a prevote timeout moves to Precommit with a nil
    /// precommit (each vote at most once per round), a precommit timeout starts the next round,
    /// and a commit timeout does nothing. Once the height's block is committed, no timeout does
    /// anything.
    pub fn on_timeout(&mut self, step: ConsensusStep) -> (r: EngineOutput)
        requires
            old(self).wf(),
            step == ConsensusStep::Precommit ==> old(self)@.round < u32::MAX,
        ensures
            final(self).wf(),
            timeout_step(*old(self), *final(self), step, r),

    {
        if let ConsensusStep::Commit = self.state.step {
            return EngineOutput::empty();
        }
        match step {
            ConsensusStep::Propose | ConsensusStep::NewRound => {
                if self.state.step.rank() <= 1 {
                    self.state.step = ConsensusStep::Prevote;
                    if !self.sent_prevote {
                        self.sent_prevote = true;
                        let prevote = make_vote(VoteType::Prevote, self.state.height, self.state.round, None, self.identity);
                        proof {
                            lemma_record_distinct(self.state.prevotes@, self.identity, None);
                        }
                        record(&mut self.state.prevotes, self.identity, None);
                        let mut messages: Vec<ConsensusMessage> = Vec::new();
                        messages.push(prevote);
                        return EngineOutput { messages, committed_block: None };
                    }
                }
                EngineOutput::empty()
            },
            ConsensusStep::Prevote => {
                if self.state.step.rank() <= 2 {
                    self.state.step = ConsensusStep::Precommit;
                    if !self.sent_precommit {
                        self.sent_precommit = true;
                        let precommit = make_vote(VoteType::Precommit, self.state.height, self.state.round, None, self.identity);
                        proof {
                            lemma_record_distinct(self.state.precommits@, self.identity, None);
                        }
                        record(&mut self.state.precommits, self.identity, None);
                        let mut messages: Vec<ConsensusMessage> = Vec::new();
                        messages.push(precommit);
                        return EngineOutput { messages, committed_block: None };
                    }
                }
                EngineOutput::empty()
            },
            ConsensusStep::Precommit => {
                let next_round = self.state.round + 1;
                self.start_round(next_round);
                EngineOutput::empty()
            },
            ConsensusStep::Commit => EngineOutput::empty(),
        }
    }

    /// Whether this validator proposes at `(height, round)`.
    pub fn is_proposer(&self, height: u64, round: u32) -> (r: bool)
        requires
            self.wf(),
        ensures
            r == (self.vs()@.len() > 0 && is_proposer_choice(self.vs()@, height, round, self.id())),
    {
        proposer_check(&self.validator_set, &self.identity, height, round)
    }

    /// The round state.
    pub fn state(&self) -> (r: &ConsensusState)
        ensures
            view_of(*r, self@.sent_prevote, self@.sent_precommit) == self@,
    {
        &self.state
    }

    /// The evidence collector.
    pub fn evidence(&self) -> (r: &EvidenceCollector)
        ensures
            *r == self.ev(),
    {
        &self.evidence
    }

    /// Mutable access to the evidence collector; the rest of the engine is unchanged.
    pub fn evidence_mut(&mut self) -> (r: &mut EvidenceCollector)
        requires
            old(self).wf(),
        ensures
            *r == old(self).ev(),
            final(self).ev() == *final(r),
            final(self).wf(),
            final(self)@ == old(self)@,
            final(self).vs() == old(self).vs(),
            final(self).id() == old(self).id(),
            final(self).cfg() == old(self).cfg(),
    {
        &mut self.evidence
    }

    /// The current height.
    pub fn height(&self) -> (r: u64)
        ensures
            r == self@.height,
    {
        self.state.height
    }

    /// The current round.
    pub fn round(&self) -> (r: u32)
        ensures
            r == self@.round,
    {
        self.state.round
    }

    /// The current step.
    pub fn step(&self) -> (r: ConsensusStep)
        ensures
            r == self@.step,
    {
        self.state.step
    }

    /// This validator's key.
    pub fn identity(&self) -> (r: &Pubkey)
        ensures
            *r == self.id(),
    {
        &self.identity
    }

    /// The validator set in use.
    pub fn validator_set(&self) -> (r: &ValidatorSet)
        ensures
            *r == self.vs(),
    {
        &self.validator_set
    }

    /// Replaces the validator set (at epoch boundaries); the round state is kept.
    pub fn update_validator_set(&mut self, validator_set: ValidatorSet)
        requires
            old(self).wf(),
            validator_set.wf(),
        ensures
            final(self).wf(),
            final(self).vs() == validator_set,
            final(self)@ == old(self)@,
            final(self).id() == old(self).id(),
            final(self).cfg() == old(self).cfg(),
            final(self).ev() == old(self).ev(),
    {
        self.validator_set = validator_set;
    }

    /// The configuration.
    pub fn config(&self) -> (r: &BftConfig)
        ensures
            *r == self.cfg(),
    {
        &self.config
    }

    /// Whether the prevotes for `block_hash` (`None` = nil) carry a quorum of stake.
    pub fn has_quorum_prevotes(&self, block_hash: &Option<Hash32>) -> (r: bool)
        requires
            self.wf(),
        ensures
            r == (vote_weight(self.vs()@, self@.prevotes, *block_hash) >= self.quorum()),
    {
        let q = self.quorum_stake();
        weight_of(&self.validator_set, &self.state.prevotes, block_hash) >= q as u128
    }

    /// Whether the precommits for `block_hash` (`None` = nil) carry a quorum of stake.
    pub fn has_quorum_precommits(&self, block_hash: &Option<Hash32>) -> (r: bool)
        requires
            self.wf(),
        ensures
            r == (vote_weight(self.vs()@, self@.precommits, *block_hash) >= self.quorum()),
    {
        let q = self.quorum_stake();
        weight_of(&self.validator_set, &self.state.precommits, block_hash) >= q as u128
    }
}

/// The outcome of checking the precommits of `v`: with a commit target, the step becomes
/// Commit and the output carries the block, the current round and the precommitters with
/// placeholder signatures; otherwise nothing changes and nothing is committed.
pub open spec fn commit_outcome(v: EngineView, vs: Seq<ValidatorInfo>, quorum: int, after: EngineView, r: EngineOutput) -> bool {
    match commit_target(v, vs, quorum) {
        Some(b) => {
            &&& after == EngineView { step: ConsensusStep::Commit, ..v }
            &&& r.committed_block matches Some(cb)
            &&& cb.block@ == b
            &&& cb.commit_round == v.round
            &&& cb.commit_signatures@.len() == precommitters(v.precommits, hash_of(b)).len()
            &&& forall|i: int| 0 <= i < cb.commit_signatures@.len() ==> {
                &&& (#[trigger] cb.commit_signatures@[i]).0 == precommitters(v.precommits, hash_of(b))[i]
                &&& is_zero_signature(cb.commit_signatures@[i].1)
            }
        },
        None => after == v && r.committed_block is None,
    }
}

/// The precommitters of `h` with placeholder signatures, in tally order.
fn commit_signatures(votes: &Vec<(Pubkey, Option<Hash32>)>, h: &Hash32) -> (r: Vec<(Pubkey, Signature)>)
    ensures
        r@.len() == precommitters(votes@, *h).len(),
        forall|i: int| 0 <= i < r@.len() ==> {
            &&& (#[trigger] r@[i]).0 == precommitters(votes@, *h)[i]
            &&& is_zero_signature(r@[i].1)
        },
{
    let mut out: Vec<(Pubkey, Signature)> = Vec::new();
    let mut i: usize = 0;
    while i < votes.len()
        invariant
            0 <= i <= votes@.len(),
            out@.len() == precommitters(votes@.take(i as int), *h).len(),
            forall|k: int| 0 <= k < out@.len() ==> {
                &&& (#[trigger] out@[k]).0 == precommitters(votes@.take(i as int), *h)[k]
                &&& is_zero_signature(out@[k].1)
            },
        decreases votes@.len() - i,
    {
        proof {
            assert(votes@.take(i + 1).drop_last() =~= votes@.take(i as int));
        }
        if opt_hash_eq(&votes[i].1, &Some(*h)) {
            out.push((votes[i].0, Signature::default()));
        }
        i = i + 1;
    }
    proof {
        assert(votes@.take(votes@.len() as int) =~= votes@);
    }
    out
}

/// The element at `i` (a name that helps the solver match sequence positions).
pub open spec fn more_view(ms: Seq<ConsensusMessage>, i: int) -> ConsensusMessage {
    ms[i]
}

/// Extensional equality of engine views.
pub open spec fn final_view_eq(a: EngineView, b: EngineView) -> bool {
    a =~= b
}

} // verus!
