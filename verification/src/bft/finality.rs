//! Finality within a height: once the engine commits a block it stays at Commit, ignores
//! further proposals, tallies and timeouts, and commits nothing else until the next height
//! starts.

use vstd::prelude::*;
use crate::bft::engine::{
    ConsensusEngine, EngineOutput, precommit_step, prevote_step, proposal_step, timeout_step,
};
use crate::bft::step::ConsensusStep;
use crate::bft::types::ConsensusMessage;

verus! {

/// An event the engine handles within a height: a consensus message or the timeout of a step.
#[derive(Debug, Clone)]
pub enum EngineEvent {
    /// A proposal, prevote or precommit.
    Message(ConsensusMessage),
    /// The timeout of a step.
    Timeout(ConsensusStep),
}

/// What handling `ev` does to the engine (`e0` before, `e1` after, `r` the output), as the
/// handlers' contracts state it.
pub open spec fn event_step(e0: ConsensusEngine, e1: ConsensusEngine, ev: EngineEvent, r: EngineOutput) -> bool {
    match ev {
        EngineEvent::Message(m) => match m {
            ConsensusMessage::Proposal { .. } => proposal_step(e0, e1, m, r),
            ConsensusMessage::Prevote { .. } => prevote_step(e0, e1, m, r),
            ConsensusMessage::Precommit { .. } => precommit_step(e0, e1, m, r),
        },
        EngineEvent::Timeout(s) => timeout_step(e0, e1, s, r),
    }
}

/// Whether `engines`, `events` and `outputs` record a run of the engine: each engine is what
/// handling the event at its position made of the one before, with that output.
pub open spec fn is_run(engines: Seq<ConsensusEngine>, events: Seq<EngineEvent>, outputs: Seq<EngineOutput>) -> bool {
    &&& engines.len() == events.len() + 1
    &&& outputs.len() == events.len()
    &&& forall|k: int| 0 <= k < events.len() ==> #[trigger] event_step(engines[k], engines[k + 1], events[k], outputs[k])
}

/// An engine at Commit stays as it is and commits nothing, whatever the event.
pub proof fn law_commit_is_final(e0: ConsensusEngine, e1: ConsensusEngine, ev: EngineEvent, r: EngineOutput)
    requires
        e0@.step is Commit,
        event_step(e0, e1, ev, r),
    ensures
        e1@ == e0@,
        r.committed_block is None,
{
}

/// An event that commits a block leaves the engine at Commit.
pub proof fn law_commit_enters_commit_step(e0: ConsensusEngine, e1: ConsensusEngine, ev: EngineEvent, r: EngineOutput)
    requires
        event_step(e0, e1, ev, r),
        r.committed_block is Some,
    ensures
        e1@.step is Commit,
{
}

proof fn lemma_no_commit_from(
    engines: Seq<ConsensusEngine>,
    events: Seq<EngineEvent>,
    outputs: Seq<EngineOutput>,
    k: int,
    j: int,
)
    requires
        is_run(engines, events, outputs),
        0 <= k <= j < events.len(),
        engines[k]@.step is Commit,
    ensures
        outputs[j].committed_block is None,
    decreases j - k,
{
    assert(event_step(engines[k], engines[k + 1], events[k], outputs[k]));
    law_commit_is_final(engines[k], engines[k + 1], events[k], outputs[k]);
    if k < j {
        lemma_no_commit_from(engines, events, outputs, k + 1, j);
    }
}

/// One commit per height: in a run of the engine within a height (no new height started),
/// no event after the one that commits a block commits again, so two committed outputs never
/// carry different blocks.
pub proof fn law_one_commit_per_height(
    engines: Seq<ConsensusEngine>,
    events: Seq<EngineEvent>,
    outputs: Seq<EngineOutput>,
    i: int,
    j: int,
)
    requires
        is_run(engines, events, outputs),
        0 <= i < j < outputs.len(),
        outputs[i].committed_block is Some,
    ensures
        outputs[j].committed_block is None,
{
    assert(event_step(engines[i], engines[i + 1], events[i], outputs[i]));
    law_commit_enters_commit_step(engines[i], engines[i + 1], events[i], outputs[i]);
    lemma_no_commit_from(engines, events, outputs, i + 1, j);
}

} // verus!
