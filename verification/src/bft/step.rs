//! The steps of a consensus round and their order.

use vstd::prelude::*;
use std::cmp::Ordering;

verus! {

/// The step within a single consensus round.
#[derive(Debug, Clone, Copy, PartialEq, Eq, Hash, Structural)]
pub enum ConsensusStep {
    /// Waiting for the round to begin.
    NewRound,
    /// Waiting for the proposal of the round's leader.
    Propose,
    /// Collecting prevotes.
    Prevote,
    /// Collecting precommits.
    Precommit,
    /// A block was committed.
    Commit,
}

/// The position of a step in round order: NewRound < Propose < Prevote < Precommit < Commit.
pub open spec fn step_rank(s: ConsensusStep) -> int {
    match s {
        ConsensusStep::NewRound => 0,
        ConsensusStep::Propose => 1,
        ConsensusStep::Prevote => 2,
        ConsensusStep::Precommit => 3,
        ConsensusStep::Commit => 4,
    }
}

impl ConsensusStep {
    /// The position of the step in round order.
    pub fn rank(&self) -> (r: u8)
        ensures
            r == step_rank(*self),
    {
        match self {
            ConsensusStep::NewRound => 0,
            ConsensusStep::Propose => 1,
            ConsensusStep::Prevote => 2,
            ConsensusStep::Precommit => 3,
            ConsensusStep::Commit => 4,
        }
    }

    /// The step's display name.
    pub fn name(&self) -> (r: &'static str)
        ensures
            *self is NewRound ==> r@ == "NewRound"@,
            *self is Propose ==> r@ == "Propose"@,
            *self is Prevote ==> r@ == "Prevote"@,
            *self is Precommit ==> r@ == "Precommit"@,
            *self is Commit ==> r@ == "Commit"@,
    {
        match self {
            ConsensusStep::NewRound => "NewRound",
            ConsensusStep::Propose => "Propose",
            ConsensusStep::Prevote => "Prevote",
            ConsensusStep::Precommit => "Precommit",
            ConsensusStep::Commit => "Commit",
        }
    }
}

impl PartialOrd for ConsensusStep {
    fn partial_cmp(&self, other: &Self) -> (r: Option<Ordering>) {
        let a = self.rank();
        let b = other.rank();
        if a < b {
            Some(Ordering::Less)
        } else if a > b {
            Some(Ordering::Greater)
        } else {
            Some(Ordering::Equal)
        }
    }
}

impl vstd::std_specs::cmp::PartialOrdSpecImpl for ConsensusStep {
    open spec fn obeys_partial_cmp_spec() -> bool {
        true
    }

    open spec fn partial_cmp_spec(&self, other: &Self) -> Option<Ordering> {
        if step_rank(*self) < step_rank(*other) {
            Some(Ordering::Less)
        } else if step_rank(*self) > step_rank(*other) {
            Some(Ordering::Greater)
        } else {
            Some(Ordering::Equal)
        }
    }
}

} // verus!
