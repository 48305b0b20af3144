//! Tendermint-style BFT consensus: a stake-weighted validator set, proposer
//! rotation, double-sign evidence, per-step timeouts, and the
//! propose → prevote → precommit → commit state machine.

pub mod validator_set;
pub mod proposer;
pub mod step;
pub mod types;
pub mod config;
pub mod timeout;
pub mod evidence;
pub mod votes;
pub mod engine;
pub mod laws;
pub mod tally_laws;
pub mod accountability;
pub mod finality;
