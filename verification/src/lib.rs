//! TRv1 chain logic: an EIP-1559 fee market, Tendermint-style BFT consensus,
//! tiered account storage with state-rent expiry, passive staking and
//! slashing rules, and the bookkeeping of the consensus network layer.

pub mod arith;
pub mod decimal;
pub mod fee_market;
pub mod primitives;
pub mod bft;
pub mod accounts;
pub mod net;
pub mod cli;
pub mod staking;
pub mod producer;
pub mod bft_adapter;
pub mod service;
