//! The consensus network: wire messages and framing, peer bookkeeping, and the block catch-up
//! protocol's decisions.

pub mod error;
pub mod message;
pub mod config;
pub mod peers;
pub mod sync;
