//! An EIP-1559-style dynamic fee market: a base fee per compute unit that
//! adjusts every block with utilisation, plus a priority fee (tip).

pub mod calculator;
pub mod config;
pub mod error;
pub mod state;
pub mod laws;
