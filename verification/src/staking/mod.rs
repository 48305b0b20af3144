//! Staking rules: passive stake rewards and locks, and slashing and jailing of validators.

pub mod passive;
pub mod slashing;
