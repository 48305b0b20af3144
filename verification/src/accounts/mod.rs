//! Tiered account storage: rent expiry and archival to cold storage, the hot-tier LRU/LFU
//! cache, and tier configuration and statistics.

pub mod account;
pub mod rent;
pub mod cold_storage;
pub mod paths;
pub mod archive;
pub mod tiered;
pub mod cache;
pub mod adapter;
