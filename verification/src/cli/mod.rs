//! The values the command line accepts and lists: proposal types, vote choices, proposal
//! statuses, lock periods and the network-information commands.

pub mod text;
pub mod governance;
pub mod passive_stake;
pub mod network_info;
