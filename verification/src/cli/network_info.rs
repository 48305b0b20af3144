//! The network-information commands.

use vstd::prelude::*;

verus! {

/// What the network-information command shows.
#[derive(Debug, Clone, Copy, PartialEq, Eq, Structural)]
pub enum NetworkInfoCliCommand {
    /// Heights, epoch and stake of the network.
    Info,
    /// The current fee market.
    FeeInfo,
    /// The inflation schedule.
    InflationInfo,
    /// The current epoch.
    EpochInfo,
}

} // verus!
