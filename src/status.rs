//! Whether a child-chain block may be built upon.
use vstd::prelude::*;

verus! {

/// Local import status of a child-chain block.
#[derive(Clone, Copy, Debug, PartialEq, Eq, Structural)]
pub enum BlockStatus {
    /// Being imported; its state is not there yet.
    Queued,
    /// Imported, with its state at hand.
    InChainWithState,
    /// Imported, but its state was discarded.
    InChainPruned,
    /// Flagged invalid.
    KnownBad,
    /// Never seen here.
    Unknown,
}

/// A block may be built upon only when its status was read and says its state is at hand;
/// `None` stands for a status query that failed.
pub open spec fn buildable(status: Option<BlockStatus>) -> bool {
    status == Some(BlockStatus::InChainWithState)
}

/// Decides from the outcome of a status query whether a candidate may be built on the block.
pub fn check_block_status(status: Option<BlockStatus>) -> (r: bool)
    ensures
        r == buildable(status),
{
    match status {
        Some(BlockStatus::InChainWithState) => true,
        Some(BlockStatus::Queued) => false,
        Some(BlockStatus::InChainPruned) => false,
        Some(BlockStatus::KnownBad) => false,
        Some(BlockStatus::Unknown) => false,
        None => false,
    }
}

} // verus!
