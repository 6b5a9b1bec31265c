//! Identifiers and outcome notifications exchanged with the sync manager.

use vstd::prelude::*;

verus! {

/// Opaque token identifying the network peer last contacted for a parent
/// lookup; carried through unchanged so the requester can attribute blame.
#[derive(Clone, Copy, Debug, PartialEq, Eq, Structural)]
pub struct PeerId(pub u64);

/// Opaque identifier of a block: here, the root of the originally orphaned
/// block whose ancestry a parent lookup set out to recover.
#[derive(Clone, Copy, Debug, PartialEq, Eq, Structural)]
pub struct BlockRoot(pub u64);

/// Logical lane of range synchronization that a batch belongs to.
pub type ChainId = u64;

/// Epoch targeted by a range-sync batch.
pub type Epoch = u64;

/// Id associated to a block processing request, either a batch or a single block.
#[derive(Clone, Copy, Debug, PartialEq, Eq, Structural)]
pub enum ProcessId {
    /// Processing Id of a range syncing batch. Its blocks arrive in ascending
    /// slot order and are imported as given.
    RangeBatchId(ChainId, Epoch),
    /// Processing Id of the parent lookup of a block. Its blocks arrive newest
    /// first and must be imported in reverse, ancestors before descendants.
    ParentLookup(PeerId, BlockRoot),
}

/// Result of processing a range-sync batch. The boolean says whether any
/// block of the attempt was durably imported.
#[derive(Clone, Copy, Debug, PartialEq, Eq, Structural)]
pub enum BatchProcessResult {
    /// The attempt succeeded (possibly as a benign no-op).
    Success(bool),
    /// The attempt failed; retry and downvote policy belong to the requester.
    Failed(bool),
}

/// Outcome notification sent back to the requesting subsystem. Exactly one is
/// owed per processing request.
#[derive(Clone, Copy, Debug, PartialEq, Eq, Structural)]
pub enum SyncMessage {
    /// A range-sync batch was processed.
    BatchProcessed {
        /// Lane the batch belongs to.
        chain_id: ChainId,
        /// Epoch the batch targets.
        epoch: Epoch,
        /// Outcome of the attempt.
        result: BatchProcessResult,
    },
    /// A parent lookup ran to completion.
    ParentLookupCompleted,
    /// A parent lookup failed; the requester should penalize `peer_id`.
    ParentLookupFailed {
        /// Peer that supplied the failing ancestry.
        peer_id: PeerId,
        /// Root of the originally orphaned block.
        chain_head: BlockRoot,
    },
}

} // verus!
