//! The chain store capability and the structured results it reports.

use crate::messages::BlockRoot;
use vstd::prelude::*;

verus! {

/// Cause attached to the first block of a segment that failed to import.
/// Blocks before it in iteration order were already durably imported; blocks
/// after it were not attempted.
#[derive(Clone, Debug, PartialEq, Eq)]
pub enum BlockError {
    /// The block's parent is not known to the chain store.
    ParentUnknown {
        /// Parent reference the store could not resolve.
        parent_root: BlockRoot,
    },
    /// The block was already imported, e.g. through another sync path.
    BlockIsAlreadyKnown,
    /// The block's slot lies ahead of the local slot clock.
    FutureSlot {
        /// Slot the local clock reads now.
        present_slot: u64,
        /// Slot the block claims.
        block_slot: u64,
    },
    /// The block sits at or below the finalized slot; importing it would
    /// revert finality.
    WouldRevertFinalizedSlot {
        /// Slot the block claims.
        block_slot: u64,
        /// The finalized slot.
        finalized_slot: u64,
    },
    /// The block is the genesis block, expected during bootstrap.
    GenesisBlock,
    /// A fault of the local backend, never attributable to a peer.
    BeaconChainError {
        /// Rendering of the backend's error, supplied by the store.
        detail: String,
    },
    /// Any other validity violation: the peer sent an invalid block.
    InvalidBlock {
        /// Rendering of the concrete violation, supplied by the store.
        reason: String,
    },
}

/// Report of a segment import. The import stops at the first failure and
/// says how many blocks were durably applied before it.
#[derive(Clone, Debug, PartialEq, Eq)]
pub enum ChainSegmentResult {
    /// Every block of the segment was processed.
    Successful {
        /// Number of blocks durably imported.
        imported_blocks: usize,
    },
    /// Import stopped at a failing block.
    Failed {
        /// Number of blocks durably imported before the failure.
        imported_blocks: usize,
        /// Cause attached to the first failing block.
        error: BlockError,
    },
}

/// Error of a fork-choice recomputation; opaque to this component, which
/// reports it and never escalates it.
#[derive(Clone, Copy, Debug, PartialEq, Eq, Structural)]
pub struct ForkChoiceError;

/// Narrow capability onto the externally owned chain store. Any storage or
/// consensus engine satisfying these two operations can back the pipeline,
/// test doubles included. The store is out of scope here: nothing is assumed
/// of its reports, and every guarantee of this crate holds whatever it
/// answers.
pub trait ChainStore<B> {
    /// Imports an ordered segment of blocks, stopping at the first failure,
    /// and reports how many were durably applied.
    fn process_chain_segment(&mut self, blocks: Vec<B>) -> ChainSegmentResult;

    /// Recomputes the canonical head from everything imported so far.
    fn fork_choice(&mut self) -> Result<(), ForkChoiceError>;
}

/// The count of durably imported blocks that a report carries, whether the
/// attempt succeeded or failed.
pub open spec fn imported_blocks_of(result: ChainSegmentResult) -> usize {
    match result {
        ChainSegmentResult::Successful { imported_blocks } => imported_blocks,
        ChainSegmentResult::Failed { imported_blocks, .. } => imported_blocks,
    }
}

} // verus!
