//! Verified core of a chain-segment ingestion pipeline for a consensus node.
//!
//! An ordered batch of candidate blocks arrives either from range
//! synchronization or from a parent-lookup recovery walk. The dispatcher
//! selects the import order, the processor drives the chain store's segment
//! import and triggers fork choice when warranted, the classifier turns the
//! first failing block's cause into an actionable status, and the requester
//! is notified of the outcome over a best-effort channel.

pub mod chain;
pub mod classifier;
pub mod dispatcher;
pub mod messages;
pub mod notify;
pub mod processor;

pub use chain::{imported_blocks_of, BlockError, ChainSegmentResult, ChainStore, ForkChoiceError};
pub use classifier::{
    classified_ok, classified_reason, future_slot_exceeds_tolerance, handle_failed_chain_segment,
    FUTURE_SLOT_TOLERANCE,
};
pub use dispatcher::{handle_chain_segment, ordered_for_import, outcome_message};
pub use messages::{BatchProcessResult, BlockRoot, ChainId, Epoch, PeerId, ProcessId, SyncMessage};
pub use processor::{
    fork_choice_due, fork_choice_warranted, process_blocks, process_segment_outcome,
    run_fork_choice, segment_status_ok,
};
