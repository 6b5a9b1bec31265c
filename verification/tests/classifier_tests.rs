//! Classifier behaviour over every defined cause, and the severity decision
//! for future-slot diagnostics.

use chain_segment::{
    future_slot_exceeds_tolerance, handle_failed_chain_segment, BlockError, BlockRoot,
};

#[test]
fn classifier_maps_already_known_to_ok() {
    assert_eq!(handle_failed_chain_segment(BlockError::BlockIsAlreadyKnown), Ok(()));
}

#[test]
fn classifier_maps_would_revert_finalized_to_ok() {
    let error = BlockError::WouldRevertFinalizedSlot { block_slot: 5, finalized_slot: 10 };
    assert_eq!(handle_failed_chain_segment(error), Ok(()));
}

#[test]
fn classifier_maps_genesis_to_ok() {
    assert_eq!(handle_failed_chain_segment(BlockError::GenesisBlock), Ok(()));
}

#[test]
fn classifier_maps_unknown_parent_to_nonempty_err() {
    let error = BlockError::ParentUnknown { parent_root: BlockRoot(42) };
    let reason = handle_failed_chain_segment(error).unwrap_err();
    assert!(!reason.is_empty());
    assert_eq!(reason, "Block has an unknown parent: 42");
}

#[test]
fn unknown_parent_reason_renders_the_root_in_decimal() {
    let reason = |root: u64| {
        handle_failed_chain_segment(BlockError::ParentUnknown { parent_root: BlockRoot(root) })
            .unwrap_err()
    };
    assert_eq!(reason(0), "Block has an unknown parent: 0");
    assert_eq!(reason(7), "Block has an unknown parent: 7");
    assert_eq!(reason(10), "Block has an unknown parent: 10");
    assert_eq!(reason(90125), "Block has an unknown parent: 90125");
    assert_eq!(
        reason(u64::MAX),
        "Block has an unknown parent: 18446744073709551615"
    );
}

#[test]
fn classifier_maps_future_slot_to_nonempty_err() {
    let error = BlockError::FutureSlot { present_slot: 7, block_slot: 9 };
    let reason = handle_failed_chain_segment(error).unwrap_err();
    assert!(!reason.is_empty());
    assert_eq!(reason, "Block slot is higher than the current slot");
}

#[test]
fn classifier_maps_internal_fault_to_nonempty_err() {
    let error = BlockError::BeaconChainError { detail: String::from("database write failed") };
    let reason = handle_failed_chain_segment(error).unwrap_err();
    assert!(!reason.is_empty());
    assert_eq!(reason, "Internal error whilst processing block: database write failed");
}

#[test]
fn classifier_maps_invalid_block_to_nonempty_err() {
    let error = BlockError::InvalidBlock { reason: String::from("proposal signature invalid") };
    let reason = handle_failed_chain_segment(error).unwrap_err();
    assert!(!reason.is_empty());
    assert_eq!(reason, "Peer sent invalid block: proposal signature invalid");
}

#[test]
fn classifier_reason_is_nonempty_even_without_detail() {
    let error = BlockError::BeaconChainError { detail: String::new() };
    let reason = handle_failed_chain_segment(error).unwrap_err();
    assert!(!reason.is_empty());
    let error = BlockError::InvalidBlock { reason: String::new() };
    let reason = handle_failed_chain_segment(error).unwrap_err();
    assert!(!reason.is_empty());
}

#[test]
fn future_slot_tolerance_boundary() {
    // Within the tolerance window of one slot: mild clock skew.
    assert!(!future_slot_exceeds_tolerance(10, 10));
    assert!(!future_slot_exceeds_tolerance(10, 11));
    // Beyond it: suspect peer or bad local clock.
    assert!(future_slot_exceeds_tolerance(10, 12));
    assert!(future_slot_exceeds_tolerance(10, 1000));
    // A block behind the clock never exceeds the window.
    assert!(!future_slot_exceeds_tolerance(10, 5));
    // No overflow at the top of the slot range.
    assert!(future_slot_exceeds_tolerance(0, u64::MAX));
    assert!(!future_slot_exceeds_tolerance(u64::MAX, u64::MAX));
}
