//! Classifies a block-import failure into an actionable status.
//!
//! Benign causes (duplicate, pre-finality, genesis) map to success; every
//! other cause maps to failure with a reason naming the cause — the unknown
//! parent's root, the backend fault's detail, the concrete violation. The
//! classifier never retries and never panics; retry and downvote decisions
//! belong to the requester.

use crate::chain::BlockError;
use vstd::prelude::*;
use vstd::string::StringExecFns;

verus! {

/// Number of slots a block may sit ahead of the local clock before the
/// future-slot diagnostic turns from mild clock skew into a suspected
/// misbehaving peer or a bad local clock. Diagnosis only: it never changes
/// the classified status.
pub const FUTURE_SLOT_TOLERANCE: u64 = 1;

/// The character for one decimal digit.
pub open spec fn decimal_digit(d: int) -> char {
    if d == 0 {
        '0'
    } else if d == 1 {
        '1'
    } else if d == 2 {
        '2'
    } else if d == 3 {
        '3'
    } else if d == 4 {
        '4'
    } else if d == 5 {
        '5'
    } else if d == 6 {
        '6'
    } else if d == 7 {
        '7'
    } else if d == 8 {
        '8'
    } else {
        '9'
    }
}

/// The usual decimal rendering of a non-negative number: most significant
/// digit first, no leading zeros, `0` itself rendered as one digit.
pub open spec fn decimal_of(n: int) -> Seq<char>
    recommends
        n >= 0,
    decreases n,
{
    if n < 10 {
        seq![decimal_digit(n)]
    } else {
        decimal_of(n / 10).push(decimal_digit(n % 10))
    }
}

/// One decimal digit as a string slice.
fn digit_str(d: u64) -> (s: &'static str)
    requires
        d < 10,
    ensures
        s@ == seq![decimal_digit(d as int)],
{
    proof {
        reveal_strlit("0");
        reveal_strlit("1");
        reveal_strlit("2");
        reveal_strlit("3");
        reveal_strlit("4");
        reveal_strlit("5");
        reveal_strlit("6");
        reveal_strlit("7");
        reveal_strlit("8");
        reveal_strlit("9");
    }
    let s: &'static str = if d == 0 {
        "0"
    } else if d == 1 {
        "1"
    } else if d == 2 {
        "2"
    } else if d == 3 {
        "3"
    } else if d == 4 {
        "4"
    } else if d == 5 {
        "5"
    } else if d == 6 {
        "6"
    } else if d == 7 {
        "7"
    } else if d == 8 {
        "8"
    } else {
        "9"
    };
    proof {
        assert(s@ =~= seq![decimal_digit(d as int)]);
    }
    s
}

/// Appends the decimal rendering of `n` to `s`.
fn append_decimal(s: &mut String, n: u64)
    ensures
        final(s)@ == old(s)@ + decimal_of(n as int),
    decreases n,
{
    if n >= 10 {
        append_decimal(s, n / 10);
    }
    let d = digit_str(n % 10);
    s.append(d);
    proof {
        assert(s@ =~= old(s)@ + decimal_of(n as int));
    }
}

/// Whether a cause classifies as benign, i.e. the attempt counts as a
/// success: a duplicate block, a block at or below finality, or genesis.
pub open spec fn classified_ok(error: BlockError) -> bool {
    match error {
        BlockError::ParentUnknown { .. } => false,
        BlockError::BlockIsAlreadyKnown => true,
        BlockError::FutureSlot { .. } => false,
        BlockError::WouldRevertFinalizedSlot { .. } => true,
        BlockError::GenesisBlock => true,
        BlockError::BeaconChainError { .. } => false,
        BlockError::InvalidBlock { .. } => false,
    }
}

/// The reason attached to a cause that classifies as a failure; empty for
/// benign causes, to which no reason is ever attached.
pub open spec fn classified_reason(error: BlockError) -> Seq<char> {
    match error {
        BlockError::ParentUnknown { parent_root } => "Block has an unknown parent: "@ + decimal_of(
            parent_root.0 as int,
        ),
        BlockError::BlockIsAlreadyKnown => Seq::<char>::empty(),
        BlockError::FutureSlot { .. } => "Block slot is higher than the current slot"@,
        BlockError::WouldRevertFinalizedSlot { .. } => Seq::<char>::empty(),
        BlockError::GenesisBlock => Seq::<char>::empty(),
        BlockError::BeaconChainError { detail } => "Internal error whilst processing block: "@
            + detail@,
        BlockError::InvalidBlock { reason } => "Peer sent invalid block: "@ + reason@,
    }
}

/// Maps a segment-import failure cause to the status surfaced to the caller.
///
/// An unknown parent is reported, naming the unresolved root, so the caller
/// can retry as a parent lookup; a duplicate, a pre-finality block and
/// genesis are harmless no-ops; a future slot is reported whatever the
/// severity of the clock skew; a backend fault is surfaced as an internal
/// error carrying the backend's detail, never attributed to a peer; every
/// remaining validity violation is a protocol violation by the peer, and the
/// reason names the concrete violation.
pub fn handle_failed_chain_segment(error: BlockError) -> (r: Result<(), String>)
    ensures
        r is Ok <==> classified_ok(error),
        r matches Err(reason) ==> reason@ == classified_reason(error) && reason@.len() > 0,
{
    match error {
        BlockError::ParentUnknown { parent_root } => {
            proof {
                reveal_strlit("Block has an unknown parent: ");
            }
            let mut reason = String::from_str("Block has an unknown parent: ");
            append_decimal(&mut reason, parent_root.0);
            Err(reason)
        },
        BlockError::BlockIsAlreadyKnown => Ok(()),
        BlockError::FutureSlot { present_slot: _, block_slot: _ } => {
            proof {
                reveal_strlit("Block slot is higher than the current slot");
            }
            Err(String::from_str("Block slot is higher than the current slot"))
        },
        BlockError::WouldRevertFinalizedSlot { .. } => Ok(()),
        BlockError::GenesisBlock => Ok(()),
        BlockError::BeaconChainError { detail } => {
            proof {
                reveal_strlit("Internal error whilst processing block: ");
            }
            let mut reason = String::from_str("Internal error whilst processing block: ");
            reason.append(detail.as_str());
            Err(reason)
        },
        BlockError::InvalidBlock { reason: cause } => {
            proof {
                reveal_strlit("Peer sent invalid block: ");
            }
            let mut reason = String::from_str("Peer sent invalid block: ");
            reason.append(cause.as_str());
            Err(reason)
        },
    }
}

/// Decides the severity of the future-slot diagnostic: true when the block
/// lies beyond the tolerance window (suspect peer or bad local clock), false
/// for mild clock skew. The classified status is the same either way.
pub fn future_slot_exceeds_tolerance(present_slot: u64, block_slot: u64) -> (beyond: bool)
    ensures
        beyond == (block_slot > present_slot + FUTURE_SLOT_TOLERANCE),
{
    block_slot > present_slot && block_slot - present_slot > FUTURE_SLOT_TOLERANCE
}

/// Classification law: the mapping is total over the defined causes; exactly
/// the benign causes (duplicate, pre-finality, genesis) classify as success,
/// and every failing cause carries a non-empty reason.
pub proof fn lemma_classification_total(error: BlockError)
    ensures
        classified_ok(error) <==> (error is BlockIsAlreadyKnown || error is WouldRevertFinalizedSlot
            || error is GenesisBlock),
        !classified_ok(error) ==> classified_reason(error).len() > 0,
{
    reveal_strlit("Block has an unknown parent: ");
    reveal_strlit("Block slot is higher than the current slot");
    reveal_strlit("Internal error whilst processing block: ");
    reveal_strlit("Peer sent invalid block: ");
}

} // verus!
