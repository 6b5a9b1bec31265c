//! Entry point: interprets a processing request's origin, selects the import
//! order, drives the processor, and notifies the requester of the outcome.

use crate::chain::ChainStore;
use crate::messages::{BatchProcessResult, ProcessId, SyncMessage};
use crate::notify::send_sync_message;
use crate::processor::process_blocks;
use vstd::prelude::*;

verus! {

/// Reverses a sequence of blocks: element `i` of the result is element
/// `len - 1 - i` of the input.
fn reverse_blocks<B>(blocks: Vec<B>) -> (reversed: Vec<B>)
    ensures
        reversed@.len() == blocks@.len(),
        forall|i: int|
            0 <= i < blocks@.len() ==> reversed@[i] == blocks@[blocks@.len() - 1 - i],
{
    let ghost input_seq = blocks@;
    let mut rest = blocks;
    let mut reversed: Vec<B> = Vec::new();
    while rest.len() > 0
        invariant
            rest@.len() + reversed@.len() == input_seq.len(),
            rest@ == input_seq.subrange(0, rest@.len() as int),
            forall|i: int|
                0 <= i < reversed@.len() ==> reversed@[i] == input_seq[input_seq.len() - 1 - i],
        decreases rest@.len(),
    {
        let block = rest.pop().unwrap();
        reversed.push(block);
        proof {
            assert(rest@ =~= input_seq.subrange(0, rest@.len() as int));
        }
    }
    reversed
}

/// Puts a request's blocks into the order the import must see: as given
/// (ascending slot) for a range batch; strictly reversed for a parent
/// lookup, whose blocks arrive newest first while ancestors must be imported
/// before descendants.
pub fn ordered_for_import<B>(process_id: &ProcessId, blocks: Vec<B>) -> (ordered: Vec<B>)
    ensures
        ordered@.len() == blocks@.len(),
        process_id is RangeBatchId ==> ordered@ == blocks@,
        process_id is ParentLookup ==> forall|i: int|
            0 <= i < blocks@.len() ==> ordered@[i] == blocks@[blocks@.len() - 1 - i],
{
    match process_id {
        ProcessId::RangeBatchId(..) => blocks,
        ProcessId::ParentLookup(..) => reverse_blocks(blocks),
    }
}

/// The one outcome notification a request is owed, as a function of its
/// origin, the count of durably imported blocks, and whether the classified
/// status of the attempt was a success.
pub open spec fn outcome_message_spec(
    process_id: ProcessId,
    imported_blocks: usize,
    status_ok: bool,
) -> SyncMessage {
    match process_id {
        ProcessId::RangeBatchId(chain_id, epoch) => SyncMessage::BatchProcessed {
            chain_id,
            epoch,
            result: if status_ok {
                BatchProcessResult::Success(imported_blocks > 0)
            } else {
                BatchProcessResult::Failed(imported_blocks > 0)
            },
        },
        ProcessId::ParentLookup(peer_id, chain_head) => if status_ok {
            SyncMessage::ParentLookupCompleted
        } else {
            SyncMessage::ParentLookupFailed { peer_id, chain_head }
        },
    }
}

/// Maps the processor's report to the origin-specific outcome. For a range
/// batch the boolean flag is whether any block was imported, on the success
/// and on the failure path alike; a failing parent lookup carries the peer
/// and chain head the requester needs for downvoting.
pub fn outcome_message(process_id: ProcessId, imported_blocks: usize, status_ok: bool) -> (msg:
    SyncMessage)
    ensures
        msg == outcome_message_spec(process_id, imported_blocks, status_ok),
{
    match process_id {
        ProcessId::RangeBatchId(chain_id, epoch) => {
            let result = if status_ok {
                BatchProcessResult::Success(imported_blocks > 0)
            } else {
                BatchProcessResult::Failed(imported_blocks > 0)
            };
            SyncMessage::BatchProcessed { chain_id, epoch, result }
        },
        ProcessId::ParentLookup(peer_id, chain_head) => {
            if status_ok {
                SyncMessage::ParentLookupCompleted
            } else {
                SyncMessage::ParentLookupFailed { peer_id, chain_head }
            }
        },
    }
}

/// Handles a chain-segment processing request from start to finish: orders
/// the blocks for import, drives the processor (which runs fork choice when
/// warranted), and sends exactly one outcome notification. The send is best
/// effort: a departed receiver is tolerated, never an error and never a
/// panic.
pub fn handle_chain_segment<B, C: ChainStore<B>>(
    chain: &mut C,
    process_id: ProcessId,
    downloaded_blocks: Vec<B>,
    sync_send: &tokio::sync::mpsc::UnboundedSender<SyncMessage>,
) {
    let ordered_blocks = ordered_for_import(&process_id, downloaded_blocks);
    let (imported_blocks, result) = process_blocks(chain, ordered_blocks);
    let status_ok = result.is_ok();
    let msg = outcome_message(process_id, imported_blocks, status_ok);
    let _delivered = send_sync_message(sync_send, msg);
}

} // verus!
