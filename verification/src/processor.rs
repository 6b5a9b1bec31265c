//! Drives the chain store's segment import and decides when fork choice runs.

use crate::chain::{imported_blocks_of, ChainSegmentResult, ChainStore};
use crate::classifier::{classified_ok, classified_reason, handle_failed_chain_segment};
use vstd::prelude::*;

verus! {

/// Fork-choice law: a recomputation of the canonical head is warranted if
/// and only if the attempt durably imported at least one block, independent
/// of whether the attempt as a whole succeeded or failed. A chain must always
/// recompute its head after any state-mutating import.
pub open spec fn fork_choice_warranted(result: ChainSegmentResult) -> bool {
    imported_blocks_of(result) > 0
}

/// Decides whether this segment attempt warrants a fork-choice
/// recomputation.
pub fn fork_choice_due(result: &ChainSegmentResult) -> (due: bool)
    ensures
        due == fork_choice_warranted(*result),
{
    match result {
        ChainSegmentResult::Successful { imported_blocks } => *imported_blocks > 0,
        ChainSegmentResult::Failed { imported_blocks, .. } => *imported_blocks > 0,
    }
}

/// Fork-choice independence law: whether fork choice is warranted depends on
/// the count of durably imported blocks alone. Two reports with the same
/// count — one successful, one failed, whatever the cause — warrant it alike.
pub proof fn lemma_fork_choice_independent_of_status(a: ChainSegmentResult, b: ChainSegmentResult)
    requires
        imported_blocks_of(a) == imported_blocks_of(b),
    ensures
        fork_choice_warranted(a) == fork_choice_warranted(b),
{
}

/// Whether a report counts as an overall success: the whole segment was
/// processed, or import stopped on a cause that classifies as benign.
pub open spec fn segment_status_ok(result: ChainSegmentResult) -> bool {
    match result {
        ChainSegmentResult::Successful { .. } => true,
        ChainSegmentResult::Failed { error, .. } => classified_ok(error),
    }
}

/// Interprets the chain store's report: hands back exactly the count of
/// durably imported blocks the report carries, and the classified status of
/// the attempt. The count is the report's own; it is bounded by the segment
/// length whenever the report is.
pub fn process_segment_outcome(result: ChainSegmentResult) -> (r: (usize, Result<(), String>))
    ensures
        r.0 == imported_blocks_of(result),
        r.1 is Ok <==> segment_status_ok(result),
        r.1 matches Err(reason) ==> (result matches ChainSegmentResult::Failed { error, .. }
            && reason@ == classified_reason(error) && reason@.len() > 0),
{
    match result {
        ChainSegmentResult::Successful { imported_blocks } => (imported_blocks, Ok(())),
        ChainSegmentResult::Failed { imported_blocks, error } => (
            imported_blocks,
            handle_failed_chain_segment(error),
        ),
    }
}

/// Invokes the fork-choice recomputation once. Failure is reported by the
/// store and swallowed here: it never propagates into the outcome and never
/// blocks notification of the requester, since fork choice can be retried on
/// the next successful import.
pub fn run_fork_choice<B, C: ChainStore<B>>(chain: &mut C) {
    match chain.fork_choice() {
        Ok(()) => {},
        Err(_) => {},
    }
}

/// Processes an ordered segment of blocks: calls the chain store's import
/// exactly once with the full sequence, runs fork choice when the report
/// warrants it, and returns the count of durably imported blocks with the
/// classified status.
///
/// The report is the store's to make, so the postcondition says what holds
/// whatever it answered: the return value is the faithful interpretation of
/// some report — the count is that report's own, the status is its classified
/// status, and a failure carries the classifier's reason for the report's
/// non-benign cause. How each single report is interpreted is fixed by
/// `fork_choice_due` and `process_segment_outcome`.
pub fn process_blocks<B, C: ChainStore<B>>(chain: &mut C, downloaded_blocks: Vec<B>) -> (r: (
    usize,
    Result<(), String>,
))
    ensures
        r.1 matches Err(reason) ==> reason@.len() > 0,
        exists|report: ChainSegmentResult|
            r.0 == #[trigger] imported_blocks_of(report) && (r.1 is Ok <==> segment_status_ok(
                report,
            )) && (r.1 matches Err(reason) ==> report matches ChainSegmentResult::Failed {
                error,
                ..
            } && !classified_ok(error) && reason@ == classified_reason(error)),
{
    let result = chain.process_chain_segment(downloaded_blocks);
    let ghost report = result;
    let due = fork_choice_due(&result);
    let outcome = process_segment_outcome(result);
    if due {
        run_fork_choice(chain);
    }
    proof {
        assert(outcome.0 == imported_blocks_of(report) && (outcome.1 is Ok <==> segment_status_ok(
            report,
        )) && (outcome.1 matches Err(reason) ==> report matches ChainSegmentResult::Failed {
            error,
            ..
        } && !classified_ok(error) && reason@ == classified_reason(error)));
    }
    outcome
}

} // verus!
