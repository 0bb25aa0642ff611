//! Aggregation of per-image outcomes for a batch run.
//!
//! Each image in a directory is an independent unit of work: one failure
//! must not abort or corrupt its siblings. The orchestrator collects one
//! `Result` per image and reduces them here to an aggregate outcome.

use vstd::prelude::*;

use crate::geometry::CropError;

verus! {

/// How many of a batch's units of work succeeded.
pub open spec fn count_ok(outcomes: Seq<Result<(), CropError>>) -> int
    decreases outcomes.len(),
{
    if outcomes.len() == 0 {
        0
    } else {
        count_ok(outcomes.drop_last()) + if outcomes.last() is Ok { 1int } else { 0int }
    }
}

/// The aggregate outcome of one batch run.
#[derive(Clone, Copy, Debug, PartialEq, Eq, Structural)]
pub struct BatchSummary {
    pub succeeded: usize,
    pub failed: usize,
}

/// Reduces the per-image outcomes of one batch to success and failure counts.
pub fn summarize_outcomes(outcomes: &Vec<Result<(), CropError>>) -> (s: BatchSummary)
    ensures
        s.succeeded == count_ok(outcomes@),
        s.succeeded + s.failed == outcomes@.len(),
{
    let mut succeeded: usize = 0;
    let mut failed: usize = 0;
    let mut i: usize = 0;
    while i < outcomes.len()
        invariant
            i <= outcomes@.len(),
            succeeded == count_ok(outcomes@.take(i as int)),
            succeeded + failed == i,
        decreases outcomes@.len() - i,
    {
        proof {
            assert(outcomes@.take(i + 1).drop_last() =~= outcomes@.take(i as int));
            assert(outcomes@.take(i + 1).last() == outcomes@[i as int]);
        }
        if outcomes[i].is_ok() {
            succeeded = succeeded + 1;
        } else {
            failed = failed + 1;
        }
        i = i + 1;
    }
    proof {
        assert(outcomes@.take(outcomes@.len() as int) =~= outcomes@);
    }
    BatchSummary { succeeded, failed }
}

/// A batch run counts as successful exactly when no unit of work failed.
pub fn batch_succeeded(summary: &BatchSummary) -> (b: bool)
    ensures
        b <==> summary.failed == 0,
{
    summary.failed == 0
}

} // verus!
