//! The process-wide scheduler singleton, as a verified once-cell model.
//!
//! The bridge constructs its multi-threaded asynchronous scheduler at most
//! once, on first need. The outcome of that one construction — ready, or
//! failed with a message — is cached and replayed to every later call:
//! a failed construction is never retried, and every dependent operation
//! observes the same outcome. The shell keeps one value of this type behind
//! its process-wide once-initialization primitive.

use vstd::prelude::*;

use crate::start::StepOutcome;

verus! {

/// The cached outcome of the scheduler's one-time construction.
pub struct RuntimeCell {
    outcome: Option<StepOutcome>,
}

/// The cell after an initialization outcome is offered to it: an empty cell
/// caches the outcome, a filled cell ignores it.
pub closed spec fn offer_outcome(cell: RuntimeCell, outcome: StepOutcome) -> RuntimeCell {
    if cell.cached() is None {
        RuntimeCell { outcome: Some(outcome) }
    } else {
        cell
    }
}

impl RuntimeCell {
    /// The outcome cached so far, if any.
    pub closed spec fn cached(self) -> Option<StepOutcome> {
        self.outcome
    }

    /// Whether the cached outcome says the scheduler is usable.
    pub open spec fn is_ready(self) -> bool {
        self.cached() matches Some(outcome) && outcome is Success
    }

    /// A cell in which no construction has been attempted yet.
    pub fn new() -> (cell: RuntimeCell)
        ensures
            cell.cached() is None,
    {
        RuntimeCell { outcome: None }
    }

    /// Offers the outcome of a construction attempt. Only the first offer
    /// is kept: a later outcome never replaces the cached one, so a failure
    /// is replayed, not retried. Returns whether the scheduler is usable.
    pub fn offer(&mut self, outcome: StepOutcome) -> (ready: bool)
        ensures
            *final(self) == offer_outcome(*old(self), outcome),
            old(self).cached() is None ==> final(self).cached() == Some(outcome),
            old(self).cached() is Some ==> *final(self) == *old(self),
            ready == final(self).is_ready(),
    {
        if self.outcome.is_none() {
            self.outcome = Some(outcome);
        }
        match &self.outcome {
            Some(StepOutcome::Success) => true,
            _ => false,
        }
    }
}

/// Law: the scheduler is constructed exactly once. Whatever a second
/// construction attempt reports, the cell keeps the outcome of the first:
/// offering twice is the same as offering once.
pub proof fn lemma_first_outcome_wins(
    cell: RuntimeCell,
    first: StepOutcome,
    second: StepOutcome,
)
    ensures
        offer_outcome(offer_outcome(cell, first), second) == offer_outcome(cell, first),
{
}

} // verus!
