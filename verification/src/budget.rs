//! Budget enforcement vocabulary.
//!
//! The cost tracker and limiter compute with monetary amounts and live in
//! the unverified budget layer; the closed sets of alert kinds and
//! enforcement actions they produce are plain values and live here.

use vstd::prelude::*;

verus! {

/// The severity of a budget alert.
#[derive(Debug, Clone, Copy, PartialEq, Eq, Structural)]
pub enum AlertType {
    /// Three quarters of the budget consumed.
    Warning,
    /// Nine tenths consumed — model degraded.
    Critical,
    /// Fully consumed — all tasks killed.
    Exhausted,
}

/// Enforcement action determined by the budget limiter.
#[derive(Debug, Clone, PartialEq, Eq)]
pub enum BudgetAction {
    /// Proceed normally.
    Allow,
    /// Proceed but downgrade the model to a cheaper option.
    Degrade { reason: String },
    /// Alert sent — proceed normally.
    Alert { message: String },
    /// Budget exhausted — block execution.
    Kill { reason: String },
}

} // verus!
