//! Session summarization policy — when to fold old history into a summary.

use vstd::prelude::*;

verus! {

/// Policy for when to auto-summarize a session.
#[derive(Debug, Clone)]
pub struct SummaryPolicy {
    /// Summarize when the history reaches this many messages.
    pub trigger_at_messages: usize,
    /// Retain this many messages after summarization.
    pub retain_after: usize,
}

impl Default for SummaryPolicy {
    /// Summarize at forty messages, keeping the last ten.
    fn default() -> (r: Self)
        ensures
            r.trigger_at_messages == 40,
            r.retain_after == 10,
    {
        SummaryPolicy { trigger_at_messages: 40, retain_after: 10 }
    }
}

impl SummaryPolicy {
    /// True exactly when the history has reached the trigger length.
    pub fn should_summarize(&self, history_len: usize) -> (r: bool)
        ensures
            r == (history_len >= self.trigger_at_messages),
    {
        history_len >= self.trigger_at_messages
    }
}

} // verus!
