//! Conversation history management: append, truncate, summarize.

use vstd::prelude::*;

use crate::memory::{MemoryMessage, MessageRole};

verus! {

/// Conversation history with truncation and summary support.
#[derive(Debug, PartialEq)]
pub struct ConversationHistory {
    messages: Vec<MemoryMessage>,
}

impl View for ConversationHistory {
    type V = Seq<MemoryMessage>;

    closed spec fn view(&self) -> Seq<MemoryMessage> {
        self.messages@
    }
}

impl Clone for ConversationHistory {
    fn clone(&self) -> (res: Self)
        ensures
            res@ == self@,
    {
        let n = self.messages.len();
        let mut messages: Vec<MemoryMessage> = Vec::new();
        let mut i: usize = 0;
        while i < n
            invariant
                n == self.messages@.len(),
                i <= n,
                messages@.len() == i,
                forall|j: int| 0 <= j < i ==> messages@[j] == self.messages@[j],
            decreases n - i,
        {
            messages.push(self.messages[i].clone());
            i = i + 1;
        }
        let res = ConversationHistory { messages };
        proof {
            assert(res@ =~= self@);
        }
        res
    }
}

impl Default for ConversationHistory {
    fn default() -> (r: Self)
        ensures
            r@ == Seq::<MemoryMessage>::empty(),
    {
        ConversationHistory::new()
    }
}

impl ConversationHistory {
    pub fn new() -> (r: Self)
        ensures
            r@ == Seq::<MemoryMessage>::empty(),
    {
        let r = ConversationHistory { messages: Vec::new() };
        proof {
            assert(r@ =~= Seq::<MemoryMessage>::empty());
        }
        r
    }

    /// Append a user message to the history.
    pub fn add_user(&mut self, content: String)
        ensures
            final(self)@ == old(self)@.push(
                (MemoryMessage { role: MessageRole::User, content }),
            ),
    {
        self.messages.push(MemoryMessage { role: MessageRole::User, content });
    }

    /// Append an assistant message to the history.
    pub fn add_assistant(&mut self, content: String)
        ensures
            final(self)@ == old(self)@.push(
                (MemoryMessage { role: MessageRole::Assistant, content }),
            ),
    {
        self.messages.push(MemoryMessage { role: MessageRole::Assistant, content });
    }

    /// Append a tool result message.
    pub fn add_tool_result(&mut self, content: String)
        ensures
            final(self)@ == old(self)@.push(
                (MemoryMessage { role: MessageRole::Tool, content }),
            ),
    {
        self.messages.push(MemoryMessage { role: MessageRole::Tool, content });
    }

    /// All messages, oldest first.
    pub fn messages(&self) -> (r: &[MemoryMessage])
        ensures
            r@ == self@,
    {
        self.messages.as_slice()
    }

    /// Total number of messages.
    pub fn len(&self) -> (r: usize)
        ensures
            r == self@.len(),
    {
        self.messages.len()
    }

    pub fn is_empty(&self) -> (r: bool)
        ensures
            r == (self@.len() == 0),
    {
        self.messages.is_empty()
    }

    /// Keep only the most recent `n` messages, dropping the oldest.
    pub fn truncate_to_last(&mut self, n: usize)
        ensures
            old(self)@.len() <= n ==> final(self)@ == old(self)@,
            old(self)@.len() > n ==> final(self)@ == old(self)@.subrange(
                old(self)@.len() - n,
                old(self)@.len() as int,
            ),
    {
        let len = self.messages.len();
        if len > n {
            let total = len - n;
            let ghost orig = self.messages@;
            let mut dropped: usize = 0;
            while dropped < total
                invariant
                    total <= orig.len(),
                    dropped <= total,
                    self.messages@ == orig.subrange(dropped as int, orig.len() as int),
                decreases total - dropped,
            {
                self.messages.remove(0);
                proof {
                    assert(self.messages@ =~= orig.subrange(dropped + 1, orig.len() as int));
                }
                dropped = dropped + 1;
            }
        }
    }

    /// Replace all messages with a summary message followed by the most
    /// recent `keep_last` messages.
    pub fn replace_with_summary(&mut self, summary: &str, keep_last: usize)
        ensures
            ({
                let from = if old(self)@.len() <= keep_last {
                    0
                } else {
                    old(self)@.len() - keep_last
                };
                let recent = old(self)@.subrange(from as int, old(self)@.len() as int);
                &&& final(self)@.len() == 1 + recent.len()
                &&& final(self)@[0].role == MessageRole::System
                &&& final(self)@[0].content@ == "[Summary of earlier conversation]\n"@ + summary@
                &&& final(self)@.skip(1) == recent
            }),
    {
        let len = self.messages.len();
        let from = if len <= keep_last {
            0
        } else {
            len - keep_last
        };
        let mut content = String::from_str("[Summary of earlier conversation]\n");
        content.append(summary);
        let mut messages: Vec<MemoryMessage> = Vec::new();
        messages.push(MemoryMessage { role: MessageRole::System, content });
        let mut i: usize = from;
        while i < len
            invariant
                from <= len,
                len == self.messages@.len(),
                from <= i <= len,
                messages@.len() == 1 + i - from,
                messages@[0].role == MessageRole::System,
                messages@[0].content@ == "[Summary of earlier conversation]\n"@ + summary@,
                forall|j: int| from <= j < i ==> messages@[1 + j - from] == self.messages@[j],
            decreases len - i,
        {
            messages.push(self.messages[i].clone());
            i = i + 1;
        }
        self.messages = messages;
        proof {
            let recent = old(self)@.subrange(from as int, old(self)@.len() as int);
            assert(self@.len() == 1 + recent.len());
            assert(self@.skip(1) =~= recent);
        }
    }
}

} // verus!
