//! Ledger domain model — the immutable block record and its hash text.
//!
//! Every privileged action is recorded as a ledger block. Blocks form a
//! hash chain per tenant: each block carries the chain-hash of its
//! predecessor, so any alteration of stored history is detectable.

use vstd::prelude::*;

use crate::ids::{AgentId, LedgerBlockId, TaskId, TenantId, ToolId};
use crate::text::{check_hex_char, dec_str, is_hex_char, is_lower_hex_char, u64_to_dec};

verus! {

/// The all-zero sentinel text that stands in for "no predecessor".
pub open spec fn genesis_text() -> Seq<char> {
    Seq::new(64, |i: int| '0')
}

/// Structurally well-formed hash text: 64 hexadecimal characters.
pub open spec fn is_hash_text(s: Seq<char>) -> bool {
    s.len() == 64 && forall|i: int| 0 <= i < 64 ==> is_hex_char(#[trigger] s[i])
}

/// Hash text as the digest emits it: 64 lowercase hexadecimal characters.
pub open spec fn is_lower_hash_text(s: Seq<char>) -> bool {
    s.len() == 64 && forall|i: int| 0 <= i < 64 ==> is_lower_hex_char(#[trigger] s[i])
}

/// A 256-bit digest represented as a 64-character hex string.
#[derive(Debug)]
pub struct BlockHash(pub String);

impl Clone for BlockHash {
    fn clone(&self) -> (res: Self)
        ensures
            res == *self,
    {
        BlockHash(self.0.clone())
    }
}

impl PartialEq for BlockHash {
    fn eq(&self, other: &BlockHash) -> bool {
        self.0 == other.0
    }
}

impl vstd::std_specs::cmp::PartialEqSpecImpl for BlockHash {
    open spec fn obeys_eq_spec() -> bool {
        true
    }

    open spec fn eq_spec(&self, other: &BlockHash) -> bool {
        self.0@ == other.0@
    }
}

impl BlockHash {
    /// Genesis block parent hash — all zeros.
    pub fn genesis() -> (r: Self)
        ensures
            r.0@ == genesis_text(),
            is_hash_text(r.0@),
    {
        let mut s = String::new();
        let mut i: usize = 0;
        while i < 64
            invariant
                i <= 64,
                s@.len() == i,
                forall|j: int| 0 <= j < i ==> s@[j] == '0',
            decreases 64 - i,
        {
            proof {
                reveal_strlit("0");
            }
            s.append("0");
            i = i + 1;
        }
        assert(s@ =~= genesis_text());
        BlockHash(s)
    }

    /// Structural well-formedness: 64 hex characters (either case),
    /// independent of cryptographic correctness.
    pub fn is_valid(&self) -> (r: bool)
        ensures
            r == is_hash_text(self.0@),
    {
        let text = self.0.as_str();
        let n = text.unicode_len();
        if n != 64 {
            return false;
        }
        let mut i: usize = 0;
        while i < 64
            invariant
                text@.len() == 64,
                text@ == self.0@,
                i <= 64,
                forall|j: int| 0 <= j < i ==> is_hex_char(#[trigger] text@[j]),
            decreases 64 - i,
        {
            if !check_hex_char(text.get_char(i)) {
                return false;
            }
            i = i + 1;
        }
        true
    }
}

/// The type of action recorded in a ledger block.
#[derive(Debug, Clone, Copy, PartialEq, Eq, Structural)]
pub enum LedgerAction {
    /// Tool was invoked by an agent.
    ToolCall,
    /// Code was written or modified.
    CodeChange,
    /// Memory was written.
    MemoryWrite,
    /// Memory was deleted.
    MemoryDelete,
    /// Agent was spawned.
    AgentSpawn,
    /// Agent completed or was terminated.
    AgentComplete,
    /// A deployment action was triggered.
    Deploy,
    /// Human approved or rejected an output.
    HumanReview,
    /// A tool was created by the tool factory.
    ToolCreated,
    /// A compensation action was executed.
    Compensation,
}

/// An immutable ledger block.
///
/// Each block records one action and chains to its predecessor via
/// `parent_hash`. Chain integrity is verified by re-hashing each block's
/// canonical string and comparing.
#[derive(Debug)]
pub struct LedgerBlock {
    pub id: LedgerBlockId,
    /// Monotonically increasing per tenant.
    pub sequence_number: u64,
    /// Wall-clock time of construction in milliseconds, informational only.
    pub timestamp_utc: i64,
    pub tenant_id: TenantId,
    pub agent_id: AgentId,
    pub task_id: TaskId,
    pub action: LedgerAction,
    /// Which tool was invoked (if the action is a tool call).
    pub tool_id: Option<ToolId>,
    /// Digest of the serialized input payload.
    pub input_hash: BlockHash,
    /// Digest of the serialized output payload.
    pub output_hash: BlockHash,
    /// Chain-hash of the previous block in this tenant's chain.
    pub parent_hash: BlockHash,
    /// Reserved for a future detached signature over the canonical string.
    pub signature: Option<String>,
}

impl Clone for LedgerBlock {
    fn clone(&self) -> (res: Self)
        ensures
            res == *self,
    {
        LedgerBlock {
            id: self.id.clone(),
            sequence_number: self.sequence_number,
            timestamp_utc: self.timestamp_utc,
            tenant_id: self.tenant_id.clone(),
            agent_id: self.agent_id.clone(),
            task_id: self.task_id.clone(),
            action: self.action,
            tool_id: match &self.tool_id {
                Some(t) => Some(t.clone()),
                None => None,
            },
            input_hash: self.input_hash.clone(),
            output_hash: self.output_hash.clone(),
            parent_hash: self.parent_hash.clone(),
            signature: match &self.signature {
                Some(s) => Some(s.clone()),
                None => None,
            },
        }
    }
}

impl LedgerBlock {
    /// The text that is hashed for chain verification: exactly the five
    /// chained fields, pipe-delimited, in fixed order.
    pub open spec fn canonical_text(&self) -> Seq<char> {
        self.id@ + "|"@ + dec_str(self.sequence_number as nat) + "|"@ + self.input_hash.0@ + "|"@
            + self.output_hash.0@ + "|"@ + self.parent_hash.0@
    }

    /// Build the string that is signed/hashed for chain verification.
    ///
    /// Format: `{block_id}|{seq}|{input_hash}|{output_hash}|{parent_hash}`
    pub fn canonical_string(&self) -> (r: String)
        ensures
            r@ == self.canonical_text(),
    {
        let mut s = self.id.to_text();
        s.append("|");
        let seq_text = u64_to_dec(self.sequence_number);
        s.append(seq_text.as_str());
        s.append("|");
        s.append(self.input_hash.0.as_str());
        s.append("|");
        s.append(self.output_hash.0.as_str());
        s.append("|");
        s.append(self.parent_hash.0.as_str());
        s
    }
}

/// Compact reference to a ledger block used in tool results.
#[derive(Debug, Clone)]
pub struct LedgerRef {
    pub block_id: LedgerBlockId,
    pub sequence_number: u64,
    pub action: LedgerAction,
    pub timestamp_utc: i64,
}

} // verus!
