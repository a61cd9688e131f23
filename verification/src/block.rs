//! Ledger block construction and content hashing.
//!
//! Builds blocks from execution events: payloads are digested into
//! content hashes (the payloads themselves are not retained), a fresh
//! block identifier is minted, and the clock is read — those are the
//! builder's only effects.

use vstd::prelude::*;

use crate::digest::{sha256_hex, sha256_hex_of};
use crate::ids::{is_uuid_text, AgentId, LedgerBlockId, TaskId, TenantId, ToolId};
use crate::ledger::{is_hash_text, is_lower_hash_text, BlockHash, LedgerAction, LedgerBlock, LedgerRef};
use crate::payload::{json_canonical_text, json_null, json_text_of};

verus! {

/// Relies on `chrono::Utc::now`: the current wall-clock time in
/// milliseconds since the epoch. Nothing can be promised of the clock.
#[verifier::external_body]
fn now_utc_millis() -> i64 {
    chrono::Utc::now().timestamp_millis()
}

/// Compute the content digest of a payload: the 256-bit digest of its
/// canonical serialized text, hex-encoded lowercase. The digest is a
/// function of the payload value alone, so structurally equal payloads
/// always hash identically.
pub fn hash_value(value: &serde_json::Value) -> (r: BlockHash)
    ensures
        r.0@ == sha256_hex_of(json_text_of(*value)),
        is_hash_text(r.0@),
        is_lower_hash_text(r.0@),
{
    let text = json_canonical_text(value);
    let hex = sha256_hex(text.as_str());
    BlockHash(hex)
}

/// The abstract state of a builder: everything that determines the built
/// block, except the fresh identifier and the clock.
pub struct BuilderView {
    pub tenant_id: TenantId,
    pub agent_id: AgentId,
    pub task_id: TaskId,
    pub action: LedgerAction,
    pub tool_id: Option<ToolId>,
    pub input: serde_json::Value,
    pub output: serde_json::Value,
    pub parent_hash: BlockHash,
    pub sequence_number: u64,
}

/// Builder for `LedgerBlock`.
///
/// Every required field is set at construction; the optional tool
/// identifier and payloads may be added before building.
pub struct LedgerBlockBuilder {
    tenant_id: TenantId,
    agent_id: AgentId,
    task_id: TaskId,
    action: LedgerAction,
    tool_id: Option<ToolId>,
    input: serde_json::Value,
    output: serde_json::Value,
    parent_hash: BlockHash,
    sequence_number: u64,
}

impl View for LedgerBlockBuilder {
    type V = BuilderView;

    closed spec fn view(&self) -> BuilderView {
        BuilderView {
            tenant_id: self.tenant_id,
            agent_id: self.agent_id,
            task_id: self.task_id,
            action: self.action,
            tool_id: self.tool_id,
            input: self.input,
            output: self.output,
            parent_hash: self.parent_hash,
            sequence_number: self.sequence_number,
        }
    }
}

impl LedgerBlockBuilder {
    /// Start a builder from the mandatory fields. The payloads default to
    /// the explicit "no value" payload.
    pub fn new(
        tenant_id: TenantId,
        agent_id: AgentId,
        task_id: TaskId,
        action: LedgerAction,
        parent_hash: BlockHash,
        sequence_number: u64,
    ) -> (r: Self)
        ensures
            r@.tenant_id == tenant_id,
            r@.agent_id == agent_id,
            r@.task_id == task_id,
            r@.action == action,
            r@.tool_id is None,
            r@.parent_hash == parent_hash,
            r@.sequence_number == sequence_number,
    {
        LedgerBlockBuilder {
            tenant_id,
            agent_id,
            task_id,
            action,
            tool_id: None,
            input: json_null(),
            output: json_null(),
            parent_hash,
            sequence_number,
        }
    }

    /// Record which tool was invoked.
    pub fn tool_id(self, id: ToolId) -> (r: Self)
        ensures
            r@ == (BuilderView { tool_id: Some(id), ..self@ }),
    {
        LedgerBlockBuilder { tool_id: Some(id), ..self }
    }

    /// Set the input payload.
    pub fn input(self, v: serde_json::Value) -> (r: Self)
        ensures
            r@ == (BuilderView { input: v, ..self@ }),
    {
        LedgerBlockBuilder { input: v, ..self }
    }

    /// Set the output payload.
    pub fn output(self, v: serde_json::Value) -> (r: Self)
        ensures
            r@ == (BuilderView { output: v, ..self@ }),
    {
        LedgerBlockBuilder { output: v, ..self }
    }

    /// Build the block: digest both payloads, mint a fresh identifier,
    /// read the clock, and assemble the final immutable record.
    pub fn build(self) -> (r: LedgerBlock)
        ensures
            is_uuid_text(r.id@),
            r.sequence_number == self@.sequence_number,
            r.tenant_id == self@.tenant_id,
            r.agent_id == self@.agent_id,
            r.task_id == self@.task_id,
            r.action == self@.action,
            r.tool_id == self@.tool_id,
            r.input_hash.0@ == sha256_hex_of(json_text_of(self@.input)),
            r.output_hash.0@ == sha256_hex_of(json_text_of(self@.output)),
            is_hash_text(r.input_hash.0@),
            is_hash_text(r.output_hash.0@),
            r.parent_hash == self@.parent_hash,
            r.signature is None,
    {
        let input_hash = hash_value(&self.input);
        let output_hash = hash_value(&self.output);
        LedgerBlock {
            id: LedgerBlockId::new(),
            sequence_number: self.sequence_number,
            timestamp_utc: now_utc_millis(),
            tenant_id: self.tenant_id,
            agent_id: self.agent_id,
            task_id: self.task_id,
            action: self.action,
            tool_id: self.tool_id,
            input_hash,
            output_hash,
            parent_hash: self.parent_hash,
            signature: None,
        }
    }
}

/// Build a compact `LedgerRef` from a full block.
pub fn block_to_ref(block: &LedgerBlock) -> (r: LedgerRef)
    ensures
        r.block_id == block.id,
        r.sequence_number == block.sequence_number,
        r.action == block.action,
        r.timestamp_utc == block.timestamp_utc,
{
    LedgerRef {
        block_id: block.id.clone(),
        sequence_number: block.sequence_number,
        action: block.action,
        timestamp_utc: block.timestamp_utc,
    }
}

} // verus!
