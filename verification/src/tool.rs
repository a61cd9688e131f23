//! Tool domain model — shared types for the tool system.
//!
//! These types describe registered tools, calls made to them, and the
//! results that come back; access control over them is decided elsewhere.

use std::collections::HashMap;

use vstd::prelude::*;

use crate::ids::{AgentId, LedgerBlockId, TenantId, ToolId};

verus! {

/// Four-tier tool access model: which agents can call a tool and what
/// enforcement gates apply.
#[derive(Debug, Clone, Copy, PartialEq, Eq, PartialOrd, Ord, Structural)]
pub enum ToolAccessLevel {
    /// All agents — no restrictions.
    Public,
    /// Higher-tier agents only — tier check enforced.
    Protected,
    /// Pre-approved agents only — policy, sandbox and ledger required.
    Restricted,
    /// Human-in-the-loop only — queued for human approval before execution.
    Critical,
}

impl ToolAccessLevel {
    /// The name of each level.
    pub open spec fn spec_text(&self) -> Seq<char> {
        match self {
            ToolAccessLevel::Public => "Public"@,
            ToolAccessLevel::Protected => "Protected"@,
            ToolAccessLevel::Restricted => "Restricted"@,
            ToolAccessLevel::Critical => "Critical"@,
        }
    }

    /// The name of each level, as text.
    pub fn text(&self) -> (r: &'static str)
        ensures
            r@ == self.spec_text(),
    {
        match self {
            ToolAccessLevel::Public => "Public",
            ToolAccessLevel::Protected => "Protected",
            ToolAccessLevel::Restricted => "Restricted",
            ToolAccessLevel::Critical => "Critical",
        }
    }
}

/// Where a tool may execute.
#[derive(Debug, Clone, PartialEq, Eq, Structural)]
pub enum ExecutionScope {
    /// Runs directly in the agent process (only for trivially safe tools).
    Inline,
    /// Runs in an isolated sandbox.
    Sandbox,
    /// Queued externally (a human review queue, an asynchronous job).
    External,
}

/// Retry policy embedded in the tool definition.
#[derive(Debug, Clone)]
pub struct RetryPolicy {
    pub max_attempts: u8,
    pub backoff_ms: Vec<u64>,
}

impl Default for RetryPolicy {
    /// Three attempts with increasing backoff.
    fn default() -> (r: Self)
        ensures
            r.max_attempts == 3,
            r.backoff_ms@ == seq![100u64, 500u64, 2000u64],
    {
        let backoff_ms = vec![100u64, 500u64, 2000u64];
        assert(backoff_ms@ =~= seq![100u64, 500u64, 2000u64]);
        RetryPolicy { max_attempts: 3, backoff_ms }
    }
}

/// Immutable tool definition — registered once, used many times.
#[derive(Debug, Clone)]
pub struct ToolDefinition {
    pub id: ToolId,
    pub name: String,
    pub version: String,
    pub description: String,
    pub access: ToolAccessLevel,
    pub scope: ExecutionScope,
    /// Schema the input is validated against before execution.
    pub input_schema: serde_json::Value,
    /// Schema the output is validated against after execution.
    pub output_schema: serde_json::Value,
    /// Tool produces the same output for the same input.
    pub idempotent: bool,
    /// Tool can be rolled back via a compensation action.
    pub reversible: bool,
    pub timeout_ms: u64,
    pub retry_policy: RetryPolicy,
}

/// Whether a tool name contains a space (disallowed: names are snake_case).
pub open spec fn has_space(s: Seq<char>) -> bool {
    exists|i: int| 0 <= i < s.len() && s[i] == ' '
}

impl ToolDefinition {
    /// Validate that the name is present and snake_case and that the
    /// timeout is positive. Exactly the first failing rule is reported.
    pub fn validate(&self) -> (r: Result<(), String>)
        ensures
            r.is_ok() <==> (self.name@.len() > 0 && !has_space(self.name@) && self.timeout_ms
                > 0),
            match r {
                Ok(()) => true,
                Err(e) => {
                    if self.name@.len() == 0 {
                        e@ == "tool name cannot be empty"@
                    } else if has_space(self.name@) {
                        e@ == "tool name must be snake_case, got: "@ + self.name@
                    } else {
                        e@ == "timeout_ms must be > 0"@
                    }
                },
            },
    {
        let name = self.name.as_str();
        if name.unicode_len() == 0 {
            return Err(String::from_str("tool name cannot be empty"));
        }
        let n = name.unicode_len();
        let mut i: usize = 0;
        while i < n
            invariant
                n == name@.len(),
                name@ == self.name@,
                i <= n,
                forall|j: int| 0 <= j < i ==> name@[j] != ' ',
            decreases n - i,
        {
            if name.get_char(i) == ' ' {
                let mut e = String::from_str("tool name must be snake_case, got: ");
                e.append(name);
                return Err(e);
            }
            i = i + 1;
        }
        assert(!has_space(self.name@));
        if self.timeout_ms == 0 {
            return Err(String::from_str("timeout_ms must be > 0"));
        }
        Ok(())
    }
}

/// A single tool call from a model.
#[derive(Debug, Clone)]
pub struct ToolCall {
    /// Model-generated call identifier (for correlation in streaming).
    pub call_id: String,
    pub tool_name: String,
    pub arguments: serde_json::Value,
}

/// Result of a tool execution.
#[derive(Debug, Clone)]
pub struct ToolResult {
    pub call_id: String,
    pub tool_name: String,
    pub content: serde_json::Value,
    pub success: bool,
    pub error: Option<String>,
    pub duration_ms: u64,
    pub ledger_block_id: Option<LedgerBlockId>,
}

impl ToolResult {
    /// A successful result carrying the tool's content.
    pub fn success(call_id: String, tool_name: String, content: serde_json::Value, duration_ms: u64) -> (r: Self)
        ensures
            r.call_id == call_id,
            r.tool_name == tool_name,
            r.content == content,
            r.success,
            r.error is None,
            r.duration_ms == duration_ms,
            r.ledger_block_id is None,
    {
        ToolResult {
            call_id,
            tool_name,
            content,
            success: true,
            error: None,
            duration_ms,
            ledger_block_id: None,
        }
    }

    /// A failed result carrying the error text and an empty payload.
    pub fn failure(call_id: String, tool_name: String, error: String, duration_ms: u64) -> (r: Self)
        ensures
            r.call_id == call_id,
            r.tool_name == tool_name,
            !r.success,
            r.error == Some(error),
            r.duration_ms == duration_ms,
            r.ledger_block_id is None,
    {
        ToolResult {
            call_id,
            tool_name,
            content: crate::payload::json_null(),
            success: false,
            error: Some(error),
            duration_ms,
            ledger_block_id: None,
        }
    }
}

/// Context passed to every tool execution.
#[derive(Debug, Clone)]
pub struct ToolExecutionContext {
    pub tenant_id: TenantId,
    pub agent_id: AgentId,
    pub agent_tier: u8,
    pub metadata: HashMap<String, String>,
}

} // verus!
