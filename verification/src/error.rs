//! Structured error hierarchy.
//!
//! Errors carry stable machine-readable codes for API consumers and are
//! surfaced to callers verbatim: a broken chain or a missing block is a
//! finding, not a transient condition, so nothing here retries or recovers.

use vstd::prelude::*;

use crate::text::dec_str;
use crate::tool::ToolAccessLevel;

verus! {

/// Stable string identifiers for API consumers.
#[derive(Debug, Clone, PartialEq, Eq, Structural)]
pub enum ErrorCode {
    Unauthorized,
    Forbidden,
    TenantNotFound,
    TenantQuotaExceeded,
    NotFound,
    AlreadyExists,
    Conflict,
    ValidationFailed,
    InvalidSchema,
    ToolExecutionFailed,
    ToolTimeout,
    ToolAccessDenied,
    SandboxError,
    AgentSpawnFailed,
    MaxDepthExceeded,
    BudgetExceeded,
    BudgetLimitReached,
    StorageError,
    LedgerIntegrityViolation,
    SerializationError,
    Internal,
    NotImplemented,
}

/// Primary error type.
#[derive(Debug, Clone)]
pub enum AetherError {
    Unauthorized(String),
    Forbidden(String),
    TenantNotFound { id: String },
    TenantQuotaExceeded { resource: String, limit: u64 },
    NotFound { resource: &'static str, id: String },
    AlreadyExists { resource: &'static str, id: String },
    ValidationFailed { field: String, reason: String },
    InvalidSchema(String),
    ToolExecutionFailed { tool: String, reason: String },
    ToolTimeout { tool: String, timeout_ms: u64 },
    ToolAccessDenied { tool: String, required_level: ToolAccessLevel },
    SandboxError(String),
    AgentSpawnFailed { reason: String },
    MaxDepthExceeded { max: u8 },
    /// A detected break in a tenant's hash chain, citing the offending
    /// block, its sequence number, and both hashes.
    LedgerIntegrityViolation {
        block_id: String,
        sequence_number: u64,
        expected_hash: String,
        found_hash: String,
    },
    StorageError(String),
    SerializationError(String),
    Internal(String),
    NotImplemented(String),
}

impl AetherError {
    /// The stable code of each variant.
    pub open spec fn spec_code(&self) -> ErrorCode {
        match self {
            AetherError::Unauthorized(..) => ErrorCode::Unauthorized,
            AetherError::Forbidden(..) => ErrorCode::Forbidden,
            AetherError::TenantNotFound { .. } => ErrorCode::TenantNotFound,
            AetherError::TenantQuotaExceeded { .. } => ErrorCode::TenantQuotaExceeded,
            AetherError::NotFound { .. } => ErrorCode::NotFound,
            AetherError::AlreadyExists { .. } => ErrorCode::AlreadyExists,
            AetherError::ValidationFailed { .. } => ErrorCode::ValidationFailed,
            AetherError::InvalidSchema(..) => ErrorCode::InvalidSchema,
            AetherError::ToolExecutionFailed { .. } => ErrorCode::ToolExecutionFailed,
            AetherError::ToolTimeout { .. } => ErrorCode::ToolTimeout,
            AetherError::ToolAccessDenied { .. } => ErrorCode::ToolAccessDenied,
            AetherError::SandboxError(..) => ErrorCode::SandboxError,
            AetherError::AgentSpawnFailed { .. } => ErrorCode::AgentSpawnFailed,
            AetherError::MaxDepthExceeded { .. } => ErrorCode::MaxDepthExceeded,
            AetherError::LedgerIntegrityViolation { .. } => ErrorCode::LedgerIntegrityViolation,
            AetherError::StorageError(..) => ErrorCode::StorageError,
            AetherError::SerializationError(..) => ErrorCode::SerializationError,
            AetherError::Internal(..) => ErrorCode::Internal,
            AetherError::NotImplemented(..) => ErrorCode::NotImplemented,
        }
    }

    /// Return the stable error code.
    pub fn code(&self) -> (r: ErrorCode)
        ensures
            r == self.spec_code(),
    {
        match self {
            AetherError::Unauthorized(..) => ErrorCode::Unauthorized,
            AetherError::Forbidden(..) => ErrorCode::Forbidden,
            AetherError::TenantNotFound { .. } => ErrorCode::TenantNotFound,
            AetherError::TenantQuotaExceeded { .. } => ErrorCode::TenantQuotaExceeded,
            AetherError::NotFound { .. } => ErrorCode::NotFound,
            AetherError::AlreadyExists { .. } => ErrorCode::AlreadyExists,
            AetherError::ValidationFailed { .. } => ErrorCode::ValidationFailed,
            AetherError::InvalidSchema(..) => ErrorCode::InvalidSchema,
            AetherError::ToolExecutionFailed { .. } => ErrorCode::ToolExecutionFailed,
            AetherError::ToolTimeout { .. } => ErrorCode::ToolTimeout,
            AetherError::ToolAccessDenied { .. } => ErrorCode::ToolAccessDenied,
            AetherError::SandboxError(..) => ErrorCode::SandboxError,
            AetherError::AgentSpawnFailed { .. } => ErrorCode::AgentSpawnFailed,
            AetherError::MaxDepthExceeded { .. } => ErrorCode::MaxDepthExceeded,
            AetherError::LedgerIntegrityViolation { .. } => ErrorCode::LedgerIntegrityViolation,
            AetherError::StorageError(..) => ErrorCode::StorageError,
            AetherError::SerializationError(..) => ErrorCode::SerializationError,
            AetherError::Internal(..) => ErrorCode::Internal,
            AetherError::NotImplemented(..) => ErrorCode::NotImplemented,
        }
    }

    /// The human-readable rendering of each variant.
    pub open spec fn spec_message(&self) -> Seq<char> {
        match self {
            AetherError::Unauthorized(m) => "unauthorized: "@ + m@,
            AetherError::Forbidden(m) => "forbidden: "@ + m@,
            AetherError::TenantNotFound { id } => "tenant not found: "@ + id@,
            AetherError::TenantQuotaExceeded { resource, limit } => "tenant quota exceeded: "@
                + resource@ + " limit "@ + dec_str(*limit as nat),
            AetherError::NotFound { resource, id } => "not found: "@ + resource@ + " with id "@
                + id@,
            AetherError::AlreadyExists { resource, id } => "already exists: "@ + resource@
                + " with id "@ + id@,
            AetherError::ValidationFailed { field, reason } => "validation failed: "@ + field@
                + " - "@ + reason@,
            AetherError::InvalidSchema(m) => "invalid schema: "@ + m@,
            AetherError::ToolExecutionFailed { tool, reason } => "tool execution failed: "@ + tool@
                + " - "@ + reason@,
            AetherError::ToolTimeout { tool, timeout_ms } => "tool timeout: "@ + tool@
                + " exceeded "@ + dec_str(*timeout_ms as nat) + "ms"@,
            AetherError::ToolAccessDenied { tool, required_level } => "tool access denied: "@
                + tool@ + " requires "@ + required_level.spec_text(),
            AetherError::SandboxError(m) => "sandbox error: "@ + m@,
            AetherError::AgentSpawnFailed { reason } => "agent spawn failed: "@ + reason@,
            AetherError::MaxDepthExceeded { max } => "max subagent depth "@ + dec_str(*max as nat)
                + " exceeded"@,
            AetherError::LedgerIntegrityViolation {
                block_id,
                sequence_number,
                expected_hash,
                found_hash,
            } => "ledger integrity violation: block "@ + block_id@ + " at seq "@ + dec_str(
                *sequence_number as nat,
            ) + ": expected "@ + expected_hash@ + ", got "@ + found_hash@,
            AetherError::StorageError(m) => "storage error: "@ + m@,
            AetherError::SerializationError(m) => "serialization error: "@ + m@,
            AetherError::Internal(m) => "internal error: "@ + m@,
            AetherError::NotImplemented(m) => "not implemented: "@ + m@,
        }
    }

    /// Render the error as text, as its `Display` form would.
    pub fn message(&self) -> (r: String)
        ensures
            r@ == self.spec_message(),
    {
        match self {
            AetherError::Unauthorized(m) => {
                let mut s = String::from_str("unauthorized: ");
                s.append(m.as_str());
                s
            },
            AetherError::Forbidden(m) => {
                let mut s = String::from_str("forbidden: ");
                s.append(m.as_str());
                s
            },
            AetherError::TenantNotFound { id } => {
                let mut s = String::from_str("tenant not found: ");
                s.append(id.as_str());
                s
            },
            AetherError::TenantQuotaExceeded { resource, limit } => {
                let mut s = String::from_str("tenant quota exceeded: ");
                s.append(resource.as_str());
                s.append(" limit ");
                let n = crate::text::u64_to_dec(*limit);
                s.append(n.as_str());
                s
            },
            AetherError::NotFound { resource, id } => {
                let mut s = String::from_str("not found: ");
                s.append(resource);
                s.append(" with id ");
                s.append(id.as_str());
                s
            },
            AetherError::AlreadyExists { resource, id } => {
                let mut s = String::from_str("already exists: ");
                s.append(resource);
                s.append(" with id ");
                s.append(id.as_str());
                s
            },
            AetherError::ValidationFailed { field, reason } => {
                let mut s = String::from_str("validation failed: ");
                s.append(field.as_str());
                s.append(" - ");
                s.append(reason.as_str());
                s
            },
            AetherError::InvalidSchema(m) => {
                let mut s = String::from_str("invalid schema: ");
                s.append(m.as_str());
                s
            },
            AetherError::ToolExecutionFailed { tool, reason } => {
                let mut s = String::from_str("tool execution failed: ");
                s.append(tool.as_str());
                s.append(" - ");
                s.append(reason.as_str());
                s
            },
            AetherError::ToolTimeout { tool, timeout_ms } => {
                let mut s = String::from_str("tool timeout: ");
                s.append(tool.as_str());
                s.append(" exceeded ");
                let n = crate::text::u64_to_dec(*timeout_ms);
                s.append(n.as_str());
                s.append("ms");
                s
            },
            AetherError::ToolAccessDenied { tool, required_level } => {
                let mut s = String::from_str("tool access denied: ");
                s.append(tool.as_str());
                s.append(" requires ");
                s.append(required_level.text());
                s
            },
            AetherError::SandboxError(m) => {
                let mut s = String::from_str("sandbox error: ");
                s.append(m.as_str());
                s
            },
            AetherError::AgentSpawnFailed { reason } => {
                let mut s = String::from_str("agent spawn failed: ");
                s.append(reason.as_str());
                s
            },
            AetherError::MaxDepthExceeded { max } => {
                let mut s = String::from_str("max subagent depth ");
                let n = crate::text::u64_to_dec(*max as u64);
                s.append(n.as_str());
                s.append(" exceeded");
                s
            },
            AetherError::LedgerIntegrityViolation {
                block_id,
                sequence_number,
                expected_hash,
                found_hash,
            } => {
                let mut s = String::from_str("ledger integrity violation: block ");
                s.append(block_id.as_str());
                s.append(" at seq ");
                let n = crate::text::u64_to_dec(*sequence_number);
                s.append(n.as_str());
                s.append(": expected ");
                s.append(expected_hash.as_str());
                s.append(", got ");
                s.append(found_hash.as_str());
                s
            },
            AetherError::StorageError(m) => {
                let mut s = String::from_str("storage error: ");
                s.append(m.as_str());
                s
            },
            AetherError::SerializationError(m) => {
                let mut s = String::from_str("serialization error: ");
                s.append(m.as_str());
                s
            },
            AetherError::Internal(m) => {
                let mut s = String::from_str("internal error: ");
                s.append(m.as_str());
                s
            },
            AetherError::NotImplemented(m) => {
                let mut s = String::from_str("not implemented: ");
                s.append(m.as_str());
                s
            },
        }
    }

    /// Helper for the common not-found case.
    pub fn not_found(resource: &'static str, id: String) -> (r: Self)
        ensures
            r == (AetherError::NotFound { resource, id }),
    {
        AetherError::NotFound { resource, id }
    }

    /// Helper for the catch-all internal case.
    pub fn internal(msg: String) -> (r: Self)
        ensures
            r == AetherError::Internal(msg),
    {
        AetherError::Internal(msg)
    }
}

} // verus!
