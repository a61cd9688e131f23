//! Tests for the shared domain model: identifiers, hashes, memory scopes,
//! tenants, tools, and errors.

use aether::error::{AetherError, ErrorCode};
use aether::ids::{AgentId, SessionId, TaskId, TenantId, ToolId};
use aether::ledger::{BlockHash, LedgerAction, LedgerBlock};
use aether::memory::MemoryScope;
use aether::tenant::UserRole;
use aether::tool::{ExecutionScope, RetryPolicy, ToolAccessLevel, ToolDefinition, ToolResult};

#[test]
fn test_new_ids_are_unique() {
    let a = TenantId::new();
    let b = TenantId::new();
    assert_ne!(a, b);
}

#[test]
fn test_display_is_uuid_format() {
    let id = AgentId::new();
    let s = id.to_text();
    assert_eq!(s.len(), 36); // UUID v4 format
}

#[test]
fn test_roundtrip_through_str() {
    let id = TaskId::new();
    let parsed: TaskId = TaskId::parse(&id.to_text()).unwrap();
    assert_eq!(id, parsed);
}

#[test]
fn test_type_safety_compile_time() {
    // This verifies that different ID types cannot be interchanged.
    // The following would fail to compile if uncommented:
    // let tenant: TenantId = AgentId::new(); // type mismatch
    let _ = TenantId::new();
    let _ = AgentId::new();
}

#[test]
fn test_parse_rejects_malformed_id() {
    assert!(TenantId::parse("not-a-uuid").is_none());
    assert!(TenantId::parse("").is_none());
    assert!(TenantId::parse("00000000-0000-4000-8000-00000000000G").is_none());
}

#[test]
fn test_genesis_hash_is_64_chars() {
    let h = BlockHash::genesis();
    assert_eq!(h.0.len(), 64);
    assert!(h.is_valid());
}

#[test]
fn test_invalid_hash_detected() {
    let h = BlockHash("short".into());
    assert!(!h.is_valid());
}

#[test]
fn test_hash_with_non_hex_char_detected() {
    let h = BlockHash("z".repeat(64));
    assert!(!h.is_valid());
    let upper = BlockHash("A".repeat(64));
    assert!(upper.is_valid());
}

#[test]
fn test_canonical_string_is_deterministic() {
    let block = LedgerBlock {
        id: aether::ids::LedgerBlockId::new(),
        sequence_number: 42,
        timestamp_utc: chrono::Utc::now().timestamp_millis(),
        tenant_id: TenantId::new(),
        agent_id: AgentId::new(),
        task_id: TaskId::new(),
        action: LedgerAction::ToolCall,
        tool_id: None,
        input_hash: BlockHash("a".repeat(64)),
        output_hash: BlockHash("b".repeat(64)),
        parent_hash: BlockHash::genesis(),
        signature: None,
    };
    let s1 = block.canonical_string();
    let s2 = block.canonical_string();
    assert_eq!(s1, s2);
    assert!(s1.contains("42"));
}

#[test]
fn test_tenant_scope_user_id_format() {
    let tenant = TenantId::new();
    let scope = MemoryScope::for_tenant(&tenant);
    assert!(scope.user_id.starts_with("tenant:"));
    assert!(scope.agent_id.is_none());
    assert!(scope.run_id.is_none());
}

#[test]
fn test_session_scope_has_all_fields() {
    let t = TenantId::new();
    let a = AgentId::new();
    let s = SessionId::new();
    let scope = MemoryScope::for_session(&t, &a, &s);
    assert!(scope.agent_id.is_some());
    assert!(scope.run_id.is_some());
}

#[test]
fn test_user_role_ordering() {
    assert!(UserRole::Owner > UserRole::Admin);
    assert!(UserRole::Admin > UserRole::Developer);
    assert!(UserRole::Developer > UserRole::Viewer);
}

fn object_schema() -> serde_json::Value {
    let mut m = serde_json::Map::new();
    m.insert(
        "type".to_string(),
        serde_json::Value::String("object".to_string()),
    );
    serde_json::Value::Object(m)
}

fn make_tool(access: ToolAccessLevel) -> ToolDefinition {
    ToolDefinition {
        id: ToolId::new(),
        name: "web_search".into(),
        version: "1.0.0".into(),
        description: "Search the web".into(),
        access,
        scope: ExecutionScope::Sandbox,
        input_schema: object_schema(),
        output_schema: object_schema(),
        idempotent: true,
        reversible: false,
        timeout_ms: 30_000,
        retry_policy: RetryPolicy::default(),
    }
}

#[test]
fn test_tool_validation_passes_valid() {
    let tool = make_tool(ToolAccessLevel::Public);
    assert!(tool.validate().is_ok());
}

#[test]
fn test_tool_validation_fails_space_in_name() {
    let mut tool = make_tool(ToolAccessLevel::Public);
    tool.name = "web search".into();
    assert!(tool.validate().is_err());
}

#[test]
fn test_tool_validation_fails_zero_timeout() {
    let mut tool = make_tool(ToolAccessLevel::Public);
    tool.timeout_ms = 0;
    assert_eq!(tool.validate().unwrap_err(), "timeout_ms must be > 0");
}

#[test]
fn test_access_level_ordering() {
    assert!(ToolAccessLevel::Critical > ToolAccessLevel::Restricted);
    assert!(ToolAccessLevel::Restricted > ToolAccessLevel::Protected);
    assert!(ToolAccessLevel::Protected > ToolAccessLevel::Public);
}

#[test]
fn test_result_success_has_no_error() {
    let r = ToolResult::success(
        "id".to_string(),
        "web_search".to_string(),
        object_schema(),
        100,
    );
    assert!(r.success);
    assert!(r.error.is_none());
}

#[test]
fn test_result_failure_has_error() {
    let r = ToolResult::failure(
        "id".to_string(),
        "nmap".to_string(),
        "permission denied".to_string(),
        10,
    );
    assert!(!r.success);
    assert!(r.error.is_some());
}

#[test]
fn test_error_code_matches_variant() {
    let err = AetherError::Unauthorized("bad token".into());
    assert_eq!(err.code(), ErrorCode::Unauthorized);
}

#[test]
fn test_not_found_helper() {
    let err = AetherError::not_found("Agent", "abc-123".to_string());
    assert_eq!(err.code(), ErrorCode::NotFound);
    assert!(err.message().contains("abc-123"));
}

#[test]
fn test_message_renders_variant_text() {
    let err = AetherError::StorageError("disk full".to_string());
    assert_eq!(err.message(), "storage error: disk full");
    let timeout = AetherError::ToolTimeout {
        tool: "web_search".to_string(),
        timeout_ms: 2500,
    };
    assert_eq!(timeout.message(), "tool timeout: web_search exceeded 2500ms");
}
