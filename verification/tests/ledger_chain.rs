//! Tests for the ledger core: block building, content hashing, chain
//! verification, storage, and the audit orchestrator.

use aether::block::{block_to_ref, hash_value, LedgerBlockBuilder};
use aether::chain::{compute_block_hash, verify_chain};
use aether::error::AetherError;
use aether::ids::{AgentId, LedgerBlockId, TaskId, TenantId};
use aether::ledger::{BlockHash, LedgerAction, LedgerBlock};
use aether::storage::{InMemoryLedgerStorage, LedgerStorage};
use aether::verify::LedgerVerifier;

fn json_object(pairs: &[(&str, &str)]) -> serde_json::Value {
    let mut m = serde_json::Map::new();
    for (k, v) in pairs {
        m.insert(k.to_string(), serde_json::Value::String(v.to_string()));
    }
    serde_json::Value::Object(m)
}

fn genesis_builder() -> LedgerBlockBuilder {
    LedgerBlockBuilder::new(
        TenantId::new(),
        AgentId::new(),
        TaskId::new(),
        LedgerAction::ToolCall,
        BlockHash::genesis(),
        1,
    )
}

#[test]
fn test_block_hash_is_64_chars() {
    let block = genesis_builder()
        .input(json_object(&[("query", "test")]))
        .output(json_object(&[("result", "ok")]))
        .build();
    assert!(block.input_hash.is_valid());
    assert!(block.output_hash.is_valid());
}

#[test]
fn test_same_input_same_hash() {
    let input = json_object(&[("key", "value")]);
    let h1 = hash_value(&input);
    let h2 = hash_value(&input);
    assert_eq!(h1.0, h2.0);
}

#[test]
fn test_different_inputs_different_hashes() {
    let h1 = hash_value(&serde_json::Value::Number(serde_json::Number::from(1)));
    let h2 = hash_value(&serde_json::Value::Number(serde_json::Number::from(2)));
    assert_ne!(h1.0, h2.0);
}

#[test]
fn test_same_payload_same_hash_regardless_of_build_order() {
    // Structurally equal objects hash identically however their keys
    // were inserted: serialization is canonical.
    let mut m1 = serde_json::Map::new();
    m1.insert("a".to_string(), serde_json::Value::String("1".to_string()));
    m1.insert("b".to_string(), serde_json::Value::String("2".to_string()));
    let mut m2 = serde_json::Map::new();
    m2.insert("b".to_string(), serde_json::Value::String("2".to_string()));
    m2.insert("a".to_string(), serde_json::Value::String("1".to_string()));
    let h1 = hash_value(&serde_json::Value::Object(m1));
    let h2 = hash_value(&serde_json::Value::Object(m2));
    assert_eq!(h1.0, h2.0);
}

#[test]
fn test_hash_value_exact_digest() {
    // The digest of the canonical text `{"key":"value"}`.
    let h = hash_value(&json_object(&[("key", "value")]));
    assert_eq!(
        h.0,
        "e43abcf3375244839c012f9633f95862d232a95b00d5bc7348b3098b9fed7f32"
    );
}

#[test]
fn test_block_ref_preserves_sequence() {
    let block = genesis_builder().build();
    let r = block_to_ref(&block);
    assert_eq!(r.sequence_number, 1);
}

fn make_genesis_block() -> LedgerBlock {
    LedgerBlock {
        id: LedgerBlockId::new(),
        sequence_number: 1,
        timestamp_utc: chrono::Utc::now().timestamp_millis(),
        tenant_id: TenantId::new(),
        agent_id: AgentId::new(),
        task_id: TaskId::new(),
        action: LedgerAction::ToolCall,
        tool_id: None,
        input_hash: BlockHash("a".repeat(64)),
        output_hash: BlockHash("b".repeat(64)),
        parent_hash: BlockHash::genesis(),
        signature: None,
    }
}

#[test]
fn test_empty_chain_is_valid() {
    assert!(verify_chain(&Vec::new()).is_ok());
}

#[test]
fn test_single_block_valid_chain() {
    let block = make_genesis_block();
    assert!(verify_chain(&vec![block]).is_ok());
}

#[test]
fn test_single_block_without_genesis_parent_fails() {
    let mut block = make_genesis_block();
    block.parent_hash = BlockHash("c".repeat(64));
    assert!(verify_chain(&vec![block]).is_err());
}

#[test]
fn test_two_block_valid_chain() {
    let b1 = make_genesis_block();
    let b1_hash = compute_block_hash(&b1);
    assert_eq!(b1_hash.0.len(), 64);

    let b2 = LedgerBlock {
        id: LedgerBlockId::new(),
        sequence_number: 2,
        timestamp_utc: chrono::Utc::now().timestamp_millis(),
        tenant_id: b1.tenant_id.clone(),
        agent_id: b1.agent_id.clone(),
        task_id: b1.task_id.clone(),
        action: LedgerAction::MemoryWrite,
        tool_id: None,
        input_hash: BlockHash("c".repeat(64)),
        output_hash: BlockHash("d".repeat(64)),
        parent_hash: b1_hash,
        signature: None,
    };
    assert!(verify_chain(&vec![b1, b2]).is_ok());
}

#[test]
fn test_tampered_chain_detected() {
    let b1 = make_genesis_block();
    let b2 = LedgerBlock {
        id: LedgerBlockId::new(),
        sequence_number: 2,
        timestamp_utc: chrono::Utc::now().timestamp_millis(),
        tenant_id: b1.tenant_id.clone(),
        agent_id: b1.agent_id.clone(),
        task_id: b1.task_id.clone(),
        action: LedgerAction::MemoryWrite,
        tool_id: None,
        input_hash: BlockHash("c".repeat(64)),
        output_hash: BlockHash("d".repeat(64)),
        parent_hash: BlockHash("0".repeat(64)), // WRONG - tampered
        signature: None,
    };
    assert!(verify_chain(&vec![b1, b2]).is_err());
}

#[test]
fn test_violation_cites_offending_block() {
    let b1 = make_genesis_block();
    let mut b2 = make_genesis_block();
    b2.sequence_number = 7;
    b2.parent_hash = BlockHash("e".repeat(64));
    let b2_id = b2.id.to_text();
    match verify_chain(&vec![b1, b2]) {
        Err(AetherError::LedgerIntegrityViolation {
            block_id,
            sequence_number,
            found_hash,
            ..
        }) => {
            assert_eq!(block_id, b2_id);
            assert_eq!(sequence_number, 7);
            assert_eq!(found_hash, "e".repeat(64));
        }
        other => panic!("expected a chain-integrity violation, got {other:?}"),
    }
}

#[test]
fn test_compute_block_hash_exact_digest() {
    // The digest of the canonical string of a fully pinned block.
    let id = LedgerBlockId::parse("00000000-0000-4000-8000-000000000000").unwrap();
    let block = LedgerBlock {
        id,
        sequence_number: 42,
        timestamp_utc: 0,
        tenant_id: TenantId::new(),
        agent_id: AgentId::new(),
        task_id: TaskId::new(),
        action: LedgerAction::Deploy,
        tool_id: None,
        input_hash: BlockHash("a".repeat(64)),
        output_hash: BlockHash("b".repeat(64)),
        parent_hash: BlockHash::genesis(),
        signature: None,
    };
    assert_eq!(
        block.canonical_string(),
        format!(
            "00000000-0000-4000-8000-000000000000|42|{}|{}|{}",
            "a".repeat(64),
            "b".repeat(64),
            "0".repeat(64)
        )
    );
    assert_eq!(
        compute_block_hash(&block).0,
        "76abbc224d3d6901fda45a9e1c9abdc3a78841a1e958aca350e7e71e65a03d57"
    );
}

fn make_block(tenant_id: TenantId, seq: u64) -> LedgerBlock {
    LedgerBlock {
        id: LedgerBlockId::new(),
        sequence_number: seq,
        timestamp_utc: chrono::Utc::now().timestamp_millis(),
        tenant_id,
        agent_id: AgentId::new(),
        task_id: TaskId::new(),
        action: LedgerAction::ToolCall,
        tool_id: None,
        input_hash: BlockHash("a".repeat(64)),
        output_hash: BlockHash("b".repeat(64)),
        parent_hash: BlockHash::genesis(),
        signature: None,
    }
}

#[test]
fn test_append_and_count() {
    let mut storage = InMemoryLedgerStorage::new();
    let t = TenantId::new();
    storage.append(make_block(t.clone(), 1)).unwrap();
    storage.append(make_block(t.clone(), 2)).unwrap();
    assert_eq!(storage.count(&t).unwrap(), 2);
}

#[test]
fn test_get_block_by_id() {
    let mut storage = InMemoryLedgerStorage::new();
    let t = TenantId::new();
    let block = make_block(t, 1);
    let id = block.id.clone();
    storage.append(block).unwrap();
    let fetched = storage.get_block(&id).unwrap();
    assert_eq!(fetched.id, id);
    assert_eq!(fetched.sequence_number, 1);
}

#[test]
fn test_get_block_not_found() {
    let storage = InMemoryLedgerStorage::new();
    let missing = LedgerBlockId::new();
    assert!(storage.get_block(&missing).is_err());
}

#[test]
fn storage_test_tenant_isolation() {
    let mut storage = InMemoryLedgerStorage::new();
    let t1 = TenantId::new();
    let t2 = TenantId::new();
    storage.append(make_block(t1.clone(), 1)).unwrap();
    // t2 has no blocks
    assert_eq!(storage.count(&t2).unwrap(), 0);
    assert_eq!(storage.count(&t1).unwrap(), 1);
    assert!(storage.get_blocks(&t2).unwrap().is_empty());
}

fn make_linked_block(tenant: TenantId, seq: u64, parent: BlockHash) -> LedgerBlock {
    LedgerBlock {
        id: LedgerBlockId::new(),
        sequence_number: seq,
        timestamp_utc: chrono::Utc::now().timestamp_millis(),
        tenant_id: tenant,
        agent_id: AgentId::new(),
        task_id: TaskId::new(),
        action: LedgerAction::ToolCall,
        tool_id: None,
        input_hash: BlockHash("a".repeat(64)),
        output_hash: BlockHash("b".repeat(64)),
        parent_hash: parent,
        signature: None,
    }
}

#[test]
fn test_empty_tenant_verifies_ok() {
    let storage = InMemoryLedgerStorage::new();
    let verifier = LedgerVerifier::new(storage);
    let t = TenantId::new();
    let report = verifier.verify_tenant(&t).unwrap();
    assert!(report.intact);
    assert_eq!(report.blocks_verified, 0);
}

#[test]
fn test_valid_chain_verifies_ok() {
    let mut storage = InMemoryLedgerStorage::new();
    let t = TenantId::new();
    let b1 = make_linked_block(t.clone(), 1, BlockHash::genesis());
    let b1_hash = compute_block_hash(&b1);
    let b2 = make_linked_block(t.clone(), 2, b1_hash);
    storage.append(b1).unwrap();
    storage.append(b2).unwrap();

    let verifier = LedgerVerifier::new(storage);
    let report = verifier.verify_tenant(&t).unwrap();
    assert!(report.intact);
    assert_eq!(report.blocks_verified, 2);
}

#[test]
fn test_broken_chain_fails_verification() {
    let mut storage = InMemoryLedgerStorage::new();
    let t = TenantId::new();
    // b2's parent_hash intentionally wrong
    let b1 = make_linked_block(t.clone(), 1, BlockHash::genesis());
    let b2 = make_linked_block(t.clone(), 2, BlockHash("bad_hash".repeat(8))); // wrong
    storage.append(b1).unwrap();
    storage.append(b2).unwrap();

    let verifier = LedgerVerifier::new(storage);
    assert!(verifier.verify_tenant(&t).is_err());
}

#[test]
fn test_end_to_end_two_block_audit() {
    // Build, append, and audit a two-block chain for one tenant.
    let tenant = TenantId::new();
    let agent = AgentId::new();
    let task = TaskId::new();
    let b1 = LedgerBlockBuilder::new(
        tenant.clone(),
        agent.clone(),
        task.clone(),
        LedgerAction::ToolCall,
        BlockHash::genesis(),
        1,
    )
    .input(json_object(&[("query", "test")]))
    .output(json_object(&[("result", "ok")]))
    .build();
    let b1_hash = compute_block_hash(&b1);
    let b2 = LedgerBlockBuilder::new(
        tenant.clone(),
        agent,
        task,
        LedgerAction::MemoryWrite,
        b1_hash,
        2,
    )
    .build();

    let mut storage = InMemoryLedgerStorage::new();
    storage.append(b1).unwrap();
    storage.append(b2).unwrap();
    let verifier = LedgerVerifier::new(storage);
    let report = verifier.verify_tenant(&tenant).unwrap();
    assert_eq!(report.blocks_verified, 2);
    assert!(report.intact);
    assert_eq!(report.tenant_id, tenant);
}

#[test]
fn test_end_to_end_tampered_parent_cites_second_block() {
    // Same as the clean audit, but block 2 carries the genesis sentinel
    // instead of block 1's chain-hash.
    let tenant = TenantId::new();
    let agent = AgentId::new();
    let task = TaskId::new();
    let b1 = LedgerBlockBuilder::new(
        tenant.clone(),
        agent.clone(),
        task.clone(),
        LedgerAction::ToolCall,
        BlockHash::genesis(),
        1,
    )
    .input(json_object(&[("query", "test")]))
    .output(json_object(&[("result", "ok")]))
    .build();
    let b2 = LedgerBlockBuilder::new(
        tenant.clone(),
        agent,
        task,
        LedgerAction::MemoryWrite,
        BlockHash::genesis(),
        2,
    )
    .build();
    let b2_id = b2.id.to_text();

    let mut storage = InMemoryLedgerStorage::new();
    storage.append(b1).unwrap();
    storage.append(b2).unwrap();
    let verifier = LedgerVerifier::new(storage);
    match verifier.verify_tenant(&tenant) {
        Err(AetherError::LedgerIntegrityViolation {
            block_id,
            sequence_number,
            ..
        }) => {
            assert_eq!(block_id, b2_id);
            assert_eq!(sequence_number, 2);
        }
        other => panic!("expected a chain-integrity violation, got {other:?}"),
    }
}
