//! Tests for policy decisions, agent tiers, conversation histories,
//! session keys, summarization policy, and the session manager.

use aether::budget::{AlertType, BudgetAction};
use aether::history::ConversationHistory;
use aether::ids::{AgentId, TenantId};
use aether::keys::SessionKey;
use aether::manager::SessionManager;
use aether::memory::MessageRole;
use aether::evaluation::PolicyDecision;
use aether::rules::AgentTier;
use aether::summary::SummaryPolicy;

#[test]
fn test_allow_decision() {
    let d = PolicyDecision::allow("public-allow");
    assert!(d.is_allowed());
}

#[test]
fn test_deny_decision() {
    let d = PolicyDecision::deny("budget-exhausted", "no budget");
    assert!(!d.is_allowed());
    assert_eq!(d.reason, "no budget");
}

#[test]
fn test_agent_tier_ordering() {
    assert!(AgentTier::boss().meets(AgentTier::specialist()));
    assert!(!AgentTier::worker().meets(AgentTier::specialist()));
    assert!(!AgentTier::sensor().meets(AgentTier::boss()));
}

#[test]
fn test_budget_vocabulary_is_comparable() {
    assert_ne!(AlertType::Warning, AlertType::Exhausted);
    assert_eq!(BudgetAction::Allow, BudgetAction::Allow);
    assert_ne!(
        BudgetAction::Kill {
            reason: "budget exhausted".to_string()
        },
        BudgetAction::Allow
    );
}

fn five_turn_history() -> ConversationHistory {
    let mut h = ConversationHistory::new();
    for i in 0..5 {
        h.add_user(format!("user message {i}"));
        h.add_assistant(format!("assistant response {i}"));
    }
    h
}

#[test]
fn test_history_len() {
    let h = five_turn_history();
    assert_eq!(h.len(), 10);
}

#[test]
fn test_truncate_drops_oldest() {
    let mut h = five_turn_history();
    h.truncate_to_last(4);
    assert_eq!(h.len(), 4);
    // Last message should be the last assistant response
    assert!(h.messages().last().unwrap().content.contains("4"));
}

#[test]
fn test_truncate_no_op_when_short() {
    let mut h = ConversationHistory::new();
    h.add_user("hi".to_string());
    h.truncate_to_last(10);
    assert_eq!(h.len(), 1);
}

#[test]
fn test_replace_with_summary_inserts_system_message() {
    let mut h = five_turn_history();
    h.replace_with_summary("They discussed greetings.", 2);
    // Should have: 1 system + 2 recent = 3
    assert_eq!(h.len(), 3);
    assert_eq!(h.messages()[0].role, MessageRole::System);
    assert!(h.messages()[0].content.contains("Summary"));
}

fn make_key() -> SessionKey {
    SessionKey::new(
        TenantId::new(),
        AgentId::new(),
        "discord".to_string(),
        "user123".to_string(),
    )
}

#[test]
fn test_display_format() {
    let key = make_key();
    let s = key.to_text();
    assert!(s.starts_with("tenant:"));
    assert!(s.contains(":agent:"));
    assert!(s.contains(":channel:discord:peer:user123"));
}

#[test]
fn test_parse_roundtrip() {
    let key = make_key();
    let s = key.to_text();
    let parsed = SessionKey::parse(&s).expect("parse should succeed");
    assert_eq!(parsed, key);
}

#[test]
fn test_parse_invalid_returns_none() {
    assert!(SessionKey::parse("invalid-key").is_none());
    assert!(SessionKey::parse("").is_none());
}

#[test]
fn test_trigger_fires_at_threshold() {
    let p = SummaryPolicy::default();
    assert!(!p.should_summarize(39));
    assert!(p.should_summarize(40));
}

#[test]
fn test_custom_threshold() {
    let p = SummaryPolicy {
        trigger_at_messages: 10,
        retain_after: 3,
    };
    assert!(p.should_summarize(10));
    assert!(!p.should_summarize(9));
}

#[test]
fn test_get_or_create_new_session() {
    let mut mgr = SessionManager::new(100);
    let key = make_key();
    let s = mgr.get_or_create(&key);
    assert!(s.history.is_empty());
}

#[test]
fn test_add_turn_grows_history() {
    let mut mgr = SessionManager::new(100);
    let key = make_key();
    mgr.add_user_turn(&key, "hello", "hi there");
    assert_eq!(mgr.history_len(&key), 2);
}

#[test]
fn test_max_history_truncates() {
    let mut mgr = SessionManager::new(4);
    let key = make_key();
    for _ in 0..5 {
        mgr.add_user_turn(&key, "msg", "resp");
    }
    // 5 turns = 10 messages, but max_history = 4
    assert!(mgr.history_len(&key) <= 4);
}

#[test]
fn test_remove_session() {
    let mut mgr = SessionManager::new(100);
    let key = make_key();
    mgr.get_or_create(&key);
    assert_eq!(mgr.len(), 1);
    mgr.remove(&key);
    assert_eq!(mgr.len(), 0);
    assert!(mgr.is_empty());
}

#[test]
fn test_set_summary_on_existing_session() {
    let mut mgr = SessionManager::new(100);
    let key = make_key();
    mgr.add_user_turn(&key, "hello", "hi there");
    mgr.set_summary(&key, "greeted each other".to_string());
    let s = mgr.get_or_create(&key);
    assert_eq!(s.summary.as_deref(), Some("greeted each other"));
}
