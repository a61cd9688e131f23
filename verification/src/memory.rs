//! Memory domain model — tiered memory scopes and messages.
//!
//! These types describe how memories are scoped (tenant-wide, per-agent,
//! per-session) and the messages exchanged with the memory backend.

use vstd::prelude::*;

use crate::ids::{AgentId, SessionId, TenantId};

verus! {

/// Memory tier: determines scope, retention, and backend.
#[derive(Debug, Clone, PartialEq, Eq, Structural)]
pub enum MemoryTier {
    /// Session-scoped; lives only as long as the session.
    Working,
    /// Agent-scoped; permanent per-agent knowledge.
    Project,
    /// Tenant-scoped; permanent tenant-wide patterns.
    Knowledge,
    /// Graph store; permanent entity relationships.
    Graph,
}

/// Memory scope — the backend's addressing parameters.
#[derive(Debug, Clone)]
pub struct MemoryScope {
    /// Backend user key — always `tenant:{tenant_id}`.
    pub user_id: String,
    /// Optional: scopes to a specific agent.
    pub agent_id: Option<String>,
    /// Optional: scopes to a specific session.
    pub run_id: Option<String>,
}

impl MemoryScope {
    /// Build a tenant-scoped memory scope (broadest — all agents in tenant).
    pub fn for_tenant(tenant_id: &TenantId) -> (r: Self)
        ensures
            r.user_id@ == "tenant:"@ + tenant_id@,
            r.agent_id is None,
            r.run_id is None,
    {
        let mut user_id = String::from_str("tenant:");
        let t = tenant_id.to_text();
        user_id.append(t.as_str());
        MemoryScope { user_id, agent_id: None, run_id: None }
    }

    /// Build an agent-scoped memory scope.
    pub fn for_agent(tenant_id: &TenantId, agent_id: &AgentId) -> (r: Self)
        ensures
            r.user_id@ == "tenant:"@ + tenant_id@,
            match r.agent_id {
                Some(a) => a@ == agent_id@,
                None => false,
            },
            r.run_id is None,
    {
        let mut user_id = String::from_str("tenant:");
        let t = tenant_id.to_text();
        user_id.append(t.as_str());
        MemoryScope { user_id, agent_id: Some(agent_id.to_text()), run_id: None }
    }

    /// Build a session-scoped memory scope (narrowest — one conversation).
    pub fn for_session(tenant_id: &TenantId, agent_id: &AgentId, session_id: &SessionId) -> (r:
        Self)
        ensures
            r.user_id@ == "tenant:"@ + tenant_id@,
            match r.agent_id {
                Some(a) => a@ == agent_id@,
                None => false,
            },
            match r.run_id {
                Some(s) => s@ == session_id@,
                None => false,
            },
    {
        let mut user_id = String::from_str("tenant:");
        let t = tenant_id.to_text();
        user_id.append(t.as_str());
        MemoryScope {
            user_id,
            agent_id: Some(agent_id.to_text()),
            run_id: Some(session_id.to_text()),
        }
    }
}

/// Model message roles.
#[derive(Debug, Clone, Copy, PartialEq, Eq, Structural)]
pub enum MessageRole {
    System,
    User,
    Assistant,
    Tool,
}

/// A single message in a memory add request or a conversation history.
#[derive(Debug, PartialEq)]
pub struct MemoryMessage {
    pub role: MessageRole,
    pub content: String,
}

impl Clone for MemoryMessage {
    fn clone(&self) -> (res: Self)
        ensures
            res == *self,
    {
        MemoryMessage { role: self.role, content: self.content.clone() }
    }
}

/// Request to add memories to the backend.
#[derive(Debug, Clone)]
pub struct MemoryAddRequest {
    pub messages: Vec<MemoryMessage>,
    pub scope: MemoryScope,
}

/// Request to search memories in the backend.
#[derive(Debug, Clone)]
pub struct MemorySearchRequest {
    pub query: String,
    pub scope: MemoryScope,
    pub limit: usize,
}

} // verus!
