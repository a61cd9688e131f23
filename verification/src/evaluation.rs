//! Policy evaluation result types.
//!
//! The full evaluation context carries monetary budget fractions and lives
//! with the unverified policy engine; the resource and decision types are
//! plain values and live here.

use vstd::prelude::*;

use crate::ids::{AgentId, TaskId, ToolId, WorkflowId};
use crate::rules::AgentTier;
use crate::tool::ToolAccessLevel;

verus! {

/// The resource being acted upon.
#[derive(Debug, Clone)]
pub enum PolicyResource {
    Tool { tool_id: ToolId, access_level: ToolAccessLevel, agent_id: AgentId, task_id: TaskId },
    Agent { agent_id: AgentId, tier: AgentTier },
    Workflow { workflow_id: WorkflowId },
    Memory { scope: String },
}

#[derive(Debug, Clone, Copy, PartialEq, Eq, Structural)]
pub enum DecisionEffect {
    Allow,
    Deny,
}

/// Policy decision returned by the engine.
#[derive(Debug, PartialEq)]
pub struct PolicyDecision {
    pub effect: DecisionEffect,
    pub matched_rule: String,
    pub reason: String,
}

impl Clone for PolicyDecision {
    fn clone(&self) -> (res: Self)
        ensures
            res == *self,
    {
        PolicyDecision {
            effect: self.effect,
            matched_rule: self.matched_rule.clone(),
            reason: self.reason.clone(),
        }
    }
}

impl PolicyDecision {
    /// An allow decision citing the rule that matched.
    pub fn allow(rule_id: &str) -> (r: Self)
        ensures
            r.effect == DecisionEffect::Allow,
            r.matched_rule@ == rule_id@,
            r.reason@ == "allowed by policy"@,
    {
        PolicyDecision {
            effect: DecisionEffect::Allow,
            matched_rule: rule_id.to_owned(),
            reason: String::from_str("allowed by policy"),
        }
    }

    /// A deny decision citing the rule that matched and why.
    pub fn deny(rule_id: &str, reason: &str) -> (r: Self)
        ensures
            r.effect == DecisionEffect::Deny,
            r.matched_rule@ == rule_id@,
            r.reason@ == reason@,
    {
        PolicyDecision {
            effect: DecisionEffect::Deny,
            matched_rule: rule_id.to_owned(),
            reason: reason.to_owned(),
        }
    }

    pub fn is_allowed(&self) -> (r: bool)
        ensures
            r == (self.effect == DecisionEffect::Allow),
    {
        self.effect == DecisionEffect::Allow
    }
}

} // verus!
