//! Policy rule primitives — agent tiers, actions, and rule effects.
//!
//! Rule conditions that gate on monetary budget fractions live with the
//! unverified policy engine; the tier lattice and the closed sets of
//! actions and effects live here.

use vstd::prelude::*;

verus! {

/// An agent's operational tier. Lower number means higher privilege.
#[derive(Debug, Clone, Copy, PartialEq, Eq, PartialOrd, Ord, Structural)]
pub struct AgentTier(pub u8);

impl AgentTier {
    /// The orchestrating tier, most privileged.
    pub fn boss() -> (r: Self)
        ensures
            r.0 == 1,
    {
        AgentTier(1)
    }

    /// The specialist tier.
    pub fn specialist() -> (r: Self)
        ensures
            r.0 == 2,
    {
        AgentTier(2)
    }

    /// The worker tier.
    pub fn worker() -> (r: Self)
        ensures
            r.0 == 3,
    {
        AgentTier(3)
    }

    /// The sensor tier, least privileged.
    pub fn sensor() -> (r: Self)
        ensures
            r.0 == 4,
    {
        AgentTier(4)
    }

    /// True when this tier meets the minimum required for access.
    pub fn meets(&self, required: AgentTier) -> (r: bool)
        ensures
            r == (self.0 <= required.0),
    {
        self.0 <= required.0
    }
}

/// Which action is being evaluated.
#[derive(Debug, Clone, Copy, PartialEq, Eq, Structural)]
pub enum PolicyAction {
    ToolExecute,
    AgentSpawn,
    MemoryWrite,
    MemoryDelete,
    WorkflowRun,
    WorkflowCreate,
    WorkflowDelete,
    CronCreate,
    HumanReviewApprove,
    SystemConfig,
}

/// Whether the rule permits or denies the action.
#[derive(Debug, Clone, PartialEq, Eq)]
pub enum PolicyEffect {
    Allow,
    Deny { reason: &'static str },
}

} // verus!
