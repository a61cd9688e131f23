//! Tenant domain model — multi-tenancy primitives.
//!
//! Every data structure in the platform carries a tenant identifier.
//! Quota configuration carries a monetary budget and lives with the
//! unverified budget layer; only the tier and role lattices live here.

use vstd::prelude::*;

verus! {

/// Tenant service tier — controls feature access and resource limits.
#[derive(Debug, Clone, PartialEq, Eq, Structural, Default)]
pub enum TenantTier {
    /// Free tier — limited agents, tools, and budget.
    #[default]
    Free,
    /// Pro tier — expanded limits.
    Pro,
    /// Enterprise tier — custom limits, dedicated resources.
    Enterprise,
    /// System tenant.
    Internal,
}

/// Role-based access level for human users within a tenant, ordered from
/// least to most privileged.
#[derive(Debug, Clone, PartialEq, Eq, PartialOrd, Ord, Structural)]
pub enum UserRole {
    /// Read-only access.
    Viewer,
    /// Develop and run agents.
    Developer,
    /// Manage agents and workflows.
    Admin,
    /// Full tenant control.
    Owner,
}

} // verus!
