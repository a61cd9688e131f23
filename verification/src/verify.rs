//! High-level verification — storage and chain verification composed.
//!
//! `LedgerVerifier` is the single entry point an external caller uses to
//! audit a tenant. An audit either returns a report with `intact: true`
//! or fails with a descriptive error; there is no silent partial result.

use vstd::prelude::*;

use crate::chain::{chain_ok, link_ok, verify_chain, violation_cites};
use crate::error::AetherError;
use crate::ids::TenantId;
use crate::ledger::LedgerBlock;
use crate::storage::{tenant_chain, LedgerStorage};

verus! {

/// Result of a clean ledger audit.
#[derive(Debug, Clone)]
pub struct VerificationReport {
    pub tenant_id: TenantId,
    pub blocks_verified: u64,
    pub intact: bool,
}

/// Verifies a tenant's full ledger chain from storage.
pub struct LedgerVerifier<S: LedgerStorage> {
    storage: S,
}

impl<S: LedgerStorage> LedgerVerifier<S> {
    /// The backing store.
    pub closed spec fn spec_storage(&self) -> S {
        self.storage
    }

    pub fn new(storage: S) -> (r: Self)
        ensures
            r.spec_storage() == storage,
    {
        LedgerVerifier { storage }
    }

    /// Fetch all blocks for a tenant and verify the hash chain.
    ///
    /// A report comes back exactly when the tenant's stored chain is
    /// unbroken; a broken chain surfaces as a chain-integrity violation,
    /// and storage failures are propagated unchanged.
    pub fn verify_tenant(&self, tenant_id: &TenantId) -> (r: Result<
        VerificationReport,
        AetherError,
    >)
        requires
            self.spec_storage().inv(),
        ensures
            ({
                let chain = tenant_chain(self.spec_storage().chains(), tenant_id@);
                match r {
                    Ok(rep) => {
                        &&& chain_ok(chain)
                        &&& rep.tenant_id@ == tenant_id@
                        &&& rep.blocks_verified == chain.len()
                        &&& rep.intact
                    },
                    Err(e) => match e {
                        AetherError::LedgerIntegrityViolation { .. } => !chain_ok(chain)
                            && exists|j: int|
                            0 <= j < chain.len() && !link_ok(chain, j) && (forall|k: int|
                                0 <= k < j ==> #[trigger] link_ok(chain, k)) && violation_cites(
                                e,
                                chain,
                                j,
                            ),
                        AetherError::StorageError(..) => !self.spec_storage().infallible(),
                        _ => false,
                    },
                }
            }),
    {
        let blocks: Vec<LedgerBlock> = match self.storage.get_blocks(tenant_id) {
            Ok(v) => v,
            Err(e) => {
                return Err(e);
            },
        };
        let count = blocks.len() as u64;
        match verify_chain(&blocks) {
            Ok(()) => Ok(
                VerificationReport {
                    tenant_id: tenant_id.clone(),
                    blocks_verified: count,
                    intact: true,
                },
            ),
            Err(e) => Err(e),
        }
    }
}

} // verus!
