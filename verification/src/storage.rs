//! Ledger storage — the minimal durable-store contract and an in-memory
//! reference implementation.
//!
//! Storage does not validate chain integrity on write: callers supply
//! correctly-sequenced, correctly-linked blocks, and verification is a
//! read-time concern. Tenant isolation is a hard guarantee: one tenant's
//! operations never observe or affect another tenant's blocks.

use vstd::prelude::*;

use crate::error::AetherError;
use crate::ids::{LedgerBlockId, TenantId};
use crate::ledger::LedgerBlock;

verus! {

/// The chain a store holds for tenant text `t`; empty when the tenant has
/// no blocks yet.
pub open spec fn tenant_chain(m: Map<Seq<char>, Seq<LedgerBlock>>, t: Seq<char>) -> Seq<
    LedgerBlock,
> {
    if m.contains_key(t) {
        m[t]
    } else {
        Seq::empty()
    }
}

/// The model of one append: the block goes to the end of its tenant's
/// chain; every other tenant's chain is untouched.
pub open spec fn append_model(m: Map<Seq<char>, Seq<LedgerBlock>>, b: LedgerBlock) -> Map<
    Seq<char>,
    Seq<LedgerBlock>,
> {
    m.insert(b.tenant_id@, tenant_chain(m, b.tenant_id@) + seq![b])
}

/// Whether some block in the chain carries this identifier text.
pub open spec fn chain_has_id(c: Seq<LedgerBlock>, id: Seq<char>) -> bool {
    exists|i: int| 0 <= i < c.len() && #[trigger] c[i].id@ == id
}

/// Whether any chain in the store holds a block with this identifier text.
pub open spec fn store_has_id(m: Map<Seq<char>, Seq<LedgerBlock>>, id: Seq<char>) -> bool {
    exists|t: Seq<char>| #[trigger] m.contains_key(t) && chain_has_id(m[t], id)
}

/// Whether some chain in the store holds exactly this block.
pub open spec fn store_has_block(m: Map<Seq<char>, Seq<LedgerBlock>>, b: LedgerBlock) -> bool {
    exists|t: Seq<char>| #[trigger] m.contains_key(t) && m[t].contains(b)
}

/// Storage contract — allows swapping a real backend for a test double.
///
/// A backend may fail with a storage error on any operation (an I/O or
/// lock failure), but it never lies about its contents and never silently
/// drops a block.
pub trait LedgerStorage: Sized {
    /// The abstract store contents: each tenant's ordered chain, keyed by
    /// the tenant identifier's text.
    spec fn chains(&self) -> Map<Seq<char>, Seq<LedgerBlock>>;

    /// Backend well-formedness, established at construction and preserved
    /// by every operation.
    spec fn inv(&self) -> bool;

    /// Whether this backend can never fail with a storage error: true of
    /// the in-memory store, false of anything that does I/O or locking.
    spec fn infallible(&self) -> bool;

    /// Persist a block under its tenant's chain, or fail with a storage
    /// error and leave the store unchanged.
    fn append(&mut self, block: LedgerBlock) -> (r: Result<(), AetherError>)
        requires
            old(self).inv(),
        ensures
            final(self).inv(),
            final(self).infallible() == old(self).infallible(),
            match r {
                Ok(()) => final(self).chains() == append_model(old(self).chains(), block),
                Err(e) => final(self).chains() == old(self).chains() && e is StorageError
                    && !old(self).infallible(),
            },
    ;

    /// All blocks for a tenant, in the order they were appended.
    /// Blocks of other tenants are never returned.
    fn get_blocks(&self, tenant_id: &TenantId) -> (r: Result<Vec<LedgerBlock>, AetherError>)
        requires
            self.inv(),
        ensures
            match r {
                Ok(v) => v@ == tenant_chain(self.chains(), tenant_id@),
                Err(e) => e is StorageError && !self.infallible(),
            },
    ;

    /// A single block by identifier, regardless of tenant; not-found
    /// exactly when no chain holds a block with that identifier.
    fn get_block(&self, block_id: &LedgerBlockId) -> (r: Result<LedgerBlock, AetherError>)
        requires
            self.inv(),
        ensures
            match r {
                Ok(b) => b.id@ == block_id@ && store_has_block(self.chains(), b),
                Err(e) => match e {
                    AetherError::NotFound { resource, id } => resource@ == "LedgerBlock"@ && id@
                        == block_id@ && !store_has_id(self.chains(), block_id@),
                    AetherError::StorageError(..) => !self.infallible(),
                    _ => false,
                },
            },
    ;

    /// The number of blocks stored for a tenant (zero if none).
    fn count(&self, tenant_id: &TenantId) -> (r: Result<u64, AetherError>)
        requires
            self.inv(),
        ensures
            match r {
                Ok(n) => n == tenant_chain(self.chains(), tenant_id@).len(),
                Err(e) => e is StorageError && !self.infallible(),
            },
    ;
}

/// One tenant's chain, as stored.
struct ChainEntry {
    tenant_id: TenantId,
    blocks: Vec<LedgerBlock>,
}

/// Whether some entry carries tenant text `t`.
spec fn has_key(es: Seq<ChainEntry>, t: Seq<char>) -> bool {
    exists|i: int| 0 <= i < es.len() && #[trigger] es[i].tenant_id@ == t
}

/// The index of the entry carrying tenant text `t`.
spec fn index_of(es: Seq<ChainEntry>, t: Seq<char>) -> int {
    choose|i: int| 0 <= i < es.len() && #[trigger] es[i].tenant_id@ == t
}

/// No two entries share a tenant.
spec fn uniq(es: Seq<ChainEntry>) -> bool {
    forall|i: int, j: int|
        0 <= i < es.len() && 0 <= j < es.len() && i != j ==> #[trigger] es[i].tenant_id@
            != #[trigger] es[j].tenant_id@
}

/// The abstract contents of a list of entries.
spec fn chains_of(es: Seq<ChainEntry>) -> Map<Seq<char>, Seq<LedgerBlock>> {
    Map::new(|t: Seq<char>| has_key(es, t), |t: Seq<char>| es[index_of(es, t)].blocks@)
}

/// Under uniqueness, entry `i` is exactly what the abstract map holds at
/// its tenant's key.
proof fn lemma_entry_lookup(es: Seq<ChainEntry>, t: Seq<char>, i: int)
    requires
        uniq(es),
        0 <= i < es.len(),
        es[i].tenant_id@ == t,
    ensures
        has_key(es, t),
        chains_of(es).contains_key(t),
        chains_of(es)[t] == es[i].blocks@,
        index_of(es, t) == i,
{
    assert(has_key(es, t));
    let j = index_of(es, t);
    assert(0 <= j < es.len() && es[j].tenant_id@ == t);
    if j != i {
        assert(es[i].tenant_id@ != es[j].tenant_id@);
    }
}

/// In-memory ledger storage — suitable for testing.
pub struct InMemoryLedgerStorage {
    entries: Vec<ChainEntry>,
}

impl InMemoryLedgerStorage {
    pub fn new() -> (r: Self)
        ensures
            r.inv(),
            r.infallible(),
            r.chains() == Map::<Seq<char>, Seq<LedgerBlock>>::empty(),
    {
        let r = InMemoryLedgerStorage { entries: Vec::new() };
        proof {
            assert(r.chains() =~= Map::<Seq<char>, Seq<LedgerBlock>>::empty());
        }
        r
    }

    /// The index of the entry for this tenant, if there is one.
    fn find_entry(&self, tenant_id: &TenantId) -> (r: Option<usize>)
        requires
            self.inv(),
        ensures
            match r {
                Some(i) => i < self.entries@.len() && self.entries@[i as int].tenant_id@
                    == tenant_id@,
                None => !has_key(self.entries@, tenant_id@),
            },
    {
        let n = self.entries.len();
        let mut i: usize = 0;
        while i < n
            invariant
                n == self.entries@.len(),
                i <= n,
                forall|j: int| 0 <= j < i ==> #[trigger] self.entries@[j].tenant_id@ != tenant_id@,
            decreases n - i,
        {
            if self.entries[i].tenant_id == *tenant_id {
                return Some(i);
            }
            i = i + 1;
        }
        None
    }
}

impl Default for InMemoryLedgerStorage {
    fn default() -> (r: Self)
        ensures
            r.inv(),
            r.infallible(),
            r.chains() == Map::<Seq<char>, Seq<LedgerBlock>>::empty(),
    {
        InMemoryLedgerStorage::new()
    }
}

impl LedgerStorage for InMemoryLedgerStorage {
    closed spec fn chains(&self) -> Map<Seq<char>, Seq<LedgerBlock>> {
        chains_of(self.entries@)
    }

    closed spec fn inv(&self) -> bool {
        uniq(self.entries@)
    }

    closed spec fn infallible(&self) -> bool {
        true
    }

    fn append(&mut self, block: LedgerBlock) -> (r: Result<(), AetherError>)
        ensures
            r is Ok,
    {
        let ghost b = block;
        let ghost old_es = self.entries@;
        let ghost t = block.tenant_id@;
        match self.find_entry(&block.tenant_id) {
            Some(i) => {
                let entry = &mut self.entries[i];
                entry.blocks.push(block);
                proof {
                    let es = self.entries@;
                    assert(es.len() == old_es.len());
                    assert(es[i as int].tenant_id == old_es[i as int].tenant_id);
                    assert(es[i as int].blocks@ =~= old_es[i as int].blocks@ + seq![b]);
                    assert(forall|j: int| 0 <= j < es.len() && j != i ==> es[j] == old_es[j]);
                    assert(uniq(es)) by {
                        assert forall|x: int, y: int|
                            0 <= x < es.len() && 0 <= y < es.len() && x != y implies #[trigger] es[x].tenant_id@
                            != #[trigger] es[y].tenant_id@ by {
                            assert(es[x].tenant_id@ == old_es[x].tenant_id@);
                            assert(es[y].tenant_id@ == old_es[y].tenant_id@);
                        }
                    }
                    lemma_entry_lookup(old_es, t, i as int);
                    lemma_entry_lookup(es, t, i as int);
                    assert(chains_of(es) =~= append_model(chains_of(old_es), b)) by {
                        assert forall|k: Seq<char>| #[trigger]
                            chains_of(es).contains_key(k) == append_model(
                                chains_of(old_es),
                                b,
                            ).contains_key(k) by {
                            if k == t {
                            } else {
                                assert(has_key(es, k) == has_key(old_es, k)) by {
                                    if has_key(es, k) {
                                        let w = choose|w: int|
                                            0 <= w < es.len() && #[trigger] es[w].tenant_id@ == k;
                                        assert(old_es[w].tenant_id@ == k);
                                    }
                                    if has_key(old_es, k) {
                                        let w = choose|w: int|
                                            0 <= w < old_es.len() && #[trigger] old_es[w].tenant_id@
                                                == k;
                                        assert(es[w].tenant_id@ == k);
                                    }
                                }
                            }
                        }
                        assert forall|k: Seq<char>|
                            chains_of(es).contains_key(k) && append_model(
                                chains_of(old_es),
                                b,
                            ).contains_key(k) implies #[trigger] chains_of(es)[k] == append_model(
                            chains_of(old_es),
                            b,
                        )[k] by {
                            if k == t {
                                assert(chains_of(es)[k] == es[i as int].blocks@);
                                assert(append_model(chains_of(old_es), b)[k] == chains_of(old_es)[t]
                                    + seq![b]);
                            } else {
                                let w = choose|w: int|
                                    0 <= w < es.len() && #[trigger] es[w].tenant_id@ == k;
                                assert(w != i);
                                lemma_entry_lookup(es, k, w);
                                lemma_entry_lookup(old_es, k, w);
                            }
                        }
                    }
                }
            },
            None => {
                let tenant_id = block.tenant_id.clone();
                let mut blocks = Vec::new();
                blocks.push(block);
                self.entries.push(ChainEntry { tenant_id, blocks });
                proof {
                    let es = self.entries@;
                    let n = old_es.len() as int;
                    assert(es.len() == n + 1);
                    assert(es[n].tenant_id@ == t);
                    assert(es[n].blocks@ =~= seq![b]);
                    assert(forall|j: int| 0 <= j < n ==> es[j] == old_es[j]);
                    assert(uniq(es)) by {
                        assert forall|x: int, y: int|
                            0 <= x < es.len() && 0 <= y < es.len() && x != y implies #[trigger] es[x].tenant_id@
                            != #[trigger] es[y].tenant_id@ by {
                            if x < n && y < n {
                                assert(old_es[x].tenant_id@ != old_es[y].tenant_id@);
                            } else if x == n {
                                assert(!has_key(old_es, t));
                                assert(old_es[y].tenant_id@ != t);
                            } else {
                                assert(!has_key(old_es, t));
                                assert(old_es[x].tenant_id@ != t);
                            }
                        }
                    }
                    lemma_entry_lookup(es, t, n);
                    assert(chains_of(es) =~= append_model(chains_of(old_es), b)) by {
                        assert forall|k: Seq<char>| #[trigger]
                            chains_of(es).contains_key(k) == append_model(
                                chains_of(old_es),
                                b,
                            ).contains_key(k) by {
                            if k == t {
                            } else {
                                assert(has_key(es, k) == has_key(old_es, k)) by {
                                    if has_key(es, k) {
                                        let w = choose|w: int|
                                            0 <= w < es.len() && #[trigger] es[w].tenant_id@ == k;
                                        assert(w != n);
                                        assert(old_es[w].tenant_id@ == k);
                                    }
                                    if has_key(old_es, k) {
                                        let w = choose|w: int|
                                            0 <= w < old_es.len() && #[trigger] old_es[w].tenant_id@
                                                == k;
                                        assert(es[w].tenant_id@ == k);
                                    }
                                }
                            }
                        }
                        assert forall|k: Seq<char>|
                            chains_of(es).contains_key(k) && append_model(
                                chains_of(old_es),
                                b,
                            ).contains_key(k) implies #[trigger] chains_of(es)[k] == append_model(
                            chains_of(old_es),
                            b,
                        )[k] by {
                            if k == t {
                                assert(chains_of(es)[k] == es[n].blocks@);
                                assert(!chains_of(old_es).contains_key(t));
                                assert(append_model(chains_of(old_es), b)[k] =~= seq![b]);
                            } else {
                                let w = choose|w: int|
                                    0 <= w < es.len() && #[trigger] es[w].tenant_id@ == k;
                                assert(w != n);
                                lemma_entry_lookup(es, k, w);
                                lemma_entry_lookup(old_es, k, w);
                            }
                        }
                    }
                }
            },
        }
        Ok(())
    }

    fn get_blocks(&self, tenant_id: &TenantId) -> (r: Result<Vec<LedgerBlock>, AetherError>)
        ensures
            r is Ok,
    {
        match self.find_entry(tenant_id) {
            Some(i) => {
                let entry = &self.entries[i];
                let n = entry.blocks.len();
                let mut out: Vec<LedgerBlock> = Vec::new();
                let mut k: usize = 0;
                while k < n
                    invariant
                        n == entry.blocks@.len(),
                        k <= n,
                        out@.len() == k,
                        forall|q: int| 0 <= q < k ==> out@[q] == entry.blocks@[q],
                    decreases n - k,
                {
                    out.push(entry.blocks[k].clone());
                    k = k + 1;
                }
                proof {
                    lemma_entry_lookup(self.entries@, tenant_id@, i as int);
                    assert(out@ =~= tenant_chain(self.chains(), tenant_id@));
                }
                Ok(out)
            },
            None => {
                proof {
                    assert(!chains_of(self.entries@).contains_key(tenant_id@));
                }
                Ok(Vec::new())
            },
        }
    }

    fn get_block(&self, block_id: &LedgerBlockId) -> (r: Result<LedgerBlock, AetherError>)
        ensures
            store_has_id(self.chains(), block_id@) ==> r is Ok,
    {
        let n = self.entries.len();
        let mut i: usize = 0;
        while i < n
            invariant
                self.inv(),
                n == self.entries@.len(),
                i <= n,
                forall|e: int|
                    0 <= e < i ==> !chain_has_id(#[trigger] self.entries@[e].blocks@, block_id@),
            decreases n - i,
        {
            let entry = &self.entries[i];
            let m = entry.blocks.len();
            let mut j: usize = 0;
            while j < m
                invariant
                    self.inv(),
                    n == self.entries@.len(),
                    i < n,
                    *entry == self.entries@[i as int],
                    m == entry.blocks@.len(),
                    j <= m,
                    forall|q: int| 0 <= q < j ==> #[trigger] entry.blocks@[q].id@ != block_id@,
                decreases m - j,
            {
                if entry.blocks[j].id == *block_id {
                    let found = entry.blocks[j].clone();
                    proof {
                        assert(chain_has_id(entry.blocks@, block_id@));
                        lemma_entry_lookup(self.entries@, entry.tenant_id@, i as int);
                        assert(store_has_id(self.chains(), block_id@));
                    }
                    return Ok(found);
                }
                j = j + 1;
            }
            assert(!chain_has_id(self.entries@[i as int].blocks@, block_id@));
            i = i + 1;
        }
        proof {
            assert(!store_has_id(self.chains(), block_id@)) by {
                if store_has_id(self.chains(), block_id@) {
                    let t = choose|t: Seq<char>| #[trigger]
                        chains_of(self.entries@).contains_key(t) && chain_has_id(
                            chains_of(self.entries@)[t],
                            block_id@,
                        );
                    let w = index_of(self.entries@, t);
                    assert(0 <= w < self.entries@.len() && self.entries@[w].tenant_id@ == t);
                    lemma_entry_lookup(self.entries@, t, w);
                    assert(!chain_has_id(self.entries@[w].blocks@, block_id@));
                }
            }
        }
        Err(AetherError::not_found("LedgerBlock", block_id.to_text()))
    }

    fn count(&self, tenant_id: &TenantId) -> (r: Result<u64, AetherError>)
        ensures
            r is Ok,
    {
        match self.find_entry(tenant_id) {
            Some(i) => {
                proof {
                    lemma_entry_lookup(self.entries@, tenant_id@, i as int);
                }
                Ok(self.entries[i].blocks.len() as u64)
            },
            None => {
                proof {
                    assert(!chains_of(self.entries@).contains_key(tenant_id@));
                }
                Ok(0)
            },
        }
    }
}

/// The store after appending each block of `bs` in order.
pub open spec fn apply_appends(m: Map<Seq<char>, Seq<LedgerBlock>>, bs: Seq<LedgerBlock>) -> Map<
    Seq<char>,
    Seq<LedgerBlock>,
>
    decreases bs.len(),
{
    if bs.len() == 0 {
        m
    } else {
        apply_appends(append_model(m, bs[0]), bs.drop_first())
    }
}

/// Tenant isolation: appending any number of blocks, none of them for
/// tenant `t`, leaves tenant `t`'s chain exactly as it was — in
/// particular, a tenant with no blocks still has none, whatever other
/// tenants' histories grow to.
pub proof fn lemma_appends_isolate_tenant(
    m: Map<Seq<char>, Seq<LedgerBlock>>,
    bs: Seq<LedgerBlock>,
    t: Seq<char>,
)
    requires
        forall|i: int| 0 <= i < bs.len() ==> #[trigger] bs[i].tenant_id@ != t,
    ensures
        tenant_chain(apply_appends(m, bs), t) == tenant_chain(m, t),
    decreases bs.len(),
{
    if bs.len() > 0 {
        assert(bs[0].tenant_id@ != t);
        let m1 = append_model(m, bs[0]);
        assert(tenant_chain(m1, t) == tenant_chain(m, t));
        assert(forall|i: int|
            0 <= i < bs.drop_first().len() ==> #[trigger] bs.drop_first()[i].tenant_id@ != t);
        lemma_appends_isolate_tenant(m1, bs.drop_first(), t);
    }
}

} // verus!
