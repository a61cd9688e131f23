//! Ledger chain integrity verification.
//!
//! A block's chain-hash is the digest of its canonical string. A sequence
//! of blocks is an unbroken chain when the first block's parent hash is
//! the genesis sentinel and every later block carries the chain-hash of
//! its predecessor.

use vstd::prelude::*;

use crate::digest::{sha256_hex, sha256_hex_of};
use crate::error::AetherError;
use crate::ledger::{genesis_text, is_hash_text, is_lower_hash_text, BlockHash, LedgerBlock};

verus! {

/// Compute the block's own chain-hash (the `parent_hash` the next block
/// in the chain must carry).
///
/// Hashes the canonical string
/// `{id}|{seq}|{input_hash}|{output_hash}|{parent_hash}` — only the five
/// chained fields participate, so unrelated fields such as the timestamp
/// cannot affect the chain.
pub fn compute_block_hash(block: &LedgerBlock) -> (r: BlockHash)
    ensures
        r.0@ == sha256_hex_of(block.canonical_text()),
        is_hash_text(r.0@),
        is_lower_hash_text(r.0@),
{
    let canonical = block.canonical_string();
    let hex = sha256_hex(canonical.as_str());
    BlockHash(hex)
}

/// Whether link `i` of the chain is intact: the first block's parent is
/// the genesis sentinel, every later block's parent is the chain-hash of
/// its predecessor.
pub open spec fn link_ok(s: Seq<LedgerBlock>, i: int) -> bool
    recommends
        0 <= i < s.len(),
{
    if i == 0 {
        s[0].parent_hash.0@ == genesis_text()
    } else {
        s[i].parent_hash.0@ == sha256_hex_of(s[i - 1].canonical_text())
    }
}

/// An unbroken chain: every link is intact. Vacuously true when empty.
pub open spec fn chain_ok(s: Seq<LedgerBlock>) -> bool {
    forall|i: int| 0 <= i < s.len() ==> #[trigger] link_ok(s, i)
}

/// Whether the error cites the offending block `j`: its identifier and
/// sequence number, the hash that was expected there, and the hash found.
pub open spec fn violation_cites(e: AetherError, s: Seq<LedgerBlock>, j: int) -> bool {
    match e {
        AetherError::LedgerIntegrityViolation {
            block_id,
            sequence_number,
            expected_hash,
            found_hash,
        } => {
            &&& block_id@ == s[j].id@
            &&& sequence_number == s[j].sequence_number
            &&& expected_hash@ == if j == 0 {
                genesis_text()
            } else {
                sha256_hex_of(s[j - 1].canonical_text())
            }
            &&& found_hash@ == s[j].parent_hash.0@
        },
        _ => false,
    }
}

/// Verify the integrity of an ordered sequence of ledger blocks.
///
/// `blocks` must already be sorted by ascending sequence number for one
/// tenant; this function is a pure predicate over its input. An empty
/// input verifies trivially. On the first broken link it fails with a
/// chain-integrity violation citing the offending block.
pub fn verify_chain(blocks: &Vec<LedgerBlock>) -> (r: Result<(), AetherError>)
    ensures
        r.is_ok() <==> chain_ok(blocks@),
        match r {
            Ok(()) => true,
            Err(e) => exists|j: int|
                0 <= j < blocks@.len() && !link_ok(blocks@, j) && (forall|k: int|
                    0 <= k < j ==> #[trigger] link_ok(blocks@, k)) && violation_cites(
                    e,
                    blocks@,
                    j,
                ),
        },
{
    let n = blocks.len();
    if n == 0 {
        return Ok(());
    }
    // First block's parent must be the genesis hash.
    let genesis = BlockHash::genesis();
    if !(blocks[0].parent_hash == genesis) {
        let e = AetherError::LedgerIntegrityViolation {
            block_id: blocks[0].id.to_text(),
            sequence_number: blocks[0].sequence_number,
            expected_hash: genesis.0,
            found_hash: blocks[0].parent_hash.0.clone(),
        };
        proof {
            assert(!link_ok(blocks@, 0));
            assert(violation_cites(e, blocks@, 0));
        }
        return Err(e);
    }
    // Each later block's parent hash must be the chain-hash of its predecessor.
    let mut i: usize = 1;
    while i < n
        invariant
            n == blocks@.len(),
            1 <= i <= n,
            forall|k: int| 0 <= k < i ==> #[trigger] link_ok(blocks@, k),
        decreases n - i,
    {
        let expected = compute_block_hash(&blocks[i - 1]);
        if !(blocks[i].parent_hash == expected) {
            let e = AetherError::LedgerIntegrityViolation {
                block_id: blocks[i].id.to_text(),
                sequence_number: blocks[i].sequence_number,
                expected_hash: expected.0,
                found_hash: blocks[i].parent_hash.0.clone(),
            };
            proof {
                assert(!link_ok(blocks@, i as int));
                assert(violation_cites(e, blocks@, i as int));
            }
            return Err(e);
        }
        i = i + 1;
    }
    Ok(())
}

/// The empty chain verifies trivially.
pub proof fn lemma_empty_chain_ok()
    ensures
        chain_ok(Seq::<LedgerBlock>::empty()),
{
}

/// A one-block chain is intact exactly when that block's parent hash is
/// the genesis sentinel.
pub proof fn lemma_single_block_chain(b: LedgerBlock)
    ensures
        chain_ok(seq![b]) <==> b.parent_hash.0@ == genesis_text(),
{
    let s = seq![b];
    if b.parent_hash.0@ == genesis_text() {
        assert forall|i: int| 0 <= i < s.len() implies #[trigger] link_ok(s, i) by {
            assert(i == 0);
        }
    }
    if chain_ok(s) {
        assert(link_ok(s, 0));
    }
}

/// A two-block chain whose second block carries the chain-hash of the
/// first is intact, provided the first is anchored at genesis.
pub proof fn lemma_two_block_chain(b1: LedgerBlock, b2: LedgerBlock)
    requires
        b1.parent_hash.0@ == genesis_text(),
        b2.parent_hash.0@ == sha256_hex_of(b1.canonical_text()),
    ensures
        chain_ok(seq![b1, b2]),
{
    let s = seq![b1, b2];
    assert forall|i: int| 0 <= i < s.len() implies #[trigger] link_ok(s, i) by {
        if i == 0 {
            assert(s[0] == b1);
        } else {
            assert(i == 1 && s[0] == b1 && s[1] == b2);
        }
    }
}

/// Tampering with the second block's parent hash — any value other than
/// the first block's chain-hash — breaks the chain.
pub proof fn lemma_tampered_link_detected(b1: LedgerBlock, b2: LedgerBlock)
    requires
        b2.parent_hash.0@ != sha256_hex_of(b1.canonical_text()),
    ensures
        !chain_ok(seq![b1, b2]),
{
    let s = seq![b1, b2];
    assert(s[1] == b2 && s[0] == b1);
    assert(!link_ok(s, 1));
}

} // verus!
