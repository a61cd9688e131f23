//! Content digesting behind a trusted boundary.
//!
//! The digest algorithm itself is not restated here: its result is given a
//! name, `sha256_hex_of`, which is a function of the input text alone, and
//! every contract downstream speaks of that name.

use sha2::Digest;

use vstd::prelude::*;

use crate::text::is_lower_hex_char;

verus! {

/// The lowercase hex rendering of the 256-bit digest of a text.
pub uninterp spec fn sha256_hex_of(s: Seq<char>) -> Seq<char>;

/// Relies on `sha2::Sha256` over the text's UTF-8 bytes, and on lowercase
/// hex formatting of the 32-byte digest: the result is 64 lowercase hex
/// characters and depends on the input text alone.
#[verifier::external_body]
pub(crate) fn sha256_hex(s: &str) -> (r: String)
    ensures
        r@ == sha256_hex_of(s@),
        r@.len() == 64,
        forall|i: int| 0 <= i < r@.len() ==> is_lower_hex_char(#[trigger] r@[i]),
{
    let mut hasher = sha2::Sha256::new();
    hasher.update(s.as_bytes());
    format!("{:x}", hasher.finalize())
}

} // verus!
