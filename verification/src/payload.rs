//! The structured payload type used for tool inputs and outputs.
//!
//! Payloads are `serde_json::Value`s. The value itself is opaque here; the
//! ledger only ever needs its canonical serialized text, which is digested
//! into a content hash and then dropped.

use vstd::prelude::*;

verus! {

#[verifier::external_type_specification]
#[verifier::external_body]
pub struct ExValue(serde_json::Value);

/// Relies on `serde_json::Value::clone`: an ordinary deep copy.
pub assume_specification[ <serde_json::Value as Clone>::clone ](
    v: &serde_json::Value,
) -> serde_json::Value;

/// The explicit "no value" payload.
///
/// Relies on `serde_json::Value::Null` being a plain unit constructor.
#[verifier::external_body]
pub fn json_null() -> serde_json::Value {
    serde_json::Value::Null
}

/// The canonical serialized text of a payload: a function of the value
/// alone (object keys live in a sorted map in this build, so structurally
/// equal payloads serialize identically).
pub uninterp spec fn json_text_of(v: serde_json::Value) -> Seq<char>;

/// Relies on `serde_json::to_string`: the canonical serialized text of a
/// payload, a function of the value alone. On the one failure mode
/// serialization has (none for a plain `Value`), the empty text stands in.
#[verifier::external_body]
pub(crate) fn json_canonical_text(v: &serde_json::Value) -> (r: String)
    ensures
        r@ == json_text_of(*v),
{
    serde_json::to_string(v).unwrap_or_default()
}

} // verus!
