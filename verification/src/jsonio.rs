//! The library's one boundary with serde_json: JSON documents are
//! carried through the gateway as opaque `serde_json::Value`s, and
//! the only question the logic ever asks of the text of one is
//! whether it parses at all.

use vstd::prelude::*;

verus! {

/// serde_json's dynamic document type, declared so that values of it
/// can ride through the library's types; the library never looks
/// inside one.
#[verifier::external_type_specification]
#[verifier::external_body]
pub struct ExValue(serde_json::Value);

/// Whether serde_json accepts `s` as one well-formed JSON document.
pub uninterp spec fn json_document(s: Seq<char>) -> bool;

/// Relies on serde_json::from_str::<Value>, which parses any
/// syntactically well-formed JSON document and rejects everything
/// else; acceptance depends on the text alone.
#[verifier::external_body]
pub(crate) fn parse_json(s: &str) -> (r: Option<serde_json::Value>)
    ensures
        r is Some <==> json_document(s@),
{
    match serde_json::from_str::<serde_json::Value>(s) {
        Ok(v) => Some(v),
        Err(_) => None,
    }
}

} // verus!
