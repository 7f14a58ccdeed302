//! Whether a cached text can be served as a document.
//!
//! Cached values are stored verbatim and never re-validated against a
//! schema; the only question the retrieval protocol asks of one is
//! whether it still parses as JSON at all, and a hit whose text does not
//! degrades to the null document instead of failing the request.

use vstd::prelude::*;

verus! {

/// Whether `s` parses as a JSON document. The grammar belongs to
/// serde_json; the library needs only that the same text always gets the
/// same answer.
pub uninterp spec fn json_well_formed(s: Seq<char>) -> bool;

/// Relies on serde_json::from_str::<Value>: returns whether the text
/// parses as JSON, and the answer is a function of the text alone.
#[verifier::external_body]
pub(crate) fn is_well_formed_json(s: &str) -> (r: bool)
    ensures
        r == json_well_formed(s@),
{
    match serde_json::from_str::<serde_json::Value>(s) {
        Ok(_) => true,
        Err(_) => false,
    }
}

} // verus!
