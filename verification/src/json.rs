//! JSON parsing and canonical re-serialization, delegated to serde_json.
//!
//! The relay treats a JSON document as the text it was parsed from. Two
//! uninterpreted names tie the outside calls together: `json_wf` says
//! whether a text is a well-formed JSON document, and `json_canon` gives
//! the canonical byte serialization of the document a text denotes. Both
//! depend on the text alone, so equal texts give equal canonical bytes —
//! the fact the content-addressing argument rests on.

use vstd::prelude::*;

verus! {

/// Whether a text is a JSON document the parser accepts: syntactically
/// valid JSON of any shape (object, array or scalar), with numbers in
/// the implementation's range.
pub uninterp spec fn json_wf(s: Seq<char>) -> bool;

/// The canonical (compact) byte serialization of the JSON document that
/// the well-formed text `s` denotes.
pub uninterp spec fn json_canon(s: Seq<char>) -> Seq<u8>;

/// serde_json's document type, held opaquely between the parse and the
/// re-serialization; no field of it is ever read here.
#[verifier::external_type_specification]
#[verifier::external_body]
pub struct ExValue(serde_json::Value);

/// A parsed JSON document, paired with the text it was parsed from.
/// Values exist only by way of [`parse_json`], so the recorded text
/// always is the source of the held document.
pub(crate) struct JsonDoc {
    value: serde_json::Value,
    text: String,
}

impl JsonDoc {
    /// The text this document was parsed from.
    pub closed spec fn src_text(&self) -> Seq<char> {
        self.text@
    }
}

/// Relies on serde_json::from_str: parsing succeeds exactly on the
/// texts that are well-formed JSON documents in the sense of
/// [`json_wf`], and yields the document those texts denote.
#[verifier::external_body]
pub(crate) fn parse_json(s: &str) -> (r: Option<JsonDoc>)
    ensures
        r is Some <==> json_wf(s@),
        r matches Some(d) ==> d.src_text() == s@,
{
    match serde_json::from_str::<serde_json::Value>(s) {
        Ok(value) => Some(JsonDoc { value, text: s.to_string() }),
        Err(_) => None,
    }
}

/// Relies on serde_json::to_vec: serializing a parsed document gives its
/// compact byte form, a function of the source text alone. On a document
/// of its own making serde_json fails only under resource exhaustion, so
/// success is not promised; callers map `None` to their local-failure
/// error.
#[verifier::external_body]
pub(crate) fn doc_bytes(d: &JsonDoc) -> (r: Option<Vec<u8>>)
    ensures
        r matches Some(b) ==> b@ == json_canon(d.src_text()),
{
    serde_json::to_vec(&d.value).ok()
}

} // verus!
