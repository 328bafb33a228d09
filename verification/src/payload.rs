//! The payload that the cache carries: one JSON document of the provider.
//!
//! A payload is never looked into. It is parsed once from the bytes of an
//! upstream answer, kept, copied and handed out as it is.

use vstd::prelude::*;

verus! {

/// A JSON document, `serde_json::Value`. Nothing of its inside is visible to
/// the proofs: two payloads are equal or they are not.
#[verifier::external_type_specification]
#[verifier::external_body]
pub struct ExValue(serde_json::Value);

/// The reason `serde_json` gives for refusing a text, `serde_json::Error`.
#[verifier::external_type_specification]
#[verifier::external_body]
pub struct ExJsonError(serde_json::Error);

/// `Clone::clone` of `serde_json::Value`, which the type derives: the copy is
/// the same document as the one it was taken from. Trusted, not proved.
pub assume_specification[ <serde_json::Value as Clone>::clone ](
    document: &serde_json::Value,
) -> (copy: serde_json::Value)
    ensures
        copy == *document,
;

/// The document that `serde_json::from_slice` reads from `text`, or `None`
/// where it refuses the text. The parser looks at nothing but the bytes.
pub uninterp spec fn json_document(text: Seq<u8>) -> Option<serde_json::Value>;

/// Calls `serde_json::from_slice` for a `serde_json::Value`. The contract
/// claims only that the outcome is the one that the bytes determine, under
/// the name [`json_document`]; which texts are accepted is not stated.
/// Trusted, not proved.
#[verifier::external_body]
pub(crate) fn parse_document(text: &[u8]) -> (parsed: Result<serde_json::Value, serde_json::Error>)
    ensures
        match parsed {
            Ok(document) => json_document(text@) == Some(document),
            Err(_) => json_document(text@) is None,
        },
{
    serde_json::from_slice::<serde_json::Value>(text)
}

} // verus!
