//! Reading JSON text. The parsing itself is `serde_json`'s; what it hands
//! back is carried over, value by value, into the library's own [`Json`].

use vstd::prelude::*;
use crate::error::ExtractError;
use crate::json::{Json, JsonValue, Member};

verus! {

/// `serde_json::Value`, carried through without a look inside.
#[verifier::external_type_specification]
#[verifier::external_body]
pub struct ExValue(serde_json::Value);

/// `serde_json::Error`, carried through without a look inside.
#[verifier::external_type_specification]
#[verifier::external_body]
pub struct ExError(serde_json::Error);

/// The document that `serde_json::from_str` reads from `text` as a
/// `serde_json::Value`, carried over into the library's own model; none
/// where it refuses `text`. `serde_json` keeps one member per name, the last
/// in the text, so such an object repeats no name.
pub uninterp spec fn json_document(text: Seq<char>) -> Option<JsonValue>;

/// Carries a `serde_json::Value` over into a [`Json`], variant by variant: a
/// number as the decimal text that its `Display` prints, an array item by
/// item, an object member by member in the order in which `serde_json::Map`
/// hands them out. Nothing is claimed of the result here; the claim is made
/// where the value is parsed.
#[verifier::external_body]
fn document_of(value: serde_json::Value) -> (doc: Json) {
    match value {
        serde_json::Value::Null => Json::Null,
        serde_json::Value::Bool(b) => Json::Bool(b),
        serde_json::Value::Number(n) => Json::Number(n.to_string()),
        serde_json::Value::String(s) => Json::Text(s),
        serde_json::Value::Array(items) => Json::Array(
            items.into_iter().map(document_of).collect(),
        ),
        serde_json::Value::Object(members) => Json::Object(
            members.into_iter().map(|(name, value)| Member { name, value: document_of(value) }).collect(),
        ),
    }
}

/// Calls `serde_json::from_str` for a `serde_json::Value`. The claim is that
/// the outcome depends on `text` alone: on success the document is the one
/// that [`json_document`] names for `text`, and a failure comes exactly where
/// it names none.
#[verifier::external_body]
fn read_document(text: &str) -> (read: Result<Json, serde_json::Error>)
    ensures
        match read {
            Ok(doc) => json_document(text@) == Some(doc@),
            Err(_) => json_document(text@) is None,
        },
{
    serde_json::from_str::<serde_json::Value>(text).map(document_of)
}

/// Parses `text` as JSON.
pub fn parse_json(text: &str) -> (parsed: Result<Json, ExtractError>)
    ensures
        match parsed {
            Ok(doc) => json_document(text@) == Some(doc@),
            Err(e) => json_document(text@) is None && e == ExtractError::InvalidPayload,
        },
{
    match read_document(text) {
        Ok(doc) => Ok(doc),
        Err(_) => Err(ExtractError::InvalidPayload),
    }
}

} // verus!
