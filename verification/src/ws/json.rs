//! JSON documents as plain values, and the two places where the relay
//! leans on `serde_json`: reading a text into a document and quoting a
//! string.

use vstd::prelude::*;

verus! {

/// A JSON document. A number carries nothing: no message of the relay
/// holds one.
#[derive(Debug, PartialEq, Eq)]
pub enum Json {
    Null,
    Bool(bool),
    Number,
    Text(String),
    Array(Vec<Json>),
    /// The members of an object, in order. Where a name occurs twice, the
    /// first member of that name is the one that readers find.
    Object(Vec<(String, Json)>),
}

/// `serde_json::Value`, the document as `serde_json` holds it. It is only
/// carried from the parser to the conversion: nothing inside it is
/// visible to the proofs.
#[verifier::external_type_specification]
#[verifier::external_body]
pub struct ExValue(serde_json::Value);

/// The document that `serde_json` reads from `text`; `None` where it
/// rejects the text.
pub uninterp spec fn json_parsed(text: Seq<char>) -> Option<Json>;

/// The document that a `serde_json::Value` holds.
pub uninterp spec fn json_of(value: serde_json::Value) -> Json;

/// The JSON string literal, quotes and escapes included, that
/// `serde_json` writes for `text`.
pub uninterp spec fn json_quoted(text: Seq<char>) -> Seq<char>;

/// Calls `serde_json::from_str` for a `serde_json::Value`. The value
/// depends on the text alone, so the document that it holds has a name;
/// nothing more is claimed of it.
#[verifier::external_body]
fn parse_value(text: &str) -> (r: Option<serde_json::Value>)
    ensures
        match r {
            Some(value) => json_parsed(text@) == Some(json_of(value)),
            None => json_parsed(text@) is None,
        },
{
    serde_json::from_str::<serde_json::Value>(text).ok()
}

/// Turns a `serde_json::Value` into the [`Json`] that it holds, variant
/// for variant; the members of an object come in the order in which
/// `serde_json::Map` hands them out.
#[verifier::external_body]
fn json_from_value(value: serde_json::Value) -> (r: Json)
    ensures
        r == json_of(value),
{
    match value {
        serde_json::Value::Null => Json::Null,
        serde_json::Value::Bool(b) => Json::Bool(b),
        serde_json::Value::Number(_) => Json::Number,
        serde_json::Value::String(s) => Json::Text(s),
        serde_json::Value::Array(a) => Json::Array(a.into_iter().map(json_from_value).collect()),
        serde_json::Value::Object(o) => Json::Object(
            o.into_iter().map(|(k, v)| (k, json_from_value(v))).collect(),
        ),
    }
}

/// Reads `text` as a JSON document.
pub fn parse_json(text: &str) -> (r: Option<Json>)
    ensures
        r == json_parsed(text@),
{
    match parse_value(text) {
        Some(value) => Some(json_from_value(value)),
        None => None,
    }
}

/// Calls `serde_json::to_string` on a string slice, which cannot fail
/// there. The result depends on the text alone, so it has a name;
/// nothing more is claimed of it.
#[verifier::external_body]
pub(crate) fn json_quote(text: &str) -> (r: String)
    ensures
        r@ == json_quoted(text@),
{
    serde_json::to_string(text).unwrap_or_default()
}

} // verus!
