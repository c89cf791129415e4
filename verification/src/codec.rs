//! Reading and writing [`Json`] values as JSON text, done by `serde_json`.
//!
//! Verus does not read `serde_json`. What it computes is named here, and the
//! functions of this module say of their results that they are those named
//! values: the same text always reads as the same document, and the same
//! document is always written as the same text.
use vstd::prelude::*;
use crate::json::{Json, JsonView, Member};

verus! {

#[verifier::external_type_specification]
#[verifier::external_body]
pub struct ExDocument(serde_json::Value);

/// The document that a `serde_json::Value` holds.
pub uninterp spec fn document_of(raw: serde_json::Value) -> JsonView;

/// What `serde_json::from_str` makes of `text`: the document it reads, or the
/// message of the error it reports.
pub uninterp spec fn parsed_text(text: Seq<char>) -> Result<JsonView, Seq<char>>;

/// The document held by the `serde_json::Value` that is built from `doc`. The
/// entries of an object go into a `serde_json::Map`, which keeps one entry
/// for each key.
pub uninterp spec fn stored_document(doc: JsonView) -> JsonView;

/// What `serde_json::to_string` makes of a document: the text it writes, or
/// the message of the error it reports.
pub uninterp spec fn compact_text(doc: JsonView) -> Result<Seq<char>, Seq<char>>;

/// What `serde_json::to_string_pretty` makes of a document: the text it
/// writes, or the message of the error it reports.
pub uninterp spec fn pretty_text(doc: JsonView) -> Result<Seq<char>, Seq<char>>;

/// What the `Debug` form of a `serde_json::Value` holding the document is.
pub uninterp spec fn debug_text(doc: JsonView) -> Seq<char>;

/// Trusted: `serde_json::from_str` at the type `serde_json::Value`. The
/// result is the named reading of the text; an error is handed back as its
/// message.
#[verifier::external_body]
fn serde_parse(text: &str) -> (r: Result<serde_json::Value, String>)
    ensures
        match r {
            Ok(raw) => parsed_text(text@) == Ok::<JsonView, Seq<char>>(document_of(raw)),
            Err(message) => parsed_text(text@) == Err::<JsonView, Seq<char>>(message@),
        },
{
    serde_json::from_str::<serde_json::Value>(text).map_err(|e| e.to_string())
}

/// Trusted: the conversion of a `serde_json::Value` into a [`Json`], variant
/// by variant; the entries of an object come in the order in which its map
/// hands them out.
#[verifier::external_body]
fn from_serde(raw: serde_json::Value) -> (r: Json)
    ensures
        r@ == document_of(raw),
{
    match raw {
        serde_json::Value::Null => Json::Null,
        serde_json::Value::Bool(b) => Json::Bool(b),
        serde_json::Value::Number(n) => Json::Number(n),
        serde_json::Value::String(s) => Json::String(s),
        serde_json::Value::Array(items) => Json::Array(items.into_iter().map(from_serde).collect()),
        serde_json::Value::Object(map) => Json::Object(
            map.into_iter().map(|(key, value)| Member { key, value: from_serde(value) }).collect(),
        ),
    }
}

/// Trusted: the conversion of a [`Json`] into a `serde_json::Value`, variant
/// by variant; the entries of an object are collected into a
/// `serde_json::Map`.
#[verifier::external_body]
fn to_serde(value: &Json) -> (raw: serde_json::Value)
    ensures
        document_of(raw) == stored_document(value@),
{
    match value {
        Json::Null => serde_json::Value::Null,
        Json::Bool(b) => serde_json::Value::Bool(*b),
        Json::Number(n) => serde_json::Value::Number(n.clone()),
        Json::String(s) => serde_json::Value::String(s.clone()),
        Json::Array(items) => serde_json::Value::Array(items.iter().map(to_serde).collect()),
        Json::Object(entries) => serde_json::Value::Object(
            entries.iter().map(|m| (m.key.clone(), to_serde(&m.value))).collect(),
        ),
    }
}

/// Trusted: `serde_json::to_string`. The result is the named writing of the
/// document; an error is handed back as its message.
#[verifier::external_body]
fn serde_compact(raw: &serde_json::Value) -> (r: Result<String, String>)
    ensures
        match r {
            Ok(text) => compact_text(document_of(*raw)) == Ok::<Seq<char>, Seq<char>>(text@),
            Err(message) => compact_text(document_of(*raw)) == Err::<Seq<char>, Seq<char>>(
                message@,
            ),
        },
{
    serde_json::to_string(raw).map_err(|e| e.to_string())
}

/// Trusted: `serde_json::to_string_pretty`. The result is the named writing
/// of the document; an error is handed back as its message.
#[verifier::external_body]
fn serde_pretty(raw: &serde_json::Value) -> (r: Result<String, String>)
    ensures
        match r {
            Ok(text) => pretty_text(document_of(*raw)) == Ok::<Seq<char>, Seq<char>>(text@),
            Err(message) => pretty_text(document_of(*raw)) == Err::<Seq<char>, Seq<char>>(
                message@,
            ),
        },
{
    serde_json::to_string_pretty(raw).map_err(|e| e.to_string())
}

/// Trusted: the `Debug` form of a `serde_json::Value`.
#[verifier::external_body]
fn serde_debug(raw: &serde_json::Value) -> (r: String)
    ensures
        r@ == debug_text(document_of(*raw)),
{
    format!("{:?}", raw)
}

/// The compact JSON text of a document, or why it cannot be written.
pub open spec fn compact_form(doc: JsonView) -> Result<Seq<char>, Seq<char>> {
    compact_text(stored_document(doc))
}

/// The indented JSON text of a document, or why it cannot be written.
pub open spec fn pretty_form(doc: JsonView) -> Result<Seq<char>, Seq<char>> {
    pretty_text(stored_document(doc))
}

/// The diagnostic text of a document.
pub open spec fn debug_form(doc: JsonView) -> Seq<char> {
    debug_text(stored_document(doc))
}

/// Reads JSON text. `Ok` holds the document that the text denotes; `Err`
/// holds the message that says why the text is no JSON document.
pub fn parse(text: &str) -> (r: Result<Json, String>)
    ensures
        match parsed_text(text@) {
            Ok(doc) => r matches Ok(value) && value@ == doc,
            Err(message) => r matches Err(e) && e@ == message,
        },
{
    match serde_parse(text) {
        Ok(raw) => Ok(from_serde(raw)),
        Err(message) => Err(message),
    }
}

/// The compact JSON text of `value`, or the message that says why it cannot
/// be written.
pub fn to_string(value: &Json) -> (r: Result<String, String>)
    ensures
        match compact_form(value@) {
            Ok(text) => r matches Ok(s) && s@ == text,
            Err(message) => r matches Err(e) && e@ == message,
        },
{
    let raw = to_serde(value);
    serde_compact(&raw)
}

/// The indented JSON text of `value`, or the message that says why it cannot
/// be written.
pub fn to_string_pretty(value: &Json) -> (r: Result<String, String>)
    ensures
        match pretty_form(value@) {
            Ok(text) => r matches Ok(s) && s@ == text,
            Err(message) => r matches Err(e) && e@ == message,
        },
{
    let raw = to_serde(value);
    serde_pretty(&raw)
}

/// The diagnostic form of `value`, as it stands in log messages.
pub fn debug(value: &Json) -> (r: String)
    ensures
        r@ == debug_form(value@),
{
    let raw = to_serde(value);
    serde_debug(&raw)
}

} // verus!
