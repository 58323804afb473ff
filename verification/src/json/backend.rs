//! The interface to `serde_json`. Nothing in this file is proved: each
//! contract states what the crate's source shows of the function that the
//! item stands for, and the rest of the library is proved from these
//! contracts.
//!
//! `serde_json` is built with its `preserve_order` feature, with which the
//! map of an object keeps its entries in the order in which they were first
//! inserted. The contracts below rely on it.

use super::model::{distinct_keys, settled, JsonView};
use vstd::prelude::*;

verus! {

/// `serde_json::Value`, a parsed JSON document. Nothing inside it is visible
/// to the verifier.
#[verifier::external_type_specification]
#[verifier::external_body]
pub struct ExValue(serde_json::Value);

/// `serde_json::Number`, a JSON number. It is carried along and never read.
#[verifier::external_type_specification]
#[verifier::external_body]
pub struct ExNumber(serde_json::Number);

/// `serde_json::Error`, the reason for which bytes could not be parsed.
#[verifier::external_type_specification]
#[verifier::external_body]
pub struct ExError(serde_json::Error);

/// What a `serde_json::Value` holds. The entries of an object stand in the
/// order in which its map walks them, which is the order in which they were
/// inserted.
pub uninterp spec fn value_view(v: serde_json::Value) -> JsonView;

/// What `serde_json::from_slice` makes of the bytes of a text: the value it
/// parses them to, or `None` where it reports an error.
pub uninterp spec fn parsed(bytes: Seq<u8>) -> Option<JsonView>;

/// The compact text that `serde_json` writes for a value.
pub uninterp spec fn rendered(json: JsonView) -> Seq<char>;

/// The top level of a `serde_json::Value`, with what lies below it still
/// held by `serde_json`.
pub(crate) enum Shape<'a> {
    Null,
    Bool(bool),
    Number(&'a serde_json::Number),
    Text(&'a String),
    Array(&'a Vec<serde_json::Value>),
    Object(Vec<(&'a String, &'a serde_json::Value)>),
}

impl<'a> Shape<'a> {
    /// What a value of this shape holds.
    pub(crate) open spec fn content(self) -> JsonView {
        match self {
            Shape::Null => JsonView::Null,
            Shape::Bool(b) => JsonView::Bool(b),
            Shape::Number(n) => JsonView::Number(*n),
            Shape::Text(s) => JsonView::Text(s@),
            Shape::Array(items) => JsonView::Array(
                Seq::new(items@.len(), |i: int| value_view(items@[i])),
            ),
            Shape::Object(entries) => JsonView::Object(
                Seq::new(entries@.len(), |i: int| (entries@[i].0@, value_view(*entries@[i].1))),
            ),
        }
    }
}

/// The parts from which a `serde_json::Value` is put together.
pub(crate) enum Parts {
    Null,
    Bool(bool),
    Number(serde_json::Number),
    Text(String),
    Array(Vec<serde_json::Value>),
    Object(Vec<(String, serde_json::Value)>),
}

impl Parts {
    /// The parts as they are handed over.
    pub(crate) open spec fn content(self) -> JsonView {
        match self {
            Parts::Null => JsonView::Null,
            Parts::Bool(b) => JsonView::Bool(b),
            Parts::Number(n) => JsonView::Number(n),
            Parts::Text(s) => JsonView::Text(s@),
            Parts::Array(items) => JsonView::Array(
                Seq::new(items@.len(), |i: int| value_view(items@[i])),
            ),
            Parts::Object(entries) => JsonView::Object(
                Seq::new(entries@.len(), |i: int| (entries@[i].0@, value_view(entries@[i].1))),
            ),
        }
    }

    /// What the value built from the parts holds: the parts, with the
    /// entries of an object settled.
    pub(crate) open spec fn settled_content(self) -> JsonView {
        match self.content() {
            JsonView::Object(entries) => JsonView::Object(settled(entries)),
            other => other,
        }
    }
}

/// `serde_json::from_slice` at type `Value`: the value parsed from the whole
/// of the bytes, or the error that the parser reports.
#[verifier::external_body]
pub(crate) fn parse_value(bytes: &[u8]) -> (r: Result<serde_json::Value, serde_json::Error>)
    ensures
        r matches Ok(v) ==> parsed(bytes@) == Some(value_view(v)),
        r is Err ==> parsed(bytes@) is None,
{
    serde_json::from_slice::<serde_json::Value>(bytes)
}

/// `Display` of `serde_json::Value`: the value as compact JSON text.
#[verifier::external_body]
pub(crate) fn render_value(v: &serde_json::Value) -> (text: String)
    ensures
        text@ == rendered(value_view(*v)),
{
    v.to_string()
}

/// `Display` of `serde_json::Error`: the parser's description of the fault.
/// Nothing is claimed of the text.
#[verifier::external_body]
pub(crate) fn error_text(e: &serde_json::Error) -> (text: String) {
    e.to_string()
}

/// Tells the variants of `serde_json::Value` apart and hands out what the
/// variant holds. The entries of an object are those that `Map::iter` walks,
/// in its order; a map holds each key once.
#[verifier::external_body]
pub(crate) fn open_value<'a>(v: &'a serde_json::Value) -> (shape: Shape<'a>)
    ensures
        shape.content() == value_view(*v),
        shape matches Shape::Object(_) ==> distinct_keys(shape.content()->Object_0),
{
    match v {
        serde_json::Value::Null => Shape::Null,
        serde_json::Value::Bool(b) => Shape::Bool(*b),
        serde_json::Value::Number(n) => Shape::Number(n),
        serde_json::Value::String(s) => Shape::Text(s),
        serde_json::Value::Array(items) => Shape::Array(items),
        serde_json::Value::Object(map) => Shape::Object(map.iter().collect()),
    }
}

/// Builds the `serde_json::Value` of the given variant. The entries of an
/// object are collected into a `Map`, which inserts them one after the other:
/// a key that the map holds already keeps its place and takes the new value,
/// a new key goes last.
#[verifier::external_body]
pub(crate) fn close_value(parts: Parts) -> (v: serde_json::Value)
    ensures
        value_view(v) == parts.settled_content(),
{
    match parts {
        Parts::Null => serde_json::Value::Null,
        Parts::Bool(b) => serde_json::Value::Bool(b),
        Parts::Number(n) => serde_json::Value::Number(n),
        Parts::Text(s) => serde_json::Value::String(s),
        Parts::Array(items) => serde_json::Value::Array(items),
        Parts::Object(entries) => serde_json::Value::Object(entries.into_iter().collect()),
    }
}

/// `Clone` of `serde_json::Number`: the same number.
pub assume_specification[ <serde_json::Number as Clone>::clone ](n: &serde_json::Number) -> (r:
    serde_json::Number)
    ensures
        r == *n,
;

} // verus!
