//! The fields of the wire format: strings that must be there and strings
//! that may be missing, and the causes reported where a value does not fit.

use crate::json::laws::lemma_lookup_absent;
use crate::json::{Json, JsonView};
use vstd::prelude::*;

verus! {

/// The characters of an optional string.
pub open spec fn text_view(text: Option<String>) -> Option<Seq<char>> {
    match text {
        Some(s) => Some(s@),
        None => None,
    }
}

/// A decoded value or the cause of a mismatch, by its content.
pub open spec fn outcome_view<T: View>(r: Result<T, String>) -> Result<T::V, Seq<char>> {
    match r {
        Ok(value) => Ok(value@),
        Err(cause) => Err(cause@),
    }
}

/// An optional string on the wire: the string, or `null` where there is none.
pub open spec fn text_or_null(text: Option<Seq<char>>) -> JsonView {
    match text {
        Some(s) => JsonView::Text(s),
        None => JsonView::Null,
    }
}

/// The cause reported where an object lacks a field that must be there.
pub open spec fn missing_field(key: Seq<char>) -> Seq<char> {
    "missing field `"@ + key + "`"@
}

/// The cause reported where a field holds something other than a string.
pub open spec fn not_a_string(key: Seq<char>) -> Seq<char> {
    "field `"@ + key + "` is not a string"@
}

/// The cause reported where a value is no JSON object.
pub open spec fn not_an_object() -> Seq<char> {
    "expected a JSON object"@
}

/// The cause reported where a value is no JSON array.
pub open spec fn not_an_array() -> Seq<char> {
    "expected a JSON array"@
}

/// The string that must stand under `key`; the cause of the mismatch where
/// the field is absent or holds anything else, `null` included.
pub open spec fn required_text(json: JsonView, key: Seq<char>) -> Result<Seq<char>, Seq<char>> {
    match json.field(key) {
        Some(JsonView::Text(s)) => Ok(s),
        Some(_) => Err(not_a_string(key)),
        None => Err(missing_field(key)),
    }
}

/// The string that may stand under `key`: no value where the field is absent
/// or `null`; the cause of the mismatch where it holds anything but a string.
pub open spec fn optional_text(json: JsonView, key: Seq<char>) -> Result<
    Option<Seq<char>>,
    Seq<char>,
> {
    match json.field(key) {
        None => Ok(None),
        Some(JsonView::Null) => Ok(None),
        Some(JsonView::Text(s)) => Ok(Some(s)),
        Some(_) => Err(not_a_string(key)),
    }
}

/// A field is read from the canonical form of a value as it is read from the
/// value: a repeated key does not change what is read.
pub proof fn lemma_text_of_canonical(json: JsonView, key: Seq<char>)
    ensures
        required_text(json.canonical(), key) == required_text(json, key),
        optional_text(json.canonical(), key) == optional_text(json, key),
{
    json.lemma_field_of_canonical(key);
}

/// A field that no entry of an object carries is read as no value, and is no
/// cause of a mismatch.
pub proof fn lemma_absent_field_has_no_value(entries: Seq<(Seq<char>, JsonView)>, key: Seq<char>)
    requires
        forall|k: int| 0 <= k < entries.len() ==> (#[trigger] entries[k]).0 != key,
    ensures
        optional_text(JsonView::Object(entries), key) == Ok::<Option<Seq<char>>, Seq<char>>(None),
{
    lemma_lookup_absent(entries, key);
}

/// A field that holds `null` is read as no value, as one that is absent is.
pub proof fn lemma_null_field_has_no_value(json: JsonView, key: Seq<char>)
    requires
        json.field(key) == Some(JsonView::Null),
    ensures
        optional_text(json, key) == Ok::<Option<Seq<char>>, Seq<char>>(None),
{
}

/// The JSON value of an optional string.
pub fn optional_text_json(text: &Option<String>) -> (json: Json)
    ensures
        json@ == text_or_null(text_view(*text)),
{
    match text {
        Some(s) => Json::Text(s.clone()),
        None => Json::Null,
    }
}

/// Reads the string that must stand under `key`.
pub fn read_required_text(json: &Json, key: &str) -> (r: Result<String, String>)
    ensures
        r matches Ok(s) ==> required_text(json@, key@) == Ok::<Seq<char>, Seq<char>>(s@),
        r matches Err(cause) ==> required_text(json@, key@) == Err::<Seq<char>, Seq<char>>(
            cause@,
        ),
{
    match json.field(key) {
        Some(Json::Text(s)) => Ok(s.clone()),
        Some(_) => Err(not_a_string_cause(key)),
        None => Err(missing_field_cause(key)),
    }
}

/// Reads the string that may stand under `key`.
pub fn read_optional_text(json: &Json, key: &str) -> (r: Result<Option<String>, String>)
    ensures
        r matches Ok(s) ==> optional_text(json@, key@) == Ok::<Option<Seq<char>>, Seq<char>>(
            text_view(s),
        ),
        r matches Err(cause) ==> optional_text(json@, key@) == Err::<
            Option<Seq<char>>,
            Seq<char>,
        >(cause@),
{
    match json.field(key) {
        None => Ok(None),
        Some(Json::Null) => Ok(None),
        Some(Json::Text(s)) => Ok(Some(s.clone())),
        Some(_) => Err(not_a_string_cause(key)),
    }
}

fn missing_field_cause(key: &str) -> (cause: String)
    ensures
        cause@ == missing_field(key@),
{
    let mut cause = "missing field `".to_owned();
    cause.append(key);
    cause.append("`");
    cause
}

fn not_a_string_cause(key: &str) -> (cause: String)
    ensures
        cause@ == not_a_string(key@),
{
    let mut cause = "field `".to_owned();
    cause.append(key);
    cause.append("` is not a string");
    cause
}

} // verus!
