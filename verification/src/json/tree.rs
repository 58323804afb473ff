//! JSON values that a program holds, with parsing and writing.

use super::backend::{
    close_value, error_text, open_value, parse_value, parsed, render_value, rendered, value_view,
    Parts, Shape,
};
use super::model::{last_position, JsonView};
use vstd::prelude::*;

verus! {

/// A JSON value held in plain data. An object is the list of its entries; a
/// key may stand in it more than once, and [`JsonView::field`] and
/// [`JsonView::canonical`] say what that means for reading and for writing.
#[derive(Debug, PartialEq, Eq)]
pub enum Json {
    Null,
    Bool(bool),
    Number(serde_json::Number),
    Text(String),
    Array(Vec<Json>),
    Object(Vec<(String, Json)>),
}

/// The content of a value held in plain data.
pub open spec fn content_of(json: Json) -> JsonView
    decreases json,
{
    match json {
        Json::Null => JsonView::Null,
        Json::Bool(b) => JsonView::Bool(b),
        Json::Number(n) => JsonView::Number(n),
        Json::Text(s) => JsonView::Text(s@),
        Json::Array(items) => JsonView::Array(
            Seq::new(
                items.len() as nat,
                |i: int|
                    if 0 <= i < items.len() {
                        content_of(items[i])
                    } else {
                        JsonView::Null
                    },
            ),
        ),
        Json::Object(entries) => JsonView::Object(
            Seq::new(
                entries.len() as nat,
                |i: int|
                    if 0 <= i < entries.len() {
                        (entries[i].0@, content_of(entries[i].1))
                    } else {
                        (Seq::empty(), JsonView::Null)
                    },
            ),
        ),
    }
}

impl View for Json {
    type V = JsonView;

    open spec fn view(&self) -> JsonView {
        content_of(*self)
    }
}

impl Json {
    /// The view of an array is the sequence of the views of its items.
    pub proof fn lemma_array_view(items: Vec<Json>)
        ensures
            Json::Array(items)@ is Array,
            Json::Array(items)@->Array_0.len() == items.len(),
            forall|k: int|
                0 <= k < items.len() ==> #[trigger] Json::Array(items)@->Array_0[k] == items[k]@,
    {
    }

    /// The view of an object is the sequence of its entries, each with the
    /// views of its key and of its value.
    pub proof fn lemma_object_view(entries: Vec<(String, Json)>)
        ensures
            Json::Object(entries)@ is Object,
            Json::Object(entries)@->Object_0.len() == entries.len(),
            forall|k: int|
                0 <= k < entries.len() ==> #[trigger] Json::Object(entries)@->Object_0[k] == (
                    entries[k].0@,
                    entries[k].1@,
                ),
    {
    }

    /// The value that an object holds under `key`.
    pub fn field(&self, key: &str) -> (found: Option<&Json>)
        ensures
            found matches Some(json) ==> self@.field(key@) == Some(json@),
            found is None ==> self@.field(key@) is None,
    {
        match self {
            Json::Object(entries) => {
                proof {
                    Json::lemma_object_view(*entries);
                }
                let wanted = key.to_owned();
                let ghost views = self@->Object_0;
                let mut i: usize = entries.len();
                while i > 0
                    invariant
                        i <= entries.len(),
                        wanted@ == key@,
                        self@ == JsonView::Object(views),
                        views.len() == entries.len(),
                        forall|k: int|
                            0 <= k < entries.len() ==> #[trigger] views[k] == (
                                entries[k].0@,
                                entries[k].1@,
                            ),
                        last_position(views, key@, views.len() as int) == last_position(
                            views,
                            key@,
                            i as int,
                        ),
                    decreases i,
                {
                    i -= 1;
                    if entries[i].0 == wanted {
                        return Some(&entries[i].1);
                    }
                }
                None
            },
            _ => None,
        }
    }

    /// Parses the bytes of a JSON text. The result is the value that
    /// `serde_json` reads from them, which is well formed; where it reads
    /// none, the error carries its description of the fault.
    pub fn parse(bytes: &[u8]) -> (r: Result<Json, String>)
        ensures
            r matches Ok(json) ==> parsed(bytes@) == Some(json@) && json@.well_formed(),
            r is Err ==> parsed(bytes@) is None,
    {
        match parse_value(bytes) {
            Ok(value) => Ok(json_of_value(&value)),
            Err(e) => Err(error_text(&e)),
        }
    }

    /// Writes the value as compact JSON text: the text of its canonical form,
    /// in which every object holds each of its keys once. A well-formed value
    /// is written as it stands.
    pub fn render(&self) -> (text: String)
        ensures
            text@ == rendered(self@.canonical()),
            self@.well_formed() ==> text@ == rendered(self@),
    {
        proof {
            if self@.well_formed() {
                self@.lemma_canonical_of_well_formed();
            }
        }
        let value = value_of_json(self);
        render_value(&value)
    }
}

/// Copies a parsed value into plain data.
fn json_of_value(v: &serde_json::Value) -> (json: Json)
    ensures
        json@ == value_view(*v),
        json@.well_formed(),
    decreases value_view(*v),
{
    match open_value(v) {
        Shape::Null => Json::Null,
        Shape::Bool(b) => Json::Bool(b),
        Shape::Number(n) => Json::Number(n.clone()),
        Shape::Text(s) => Json::Text(s.clone()),
        Shape::Array(items) => {
            let ghost views = Seq::new(items@.len(), |k: int| value_view(items@[k]));
            let mut out: Vec<Json> = Vec::new();
            let mut i: usize = 0;
            while i < items.len()
                invariant
                    i <= items.len(),
                    out.len() == i,
                    views.len() == items.len(),
                    value_view(*v) == JsonView::Array(views),
                    forall|k: int|
                        0 <= k < items.len() ==> #[trigger] views[k] == value_view(items@[k]),
                    forall|k: int|
                        0 <= k < i ==> (#[trigger] out[k])@ == views[k] && out[k]@.well_formed(),
                decreases items.len() - i,
            {
                proof {
                    assert(decreases_to!(value_view(*v) => value_view(*v)->Array_0));
                    assert(decreases_to!(views => views[i as int]));
                }
                let child = json_of_value(&items[i]);
                out.push(child);
                i += 1;
            }
            let json = Json::Array(out);
            proof {
                assert(json@->Array_0 =~= views);
            }
            json
        },
        Shape::Object(entries) => {
            let ghost views = Seq::new(
                entries@.len(),
                |k: int| (entries@[k].0@, value_view(*entries@[k].1)),
            );
            let mut out: Vec<(String, Json)> = Vec::new();
            let mut i: usize = 0;
            while i < entries.len()
                invariant
                    i <= entries.len(),
                    out.len() == i,
                    views.len() == entries.len(),
                    value_view(*v) == JsonView::Object(views),
                    forall|k: int|
                        0 <= k < entries.len() ==> #[trigger] views[k] == (
                            entries@[k].0@,
                            value_view(*entries@[k].1),
                        ),
                    forall|k: int|
                        0 <= k < i ==> {
                            &&& (#[trigger] out[k]).0@ == views[k].0
                            &&& out[k].1@ == views[k].1
                            &&& out[k].1@.well_formed()
                        },
                decreases entries.len() - i,
            {
                proof {
                    assert(decreases_to!(value_view(*v) => value_view(*v)->Object_0));
                    assert(decreases_to!(views[i as int] => views[i as int].1));
                }
                let key = entries[i].0.clone();
                let child = json_of_value(entries[i].1);
                out.push((key, child));
                i += 1;
            }
            let json = Json::Object(out);
            proof {
                assert(json@->Object_0 =~= views);
            }
            json
        },
    }
}

/// Builds the `serde_json::Value` that holds the canonical form of `json`.
fn value_of_json(json: &Json) -> (v: serde_json::Value)
    ensures
        value_view(v) == json@.canonical(),
    decreases json,
{
    match json {
        Json::Null => close_value(Parts::Null),
        Json::Bool(b) => close_value(Parts::Bool(*b)),
        Json::Number(n) => close_value(Parts::Number(n.clone())),
        Json::Text(s) => close_value(Parts::Text(s.clone())),
        Json::Array(items) => {
            let mut out: Vec<serde_json::Value> = Vec::new();
            let mut i: usize = 0;
            while i < items.len()
                invariant
                    i <= items.len(),
                    out.len() == i,
                    *json == Json::Array(*items),
                    forall|k: int|
                        0 <= k < i ==> value_view(#[trigger] out[k]) == items[k]@.canonical(),
                decreases items.len() - i,
            {
                proof {
                    assert(decreases_to!(*json => json->Array_0));
                }
                let child = value_of_json(&items[i]);
                out.push(child);
                i += 1;
            }
            let parts = Parts::Array(out);
            proof {
                Json::lemma_array_view(*items);
                assert(parts.content()->Array_0 =~= json@.canonical_below()->Array_0);
            }
            close_value(parts)
        },
        Json::Object(entries) => {
            let mut out: Vec<(String, serde_json::Value)> = Vec::new();
            let mut i: usize = 0;
            while i < entries.len()
                invariant
                    i <= entries.len(),
                    out.len() == i,
                    *json == Json::Object(*entries),
                    forall|k: int|
                        0 <= k < i ==> {
                            &&& (#[trigger] out[k]).0@ == entries[k].0@
                            &&& value_view(out[k].1) == entries[k].1@.canonical()
                        },
                decreases entries.len() - i,
            {
                proof {
                    assert(decreases_to!(*json => json->Object_0));
                }
                let key = entries[i].0.clone();
                let child = value_of_json(&entries[i].1);
                out.push((key, child));
                i += 1;
            }
            let parts = Parts::Object(out);
            proof {
                Json::lemma_object_view(*entries);
                assert(parts.content()->Object_0 =~= json@.canonical_below()->Object_0);
            }
            close_value(parts)
        },
    }
}

} // verus!
