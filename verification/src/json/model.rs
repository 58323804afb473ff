//! The mathematical content of a JSON value, and what it means to look a key
//! up in an object or to put the same key into an object twice.

use vstd::prelude::*;

verus! {

/// The mathematical content of a JSON value. An object is the sequence of its
/// entries, in the order in which they are written.
pub enum JsonView {
    Null,
    Bool(bool),
    Number(serde_json::Number),
    Text(Seq<char>),
    Array(Seq<JsonView>),
    Object(Seq<(Seq<char>, JsonView)>),
}

/// No two entries carry the same key.
pub open spec fn distinct_keys(entries: Seq<(Seq<char>, JsonView)>) -> bool {
    forall|i: int, j: int|
        0 <= i < j < entries.len() ==> (#[trigger] entries[i]).0 != (#[trigger] entries[j]).0
}

/// The position of the first entry at or after `start` that carries `key`.
pub open spec fn position_from(
    entries: Seq<(Seq<char>, JsonView)>,
    key: Seq<char>,
    start: int,
) -> Option<int>
    decreases entries.len() - start,
{
    if start < 0 || start >= entries.len() {
        None
    } else if entries[start].0 == key {
        Some(start)
    } else {
        position_from(entries, key, start + 1)
    }
}

/// The position of the last entry before `end` that carries `key`.
pub open spec fn last_position(
    entries: Seq<(Seq<char>, JsonView)>,
    key: Seq<char>,
    end: int,
) -> Option<int>
    decreases end,
{
    if end <= 0 || end > entries.len() {
        None
    } else if entries[end - 1].0 == key {
        Some(end - 1)
    } else {
        last_position(entries, key, end - 1)
    }
}

/// The value that entries hold under `key`: that of the last entry with this
/// key, which is the one that prevails where a key comes more than once.
pub open spec fn lookup(entries: Seq<(Seq<char>, JsonView)>, key: Seq<char>) -> Option<JsonView> {
    match last_position(entries, key, entries.len() as int) {
        Some(at) => Some(entries[at].1),
        None => None,
    }
}

/// The entries after `value` is put under `key`: a key that is there already
/// keeps its place and takes the new value; a new key goes last.
pub open spec fn inserted(
    entries: Seq<(Seq<char>, JsonView)>,
    key: Seq<char>,
    value: JsonView,
) -> Seq<(Seq<char>, JsonView)> {
    match position_from(entries, key, 0) {
        Some(at) => entries.update(at, (key, value)),
        None => entries.push((key, value)),
    }
}

/// The entries of the object into which `entries` are put one after the
/// other: each key once, at the place of its first entry and with the value of
/// its last.
pub open spec fn settled(entries: Seq<(Seq<char>, JsonView)>) -> Seq<(Seq<char>, JsonView)>
    decreases entries.len(),
{
    if entries.len() == 0 {
        Seq::empty()
    } else {
        inserted(settled(entries.drop_last()), entries.last().0, entries.last().1)
    }
}

impl JsonView {
    /// Every object in the tree has distinct keys.
    pub open spec fn well_formed(self) -> bool
        decreases self,
    {
        match self {
            JsonView::Array(items) => forall|i: int|
                0 <= i < items.len() ==> (#[trigger] items[i]).well_formed(),
            JsonView::Object(entries) => {
                &&& distinct_keys(entries)
                &&& forall|i: int|
                    0 <= i < entries.len() ==> (#[trigger] entries[i]).1.well_formed()
            },
            _ => true,
        }
    }

    /// The value that an object holds under `key`: that of the last entry
    /// with this key. `None` where there is no such entry, or where the value
    /// is no object.
    pub open spec fn field(self, key: Seq<char>) -> Option<JsonView> {
        match self {
            JsonView::Object(entries) => lookup(entries, key),
            _ => None,
        }
    }

    /// The value with all that lies below its top level in canonical form.
    pub open spec fn canonical_below(self) -> JsonView
        decreases self, 0nat,
    {
        match self {
            JsonView::Array(items) => JsonView::Array(
                Seq::new(
                    items.len(),
                    |i: int|
                        if 0 <= i < items.len() {
                            items[i].canonical()
                        } else {
                            JsonView::Null
                        },
                ),
            ),
            JsonView::Object(entries) => JsonView::Object(
                Seq::new(
                    entries.len(),
                    |i: int|
                        if 0 <= i < entries.len() {
                            (entries[i].0, entries[i].1.canonical())
                        } else {
                            (Seq::empty(), JsonView::Null)
                        },
                ),
            ),
            _ => self,
        }
    }

    /// The canonical form of the value: the entries of every object settled,
    /// from the leaves up.
    pub open spec fn canonical(self) -> JsonView
        decreases self, 1nat,
    {
        match self.canonical_below() {
            JsonView::Object(entries) => JsonView::Object(settled(entries)),
            other => other,
        }
    }
}

} // verus!
