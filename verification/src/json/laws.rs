//! Laws of the model: what looking a key up finds, what settling entries
//! keeps, and how a value relates to its canonical form.

use super::model::{
    distinct_keys, inserted, last_position, lookup, position_from, settled, JsonView,
};
use vstd::prelude::*;

verus! {

impl JsonView {
    /// The canonical form of a value is well formed.
    pub proof fn lemma_canonical_well_formed(self)
        ensures
            self.canonical().well_formed(),
        decreases self,
    {
        match self {
            JsonView::Array(items) => {
                let below = self.canonical_below()->Array_0;
                assert forall|i: int| 0 <= i < below.len() implies (#[trigger] below[i]).well_formed() by {
                    items[i].lemma_canonical_well_formed();
                }
            },
            JsonView::Object(entries) => {
                let below = self.canonical_below()->Object_0;
                let after = settled(below);
                lemma_settled(below);
                assert forall|q: int| 0 <= q < after.len() implies (#[trigger] after[q]).1.well_formed() by {
                    let k = choose|k: int| 0 <= k < below.len() && after[q] == #[trigger] below[k];
                    entries[k].1.lemma_canonical_well_formed();
                }
            },
            _ => {},
        }
    }

    /// The canonical form of a value holds under every key the canonical
    /// form of what the value holds under it.
    pub proof fn lemma_field_of_canonical(self, key: Seq<char>)
        ensures
            self.canonical().field(key) == match self.field(key) {
                Some(value) => Some(value.canonical()),
                None => None,
            },
    {
        match self {
            JsonView::Object(entries) => {
                let below = self.canonical_below()->Object_0;
                lemma_settled(below);
                assert(lookup(settled(below), key) == lookup(below, key));
                lemma_same_keys_same_position(below, entries, key, entries.len() as int);
                lemma_last_position_finds(entries, key, entries.len() as int);
            },
            _ => {},
        }
    }

    /// A well-formed value is its own canonical form.
    pub proof fn lemma_canonical_of_well_formed(self)
        requires
            self.well_formed(),
        ensures
            self.canonical() == self,
        decreases self,
    {
        match self {
            JsonView::Array(items) => {
                assert forall|i: int| 0 <= i < items.len() implies (#[trigger] items[i]).canonical()
                    == items[i] by {
                    items[i].lemma_canonical_of_well_formed();
                }
                assert(self.canonical_below()->Array_0 =~= items);
            },
            JsonView::Object(entries) => {
                assert forall|i: int| 0 <= i < entries.len() implies (
                #[trigger] entries[i]).1.canonical() == entries[i].1 by {
                    entries[i].1.lemma_canonical_of_well_formed();
                }
                assert(self.canonical_below()->Object_0 =~= entries);
                lemma_settled_distinct(entries);
            },
            _ => {},
        }
    }
}

/// Where the entry at `at` carries `key` and no entry after it does, the
/// value under `key` is the one at `at`.
pub proof fn lemma_lookup_found(entries: Seq<(Seq<char>, JsonView)>, key: Seq<char>, at: int)
    requires
        0 <= at < entries.len(),
        entries[at].0 == key,
        forall|k: int| at < k < entries.len() ==> (#[trigger] entries[k]).0 != key,
    ensures
        lookup(entries, key) == Some(entries[at].1),
{
    lemma_last_position_skips(entries, key, at + 1, entries.len() as int);
}

/// Where no entry carries `key`, there is no value under `key`.
pub proof fn lemma_lookup_absent(entries: Seq<(Seq<char>, JsonView)>, key: Seq<char>)
    requires
        forall|k: int| 0 <= k < entries.len() ==> (#[trigger] entries[k]).0 != key,
    ensures
        lookup(entries, key) is None,
{
    lemma_last_position_skips(entries, key, 0, entries.len() as int);
}

/// The search for the last entry with a key passes over entries that carry
/// other keys.
proof fn lemma_last_position_skips(
    entries: Seq<(Seq<char>, JsonView)>,
    key: Seq<char>,
    start: int,
    end: int,
)
    requires
        0 <= start <= end <= entries.len(),
        forall|k: int| start <= k < end ==> (#[trigger] entries[k]).0 != key,
    ensures
        last_position(entries, key, end) == last_position(entries, key, start),
    decreases end - start,
{
    if start < end {
        lemma_last_position_skips(entries, key, start, end - 1);
    }
}

/// Where no entry at or after `start` carries `key`, the search from `start`
/// finds no position.
proof fn lemma_position_absent(entries: Seq<(Seq<char>, JsonView)>, key: Seq<char>, start: int)
    requires
        0 <= start,
        forall|k: int| start <= k < entries.len() ==> (#[trigger] entries[k]).0 != key,
    ensures
        position_from(entries, key, start) is None,
    decreases entries.len() - start,
{
    if start < entries.len() {
        lemma_position_absent(entries, key, start + 1);
    }
}

/// Entries with distinct keys are settled as they stand.
pub proof fn lemma_settled_distinct(entries: Seq<(Seq<char>, JsonView)>)
    requires
        distinct_keys(entries),
    ensures
        settled(entries) == entries,
    decreases entries.len(),
{
    if entries.len() > 0 {
        let init = entries.drop_last();
        let last = entries.last();
        lemma_settled_distinct(init);
        assert forall|k: int| 0 <= k < init.len() implies (#[trigger] init[k]).0 != last.0 by {
            assert(init[k] == entries[k]);
        }
        lemma_position_absent(init, last.0, 0);
        assert(init.push(last) =~= entries);
    }
}

/// What the search for the last entry with a key finds: an entry with the
/// key that no entry with the key follows, or nothing where no entry before
/// `end` carries the key.
proof fn lemma_last_position_finds(
    entries: Seq<(Seq<char>, JsonView)>,
    key: Seq<char>,
    end: int,
)
    requires
        0 <= end <= entries.len(),
    ensures
        match last_position(entries, key, end) {
            Some(at) => {
                &&& 0 <= at < end
                &&& entries[at].0 == key
                &&& forall|k: int| at < k < end ==> (#[trigger] entries[k]).0 != key
            },
            None => forall|k: int| 0 <= k < end ==> (#[trigger] entries[k]).0 != key,
        },
    decreases end,
{
    if end > 0 && entries[end - 1].0 != key {
        lemma_last_position_finds(entries, key, end - 1);
    }
}

/// What the search for the first entry with a key finds: an entry with the
/// key that no entry with the key precedes, or nothing where no entry from
/// `start` on carries the key.
proof fn lemma_position_finds(entries: Seq<(Seq<char>, JsonView)>, key: Seq<char>, start: int)
    requires
        0 <= start <= entries.len(),
    ensures
        match position_from(entries, key, start) {
            Some(at) => {
                &&& start <= at < entries.len()
                &&& entries[at].0 == key
                &&& forall|k: int| start <= k < at ==> (#[trigger] entries[k]).0 != key
            },
            None => forall|k: int| start <= k < entries.len() ==> (#[trigger] entries[k]).0 != key,
        },
    decreases entries.len() - start,
{
    if start < entries.len() && entries[start].0 != key {
        lemma_position_finds(entries, key, start + 1);
    }
}

/// Putting a value under a key keeps distinct keys distinct, changes no
/// entry under another key, and leaves the value under the key.
pub proof fn lemma_inserted(entries: Seq<(Seq<char>, JsonView)>, key: Seq<char>, value: JsonView)
    requires
        distinct_keys(entries),
    ensures
        distinct_keys(inserted(entries, key, value)),
        lookup(inserted(entries, key, value), key) == Some(value),
        forall|other: Seq<char>|
            other != key ==> #[trigger] lookup(inserted(entries, key, value), other) == lookup(
                entries,
                other,
            ),
        forall|q: int|
            0 <= q < inserted(entries, key, value).len() ==> {
                ||| #[trigger] inserted(entries, key, value)[q] == (key, value)
                ||| (q < entries.len() && inserted(entries, key, value)[q] == entries[q])
            },
{
    let after = inserted(entries, key, value);
    lemma_position_finds(entries, key, 0);
    let at = match position_from(entries, key, 0) {
        Some(at) => at,
        None => entries.len() as int,
    };
    // The entry at `at` is the new one; every other entry is as it was and
    // carries another key.
    assert(after[at] == (key, value));
    assert forall|k: int| 0 <= k < after.len() && k != at implies #[trigger] after[k]
        == entries[k] && after[k].0 != key by {}
    assert(distinct_keys(after));
    lemma_lookup_found(after, key, at);
    assert forall|other: Seq<char>| other != key implies #[trigger] lookup(after, other)
        == lookup(entries, other) by {
        lemma_last_position_finds(entries, other, entries.len() as int);
        match last_position(entries, other, entries.len() as int) {
            Some(p) => {
                lemma_lookup_found(after, other, p);
            },
            None => {
                lemma_lookup_absent(after, other);
            },
        }
    }
}

/// Settled entries have distinct keys, hold under every key what the entries
/// held under it, and hold no entry that was not among them.
pub proof fn lemma_settled(entries: Seq<(Seq<char>, JsonView)>)
    ensures
        distinct_keys(settled(entries)),
        forall|key: Seq<char>| #[trigger] lookup(settled(entries), key) == lookup(entries, key),
        forall|q: int|
            0 <= q < settled(entries).len() ==> exists|k: int|
                0 <= k < entries.len() && #[trigger] settled(entries)[q] == #[trigger] entries[k],
    decreases entries.len(),
{
    if entries.len() > 0 {
        let init = entries.drop_last();
        let last = entries.last();
        let before = settled(init);
        let after = settled(entries);
        lemma_settled(init);
        lemma_inserted(before, last.0, last.1);
        assert forall|key: Seq<char>| #[trigger] lookup(after, key) == lookup(entries, key) by {
            if key == last.0 {
                lemma_lookup_found(entries, key, entries.len() - 1);
            } else {
                // The last entry carries another key, so the search goes on
                // among the entries before it.
                lemma_same_keys_same_position(init, entries, key, init.len() as int);
                lemma_last_position_finds(init, key, init.len() as int);
                assert(last_position(entries, key, entries.len() as int) == last_position(
                    entries,
                    key,
                    entries.len() - 1,
                ));
            }
        }
        assert forall|q: int| 0 <= q < after.len() implies exists|k: int|
            0 <= k < entries.len() && #[trigger] after[q] == #[trigger] entries[k] by {
            if after[q] == (last.0, last.1) {
                assert(after[q] == entries[entries.len() - 1]);
            } else {
                let k = choose|k: int| 0 <= k < init.len() && before[q] == #[trigger] init[k];
                assert(after[q] == entries[k]);
            }
        }
    }
}

/// The search for the last entry with a key goes by the keys alone.
proof fn lemma_same_keys_same_position(
    left: Seq<(Seq<char>, JsonView)>,
    right: Seq<(Seq<char>, JsonView)>,
    key: Seq<char>,
    end: int,
)
    requires
        0 <= end <= left.len(),
        end <= right.len(),
        forall|k: int| 0 <= k < end ==> (#[trigger] left[k]).0 == (#[trigger] right[k]).0,
    ensures
        last_position(left, key, end) == last_position(right, key, end),
    decreases end,
{
    if end > 0 {
        assert(left[end - 1].0 == right[end - 1].0);
        if left[end - 1].0 != key {
            lemma_same_keys_same_position(left, right, key, end - 1);
        }
    }
}

} // verus!
