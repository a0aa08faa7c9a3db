//! Ordered association lists: the mathematical model of a map from names to
//! values that remembers the order in which the names were first inserted.

use vstd::prelude::*;

verus! {

/// The names of the entries, in order.
pub open spec fn keys<V>(entries: Seq<(Seq<char>, V)>) -> Seq<Seq<char>> {
    Seq::new(entries.len(), |i: int| entries[i].0)
}

/// The index of the first entry under `key`.
pub open spec fn position<V>(entries: Seq<(Seq<char>, V)>, key: Seq<char>) -> Option<int> {
    keys(entries).index_of_first(key)
}

/// Some entry stands under `key`.
pub open spec fn has_key<V>(entries: Seq<(Seq<char>, V)>, key: Seq<char>) -> bool {
    position(entries, key) is Some
}

/// The value of the first entry under `key`.
pub open spec fn lookup<V>(entries: Seq<(Seq<char>, V)>, key: Seq<char>) -> Option<V> {
    match position(entries, key) {
        Some(i) => Some(entries[i].1),
        None => None,
    }
}

/// The entries after `value` was stored under `key`: the entry under `key`
/// keeps its place and takes the new value; a new name goes last.
pub open spec fn upsert<V>(entries: Seq<(Seq<char>, V)>, key: Seq<char>, value: V) -> Seq<
    (Seq<char>, V),
> {
    match position(entries, key) {
        Some(i) => entries.update(i, (key, value)),
        None => entries.push((key, value)),
    }
}

/// An index that holds `needle`, with no earlier one, is its first index.
pub proof fn lemma_first_is<K>(s: Seq<K>, needle: K, i: int)
    requires
        0 <= i < s.len(),
        s[i] == needle,
        forall|j: int| 0 <= j < i ==> #[trigger] s[j] != needle,
    ensures
        s.index_of_first(needle) == Some(i),
{
    s.index_of_first_ensures(needle);
}

/// A sequence that does not hold `needle` has no first index of it.
pub proof fn lemma_first_none<K>(s: Seq<K>, needle: K)
    requires
        forall|j: int| 0 <= j < s.len() ==> #[trigger] s[j] != needle,
    ensures
        s.index_of_first(needle) is None,
{
    s.index_of_first_ensures(needle);
}

/// What `position` finds: the first index under `key`, or that there is none.
pub proof fn lemma_position<V>(entries: Seq<(Seq<char>, V)>, key: Seq<char>)
    ensures
        match position(entries, key) {
            Some(i) => {
                &&& 0 <= i < entries.len()
                &&& entries[i].0 == key
                &&& forall|j: int| 0 <= j < i ==> (#[trigger] entries[j]).0 != key
            },
            None => forall|j: int| 0 <= j < entries.len() ==> (#[trigger] entries[j]).0 != key,
        },
{
    let ks = keys(entries);
    ks.index_of_first_ensures(key);
    match ks.index_of_first(key) {
        Some(i) => {
            assert forall|j: int| 0 <= j < i implies (#[trigger] entries[j]).0 != key by {
                assert(ks[j] == entries[j].0);
            }
        },
        None => {
            assert forall|j: int| 0 <= j < entries.len() implies (#[trigger] entries[j]).0
                != key by {
                assert(ks[j] == entries[j].0);
            }
        },
    }
}

/// An index under `key` with no earlier one is the position of `key`.
pub proof fn lemma_position_is<V>(entries: Seq<(Seq<char>, V)>, key: Seq<char>, i: int)
    requires
        0 <= i < entries.len(),
        entries[i].0 == key,
        forall|j: int| 0 <= j < i ==> (#[trigger] entries[j]).0 != key,
    ensures
        position(entries, key) == Some(i),
{
    lemma_position(entries, key);
    let ks = keys(entries);
    assert(ks[i] == key);
}

/// No entry under `key` means no position.
pub proof fn lemma_position_none<V>(entries: Seq<(Seq<char>, V)>, key: Seq<char>)
    requires
        forall|j: int| 0 <= j < entries.len() ==> (#[trigger] entries[j]).0 != key,
    ensures
        position(entries, key) is None,
{
    lemma_position(entries, key);
}

/// After `upsert`, `key` holds `value` and every other name holds what it
/// held before.
pub proof fn lemma_lookup_upsert<V>(
    entries: Seq<(Seq<char>, V)>,
    key: Seq<char>,
    value: V,
    other: Seq<char>,
)
    ensures
        lookup(upsert(entries, key, value), other) == (if other == key {
            Some(value)
        } else {
            lookup(entries, other)
        }),
{
    let after = upsert(entries, key, value);
    lemma_position(entries, key);
    lemma_position(entries, other);
    match position(entries, key) {
        Some(i) => {
            if other == key {
                assert forall|j: int| 0 <= j < i implies (#[trigger] after[j]).0 != key by {
                    assert(after[j] == entries[j]);
                }
                lemma_position_is(after, key, i);
            } else {
                match position(entries, other) {
                    Some(k) => {
                        assert(k != i);
                        assert forall|j: int| 0 <= j < k implies (#[trigger] after[j]).0
                            != other by {
                            if j != i {
                                assert(after[j] == entries[j]);
                            }
                        }
                        lemma_position_is(after, other, k);
                    },
                    None => {
                        assert forall|j: int| 0 <= j < after.len() implies (#[trigger] after[j]).0
                            != other by {
                            if j != i {
                                assert(after[j] == entries[j]);
                            }
                        }
                        lemma_position_none(after, other);
                    },
                }
            }
        },
        None => {
            let n = entries.len() as int;
            if other == key {
                assert forall|j: int| 0 <= j < n implies (#[trigger] after[j]).0 != key by {
                    assert(after[j] == entries[j]);
                }
                lemma_position_is(after, key, n);
            } else {
                match position(entries, other) {
                    Some(k) => {
                        assert forall|j: int| 0 <= j < k implies (#[trigger] after[j]).0
                            != other by {
                            assert(after[j] == entries[j]);
                        }
                        assert(after[k] == entries[k]);
                        lemma_position_is(after, other, k);
                    },
                    None => {
                        assert forall|j: int| 0 <= j < after.len() implies (#[trigger] after[j]).0
                            != other by {
                            if j < n {
                                assert(after[j] == entries[j]);
                            }
                        }
                        lemma_position_none(after, other);
                    },
                }
            }
        },
    }
}

/// Every entry of `upsert` is the new one or one that was there before.
pub proof fn lemma_upsert_entries<V>(entries: Seq<(Seq<char>, V)>, key: Seq<char>, value: V)
    ensures
        upsert(entries, key, value).len() >= entries.len(),
        forall|j: int|
            0 <= j < upsert(entries, key, value).len() ==> {
                ||| (#[trigger] upsert(entries, key, value)[j]) == (key, value)
                ||| (j < entries.len() && upsert(entries, key, value)[j] == entries[j])
            },
{
    lemma_position(entries, key);
}

} // verus!
