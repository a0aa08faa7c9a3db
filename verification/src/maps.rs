//! The insertion-ordered hash maps of `indexmap` that hold a parse result,
//! and what the parser relies on of them.

use vstd::prelude::*;
use indexmap::IndexMap;
use crate::entries::{lookup, upsert};

verus! {

/// `indexmap::IndexMap`, a hash map that keeps its entries in the order in
/// which their keys were first inserted. Opaque to the verifier.
#[verifier::external_type_specification]
#[verifier::external_body]
#[verifier::reject_recursive_types(K)]
#[verifier::reject_recursive_types(V)]
#[verifier::reject_recursive_types(S)]
pub struct ExIndexMap<K, V, S>(IndexMap<K, V, S>);

/// The entries of a map of boolean flags, in insertion order.
pub uninterp spec fn flag_entries(m: IndexMap<String, bool>) -> Seq<(Seq<char>, bool)>;

/// The entries of a map of occurrence counts, in insertion order.
pub uninterp spec fn count_entries(m: IndexMap<String, u64>) -> Seq<(Seq<char>, u64)>;

/// The entries of a map of single values, in insertion order.
pub uninterp spec fn text_entries(m: IndexMap<String, String>) -> Seq<(Seq<char>, Seq<char>)>;

/// The entries of a map of value lists, in insertion order.
pub uninterp spec fn list_entries(m: IndexMap<String, Vec<String>>) -> Seq<
    (Seq<char>, Seq<Seq<char>>),
>;

/// `IndexMap::new`: a map without entries.
#[verifier::external_body]
pub(crate) fn flags_new() -> (m: IndexMap<String, bool>)
    ensures
        flag_entries(m).len() == 0,
{
    IndexMap::new()
}

/// `IndexMap::get`: the value stored under `key`, if there is one.
#[verifier::external_body]
pub(crate) fn flags_get(m: &IndexMap<String, bool>, key: &str) -> (r: Option<bool>)
    ensures
        r == lookup(flag_entries(*m), key@),
{
    m.get(key).copied()
}

/// `IndexMap::insert`: the value under an existing key is replaced and the
/// key keeps its place; a new key goes last.
#[verifier::external_body]
pub(crate) fn flags_insert(m: &mut IndexMap<String, bool>, key: String, value: bool)
    ensures
        flag_entries(*final(m)) == upsert(flag_entries(*old(m)), key@, value),
{
    m.insert(key, value);
}

/// `IndexMap::new`: a map without entries.
#[verifier::external_body]
pub(crate) fn counts_new() -> (m: IndexMap<String, u64>)
    ensures
        count_entries(m).len() == 0,
{
    IndexMap::new()
}

/// `IndexMap::get`: the value stored under `key`, if there is one.
#[verifier::external_body]
pub(crate) fn counts_get(m: &IndexMap<String, u64>, key: &str) -> (r: Option<u64>)
    ensures
        r == lookup(count_entries(*m), key@),
{
    m.get(key).copied()
}

/// `IndexMap::insert`: the value under an existing key is replaced and the
/// key keeps its place; a new key goes last.
#[verifier::external_body]
pub(crate) fn counts_insert(m: &mut IndexMap<String, u64>, key: String, value: u64)
    ensures
        count_entries(*final(m)) == upsert(count_entries(*old(m)), key@, value),
{
    m.insert(key, value);
}

/// `IndexMap::new`: a map without entries.
#[verifier::external_body]
pub(crate) fn texts_new() -> (m: IndexMap<String, String>)
    ensures
        text_entries(m).len() == 0,
{
    IndexMap::new()
}

/// `IndexMap::get`: the value stored under `key`, if there is one.
#[verifier::external_body]
pub(crate) fn texts_get<'a>(m: &'a IndexMap<String, String>, key: &str) -> (r: Option<&'a String>)
    ensures
        match r {
            Some(value) => lookup(text_entries(*m), key@) == Some(value@),
            None => lookup(text_entries(*m), key@) is None,
        },
{
    m.get(key)
}

/// `IndexMap::insert`: the value under an existing key is replaced and the
/// key keeps its place; a new key goes last.
#[verifier::external_body]
pub(crate) fn texts_insert(m: &mut IndexMap<String, String>, key: String, value: String)
    ensures
        text_entries(*final(m)) == upsert(text_entries(*old(m)), key@, value@),
{
    m.insert(key, value);
}

/// `IndexMap::new`: a map without entries.
#[verifier::external_body]
pub(crate) fn lists_new() -> (m: IndexMap<String, Vec<String>>)
    ensures
        list_entries(m).len() == 0,
{
    IndexMap::new()
}

/// `IndexMap::get`: the value stored under `key`, if there is one.
#[verifier::external_body]
pub(crate) fn lists_get<'a>(m: &'a IndexMap<String, Vec<String>>, key: &str) -> (r: Option<
    &'a Vec<String>,
>)
    ensures
        match r {
            Some(values) => lookup(list_entries(*m), key@) == Some(values.deep_view()),
            None => lookup(list_entries(*m), key@) is None,
        },
{
    m.get(key)
}

/// `IndexMap::get_mut`: the value stored under `key`, if there is one, for
/// change in place. No other entry changes, nor the order.
#[verifier::external_body]
pub(crate) fn lists_get_mut<'a>(m: &'a mut IndexMap<String, Vec<String>>, key: &str) -> (r: Option<
    &'a mut Vec<String>,
>)
    ensures
        match r {
            Some(values) => {
                &&& lookup(list_entries(*old(m)), key@) == Some(values.deep_view())
                &&& list_entries(*final(m)) == upsert(
                    list_entries(*old(m)),
                    key@,
                    final(values).deep_view(),
                )
            },
            None => {
                &&& lookup(list_entries(*old(m)), key@) is None
                &&& list_entries(*final(m)) == list_entries(*old(m))
            },
        },
{
    m.get_mut(key)
}

/// `IndexMap::insert`: the value under an existing key is replaced and the
/// key keeps its place; a new key goes last.
#[verifier::external_body]
pub(crate) fn lists_insert(m: &mut IndexMap<String, Vec<String>>, key: String, value: Vec<String>)
    ensures
        list_entries(*final(m)) == upsert(list_entries(*old(m)), key@, value.deep_view()),
{
    m.insert(key, value);
}

} // verus!
