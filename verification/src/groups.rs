//! Groups: named, ordered sets of option or flag names. They arrange the
//! usage text and mean nothing to the parser.

use vstd::prelude::*;
use indexmap::IndexMap;
use indexmap::IndexSet;
use crate::entries::{lookup, upsert};
use crate::text::optional_text;

verus! {

/// `indexmap::IndexSet`, a hash set that keeps its items in the order in
/// which they were first inserted. Opaque to the verifier.
#[verifier::external_type_specification]
#[verifier::external_body]
#[verifier::reject_recursive_types(T)]
#[verifier::reject_recursive_types(S)]
pub struct ExIndexSet<T, S>(IndexSet<T, S>);

/// The items of a set of names, in insertion order.
pub uninterp spec fn set_items(s: IndexSet<String>) -> Seq<Seq<char>>;

/// The items after `item` was inserted: a new item goes last, one that is
/// there already changes nothing.
pub open spec fn with_item(items: Seq<Seq<char>>, item: Seq<char>) -> Seq<Seq<char>> {
    if items.contains(item) {
        items
    } else {
        items.push(item)
    }
}

/// `IndexSet::clone`: a set with the same items in the same order.
#[verifier::external_body]
pub(crate) fn names_clone(s: &IndexSet<String>) -> (r: IndexSet<String>)
    ensures
        set_items(r) == set_items(*s),
{
    s.clone()
}

/// `IndexSet::new`: a set without items.
#[verifier::external_body]
pub(crate) fn names_new() -> (s: IndexSet<String>)
    ensures
        set_items(s).len() == 0,
{
    IndexSet::new()
}

/// `IndexSet::insert`: a new item goes last; an item that is there already
/// stays where it is and nothing changes.
#[verifier::external_body]
pub(crate) fn names_insert(s: &mut IndexSet<String>, item: String)
    ensures
        set_items(*final(s)) == with_item(set_items(*old(s)), item@),
{
    s.insert(item);
}

/// `IndexSet::contains`: whether the item is in the set.
#[verifier::external_body]
pub(crate) fn names_contains(s: &IndexSet<String>, item: &str) -> (r: bool)
    ensures
        r == set_items(*s).contains(item@),
{
    s.contains(item)
}

/// `IndexSet::len`: the number of items.
#[verifier::external_body]
pub(crate) fn names_len(s: &IndexSet<String>) -> (n: usize)
    ensures
        n == set_items(*s).len(),
{
    s.len()
}

/// `IndexSet::get_index`: the item at a place in insertion order.
#[verifier::external_body]
pub(crate) fn names_get_index(s: &IndexSet<String>, index: usize) -> (r: Option<&String>)
    ensures
        match r {
            Some(item) => index < set_items(*s).len() && item@ == set_items(*s)[index as int],
            None => index >= set_items(*s).len(),
        },
{
    s.get_index(index)
}

/// A named, ordered set of option or flag names.
pub struct Group {
    pub items: Option<IndexSet<String>>,
    pub name: String,
    pub help: Option<String>,
}

/// A group as plain values.
pub struct GroupView {
    pub items: Option<Seq<Seq<char>>>,
    pub name: Seq<char>,
    pub help: Option<Seq<char>>,
}

/// The items of a group, or none where it has no set of items yet.
pub open spec fn items_so_far(group: GroupView) -> Seq<Seq<char>> {
    match group.items {
        Some(items) => items,
        None => Seq::empty(),
    }
}

impl View for Group {
    type V = GroupView;

    open spec fn view(&self) -> GroupView {
        GroupView {
            items: match self.items {
                Some(s) => Some(set_items(s)),
                None => None,
            },
            name: self.name@,
            help: optional_text(self.help),
        }
    }
}

impl Group {
    /// A group without items.
    pub fn new(name: String, help: Option<String>) -> (g: Group)
        ensures
            g@ == (GroupView { items: None, name: name@, help: optional_text(help) }),
    {
        Group { name, help, items: None }
    }

    /// Puts `item` into the group: last, unless it is there already.
    pub fn add_item(&mut self, item: &str)
        ensures
            final(self)@ == (GroupView {
                items: Some(
                    with_item(
                        match old(self)@.items {
                            Some(items) => items,
                            None => Seq::empty(),
                        },
                        item@,
                    ),
                ),
                ..old(self)@
            }),
    {
        match &mut self.items {
            Some(items) => {
                names_insert(items, item.to_owned());
            },
            None => {
                let mut items = names_new();
                assert(set_items(items) =~= Seq::empty());
                names_insert(&mut items, item.to_owned());
                self.items = Some(items);
            },
        }
    }
}

impl Clone for Group {
    /// A copy with the same name, help and items.
    fn clone(&self) -> (r: Self)
        ensures
            r@ == self@,
    {
        let items = match &self.items {
            Some(set) => Some(names_clone(set)),
            None => None,
        };
        let help = match &self.help {
            Some(text) => Some(text.clone()),
            None => None,
        };
        Group { items, name: self.name.clone(), help }
    }
}

/// Collects the settings of a `Group`.
#[derive(Clone)]
pub struct GroupBuilder {
    pub items: Option<Option<IndexSet<String>>>,
    pub name: Option<String>,
    pub help: Option<Option<String>>,
}

impl GroupBuilder {
    /// A builder with nothing set.
    pub open spec fn unset() -> GroupBuilder {
        GroupBuilder { items: None, name: None, help: None }
    }

    /// Sets the items.
    pub fn items(&mut self, value: Option<IndexSet<String>>) -> (r: &mut Self)
        ensures
            *r == (GroupBuilder { items: Some(value), ..*old(self) }),
            *final(self) == *final(r),
    {
        self.items = Some(value);
        self
    }

    /// Sets the name.
    pub fn name(&mut self, value: String) -> (r: &mut Self)
        ensures
            *r == (GroupBuilder { name: Some(value), ..*old(self) }),
            *final(self) == *final(r),
    {
        self.name = Some(value);
        self
    }

    /// Sets the help text.
    pub fn help(&mut self, value: Option<String>) -> (r: &mut Self)
        ensures
            *r == (GroupBuilder { help: Some(value), ..*old(self) }),
            *final(self) == *final(r),
    {
        self.help = Some(value);
        self
    }

    /// The group that the settings describe, once a name is set: unset
    /// items and help are absent.
    pub open spec fn product(&self) -> GroupView {
        GroupView {
            items: match self.items {
                Some(Some(set)) => Some(set_items(set)),
                _ => None,
            },
            name: self.name->0@,
            help: match self.help {
                Some(Some(text)) => Some(text@),
                _ => None,
            },
        }
    }

    /// The group, or the error that the name was never set. The builder
    /// stays as it was.
    pub fn build(&self) -> (r: Result<Group, String>)
        ensures
            match r {
                Ok(group) => self.name is Some && group@ == self.product(),
                Err(message) => self.name is None && message@ == "`name` must be initialized"@,
            },
    {
        let items = match &self.items {
            Some(Some(set)) => Some(names_clone(set)),
            _ => None,
        };
        let name = match &self.name {
            Some(value) => value.clone(),
            None => {
                return Err("`name` must be initialized".to_owned());
            },
        };
        let help = match &self.help {
            Some(Some(text)) => Some(text.clone()),
            _ => None,
        };
        Ok(Group { items, name, help })
    }
}

impl Default for GroupBuilder {
    fn default() -> (b: Self)
        ensures
            b == GroupBuilder::unset(),
    {
        GroupBuilder { items: None, name: None, help: None }
    }
}

/// The entries of a map of groups, in insertion order.
pub uninterp spec fn group_entries(m: IndexMap<String, Group>) -> Seq<(Seq<char>, GroupView)>;

/// `IndexMap::clone`: a map with the same entries in the same order, each
/// group copied by `Group::clone`.
#[verifier::external_body]
pub(crate) fn groups_clone(m: &IndexMap<String, Group>) -> (r: IndexMap<String, Group>)
    ensures
        group_entries(r) == group_entries(*m),
{
    m.clone()
}

/// Two optional maps of groups with the same entries in the same order.
pub open spec fn groups_alike(
    a: Option<IndexMap<String, Group>>,
    b: Option<IndexMap<String, Group>>,
) -> bool {
    match (a, b) {
        (Some(x), Some(y)) => group_entries(x) == group_entries(y),
        (None, None) => true,
        _ => false,
    }
}

/// A copy of an optional map of groups.
pub fn copy_groups(groups: &Option<IndexMap<String, Group>>) -> (r: Option<IndexMap<String, Group>>)
    ensures
        groups_alike(*groups, r),
{
    match groups {
        Some(map) => Some(groups_clone(map)),
        None => None,
    }
}

/// `IndexMap::new`: a map without entries.
#[verifier::external_body]
pub(crate) fn groups_new() -> (m: IndexMap<String, Group>)
    ensures
        group_entries(m).len() == 0,
{
    IndexMap::new()
}

/// `IndexMap::insert`: the value under an existing key is replaced and the
/// key keeps its place; a new key goes last.
#[verifier::external_body]
pub(crate) fn groups_insert(m: &mut IndexMap<String, Group>, key: String, group: Group)
    ensures
        group_entries(*final(m)) == upsert(group_entries(*old(m)), key@, group@),
{
    m.insert(key, group);
}

/// `IndexMap::get_mut`: the value stored under `key`, if there is one, for
/// change in place. No other entry changes, nor the order.
#[verifier::external_body]
pub(crate) fn groups_get_mut<'a>(m: &'a mut IndexMap<String, Group>, key: &str) -> (r: Option<
    &'a mut Group,
>)
    ensures
        match r {
            Some(group) => {
                &&& lookup(group_entries(*old(m)), key@) == Some(group@)
                &&& group_entries(*final(m)) == upsert(
                    group_entries(*old(m)),
                    key@,
                    final(group)@,
                )
            },
            None => {
                &&& lookup(group_entries(*old(m)), key@) is None
                &&& group_entries(*final(m)) == group_entries(*old(m))
            },
        },
{
    m.get_mut(key)
}

/// `IndexMap::len`: the number of entries.
#[verifier::external_body]
pub(crate) fn groups_len(m: &IndexMap<String, Group>) -> (n: usize)
    ensures
        n == group_entries(*m).len(),
{
    m.len()
}

/// `IndexMap::get_index`: the value at a place in insertion order.
#[verifier::external_body]
pub(crate) fn groups_get_index(m: &IndexMap<String, Group>, index: usize) -> (r: Option<&Group>)
    ensures
        match r {
            Some(group) => index < group_entries(*m).len() && group@ == group_entries(
                *m,
            )[index as int].1,
            None => index >= group_entries(*m).len(),
        },
{
    m.get_index(index).map(|entry| entry.1)
}

} // verus!
