//! Changes that have not been applied yet.
use vstd::prelude::*;
use alloy_primitives::map::{DefaultHashBuilder, HashMap};
use crate::transaction::value::{Change, RawPath, TrieValue};

verus! {

/// The hasher of [`alloy_primitives::map::HashMap`].
#[verifier::external_type_specification]
#[verifier::external_body]
pub struct ExDefaultHashBuilder(DefaultHashBuilder);

/// What a map of changes holds: for each path, by its contents, the value it was last given.
pub uninterp spec fn entries(map: HashMap<RawPath, Option<TrieValue>>) -> Map<
    Seq<u8>,
    Option<TrieValue>,
>;

/// The map without changes.
pub open spec fn no_changes() -> Map<Seq<u8>, Option<TrieValue>> {
    Map::empty()
}

/// Calls `HashMap::default` of `alloy_primitives::map`: the new map holds nothing.
#[verifier::external_body]
fn new_map() -> (map: HashMap<RawPath, Option<TrieValue>>)
    ensures
        entries(map) == no_changes(),
{
    HashMap::default()
}

/// Calls `HashMap::insert` of `alloy_primitives::map`: the path is given the value, in place of the
/// one that it had, and nothing else changes. Paths are the same key if they have the same bytes.
#[verifier::external_body]
fn insert(map: &mut HashMap<RawPath, Option<TrieValue>>, path: RawPath, value: Option<TrieValue>)
    ensures
        entries(*final(map)) == entries(*old(map)).insert(path@, value),
{
    map.insert(path, value);
}

/// The changes are those of the map, each exactly once.
pub open spec fn lists_all(changes: Seq<Change>, map: Map<Seq<u8>, Option<TrieValue>>) -> bool {
    &&& forall|i: int|
        0 <= i < changes.len() ==> map.contains_key((#[trigger] changes[i]).0@)
            && map[changes[i].0@] == changes[i].1
    &&& forall|i: int, j: int|
        0 <= i < j < changes.len() ==> (#[trigger] changes[i]).0@ != (#[trigger] changes[j]).0@
    &&& forall|path: Seq<u8>| #[trigger]
        map.contains_key(path) ==> exists|i: int|
            0 <= i < changes.len() && (#[trigger] changes[i]).0@ == path
}

/// Calls `HashMap::drain` of `alloy_primitives::map` and collects what it yields: every entry of
/// the map once, in an order that is left open. The map holds nothing afterwards.
#[verifier::external_body]
fn drain(map: &mut HashMap<RawPath, Option<TrieValue>>) -> (changes: Vec<Change>)
    ensures
        lists_all(changes@, entries(*old(map))),
        entries(*final(map)) == no_changes(),
{
    map.drain().collect()
}

/// Calls `HashMap::len` of `alloy_primitives::map`: the number of paths that have an entry.
#[verifier::external_body]
fn count(map: &HashMap<RawPath, Option<TrieValue>>) -> (len: usize)
    ensures
        len == entries(*map).dom().len(),
{
    map.len()
}

/// Changes that have not been applied yet, at most one for each path.
#[derive(Debug)]
pub struct PendingChanges {
    map: HashMap<RawPath, Option<TrieValue>>,
}

impl View for PendingChanges {
    type V = Map<Seq<u8>, Option<TrieValue>>;

    closed spec fn view(&self) -> Map<Seq<u8>, Option<TrieValue>> {
        entries(self.map)
    }
}

impl PendingChanges {
    /// No changes.
    pub fn new() -> (changes: Self)
        ensures
            changes@ == no_changes(),
    {
        PendingChanges { map: new_map() }
    }

    /// Number of changes.
    pub fn len(&self) -> (len: usize)
        ensures
            len == self@.dom().len(),
    {
        count(&self.map)
    }

    /// Adds a change, in place of an earlier one for the same path.
    pub fn insert(&mut self, path: RawPath, value: Option<TrieValue>)
        ensures
            final(self)@ == old(self)@.insert(path@, value),
    {
        insert(&mut self.map, path, value);
    }

    /// Takes out all changes, in any order.
    pub fn drain(&mut self) -> (changes: Vec<Change>)
        ensures
            lists_all(changes@, old(self)@),
            final(self)@ == no_changes(),
    {
        drain(&mut self.map)
    }
}

} // verus!
