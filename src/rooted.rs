//! A registry of the collections whose values the garbage collector must
//! treat as roots, held as an explicit object rather than in thread-local
//! state: whoever creates a rooted collection registers it here, and
//! unregisters it when the collection goes away.

use std::collections::HashSet;

use vstd::prelude::*;

verus! {

broadcast use vstd::std_specs::hash::group_hash_axioms;

/// The kinds of values that a rooted collection can hold; each kind is
/// traced its own way.
#[derive(Clone, Copy, Debug, PartialEq, Eq, Structural)]
pub enum CollectionType {
    DomObjects,
    JsVals,
    JsObjects,
}

impl CollectionType {
    pub open spec fn index(self) -> int {
        match self {
            CollectionType::DomObjects => 0,
            CollectionType::JsVals => 1,
            CollectionType::JsObjects => 2,
        }
    }

    pub fn slot(self) -> (r: usize)
        ensures
            r == self.index(),
    {
        match self {
            CollectionType::DomObjects => 0,
            CollectionType::JsVals => 1,
            CollectionType::JsObjects => 2,
        }
    }
}

/// The registered collections, by kind, each by the number that names it.
#[derive(Debug)]
pub struct RootedCollectionSet {
    set: Vec<HashSet<u64>>,
}

impl View for RootedCollectionSet {
    type V = Seq<Set<u64>>;

    closed spec fn view(&self) -> Seq<Set<u64>> {
        self.set@.map_values(|s: HashSet<u64>| s@)
    }
}

impl RootedCollectionSet {
    /// A registry with no collection of any kind.
    pub fn initialize() -> (r: RootedCollectionSet)
        ensures
            r@ == seq![Set::<u64>::empty(), Set::<u64>::empty(), Set::<u64>::empty()],
    {
        let mut set: Vec<HashSet<u64>> = Vec::new();
        set.push(HashSet::new());
        set.push(HashSet::new());
        set.push(HashSet::new());
        let r = RootedCollectionSet { set };
        assert(r@ =~= seq![Set::<u64>::empty(), Set::<u64>::empty(), Set::<u64>::empty()]);
        r
    }

    /// Whether `collection` is registered under `kind`.
    pub fn contains(&self, kind: CollectionType, collection: u64) -> (r: bool)
        requires
            self@.len() == 3,
        ensures
            r == self@[kind.index()].contains(collection),
    {
        self.set[kind.slot()].contains(&collection)
    }

    /// Registers `collection` under `kind`.
    pub fn add(&mut self, kind: CollectionType, collection: u64)
        requires
            old(self)@.len() == 3,
        ensures
            final(self)@ == old(self)@.update(kind.index(), old(self)@[kind.index()].insert(collection)),
    {
        let k = kind.slot();
        self.set[k].insert(collection);
        assert(self@ =~= old(self)@.update(kind.index(), old(self)@[kind.index()].insert(collection)));
    }

    /// Unregisters `collection` from `kind`; says whether it was registered.
    pub fn remove(&mut self, kind: CollectionType, collection: u64) -> (r: bool)
        requires
            old(self)@.len() == 3,
        ensures
            r == old(self)@[kind.index()].contains(collection),
            final(self)@ == old(self)@.update(kind.index(), old(self)@[kind.index()].remove(collection)),
    {
        let k = kind.slot();
        let r = self.set[k].remove(&collection);
        assert(self@ =~= old(self)@.update(kind.index(), old(self)@[kind.index()].remove(collection)));
        r
    }
}

/// A vector whose items are roots for as long as it is registered.
#[derive(Debug)]
pub struct RootedVec<T> {
    v: Vec<T>,
}

impl<T> View for RootedVec<T> {
    type V = Seq<T>;

    closed spec fn view(&self) -> Seq<T> {
        self.v@
    }
}

impl<T> RootedVec<T> {
    pub fn new() -> (r: RootedVec<T>)
        ensures
            r@ == Seq::<T>::empty(),
    {
        RootedVec { v: Vec::new() }
    }

    pub fn len(&self) -> (r: usize)
        ensures
            r == self@.len(),
    {
        self.v.len()
    }

    pub fn push(&mut self, value: T)
        ensures
            final(self)@ == old(self)@.push(value),
    {
        self.v.push(value);
    }

    pub fn get(&self, i: usize) -> (r: &T)
        requires
            i < self@.len(),
        ensures
            *r == self@[i as int],
    {
        &self.v[i]
    }
}

} // verus!
