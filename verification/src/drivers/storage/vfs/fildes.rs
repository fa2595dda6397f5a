//! File descriptors, and the generation of keys for a table of them.
use vstd::prelude::*;
use std::collections::BTreeMap;

verus! {

broadcast use vstd::std_specs::btree::group_btree_axioms;

/// A file descriptor.
pub type Fd = usize;

/// The identifier of an open file description.
pub type OFDId = usize;

/// An open file descriptor: the open file description it refers to.
#[derive(Debug, Copy, Clone, PartialEq, Eq, Structural)]
pub struct Fildes {
    ofd_id: OFDId,
}

impl Fildes {
    /// The open file description referred to.
    pub closed spec fn ofd(self) -> OFDId {
        self.ofd_id
    }

    /// The descriptor of the open file description `ofd_id`.
    pub fn new(ofd_id: OFDId) -> (r: Self)
        ensures
            r.ofd() == ofd_id,
    {
        Fildes { ofd_id }
    }

    /// The open file description referred to.
    pub fn ofd_id(&self) -> (r: OFDId)
        ensures
            r == self.ofd(),
    {
        self.ofd_id
    }
}

/// Generates keys: the first key from 0 up that the filter takes.
pub trait KeyGenerator: Sized {
    /// Whether `key` may be generated.
    spec fn spec_gen_filter(&self, key: usize) -> bool;

    /// Whether `key` may be generated.
    fn gen_filter(&self, key: usize) -> (r: bool)
        ensures
            r == self.spec_gen_filter(key),
    ;

    /// The first key from 0 up that the filter takes; there must be one.
    fn gen(&mut self) -> (k: usize)
        requires
            exists|k: usize| old(self).spec_gen_filter(k),
        ensures
            *final(self) == *old(self),
            old(self).spec_gen_filter(k),
            forall|j: usize| j < k ==> !old(self).spec_gen_filter(j),
    {
        let ghost bound = choose|k: usize| self.spec_gen_filter(k);
        let mut cur: usize = 0;
        while !self.gen_filter(cur)
            invariant
                self.spec_gen_filter(bound),
                cur <= bound,
                forall|j: usize| j < cur ==> !self.spec_gen_filter(j),
            decreases bound - cur,
        {
            cur = cur + 1;
        }
        cur
    }
}

/// The errors of a mapper.
#[derive(Debug, Copy, Clone, PartialEq, Eq, Structural)]
pub enum MapperError {
    EntryAlreadyExists,
    NoSuchEntry,
}

/// The result of a mapper.
pub type MapperResult<T> = Result<T, MapperError>;

/// A map whose keys are generated: an entry added goes under the first
/// key the generator takes, which is never in the map.
pub trait Mapper<V>: KeyGenerator {
    /// The map.
    spec fn spec_map(&self) -> Map<usize, V>;

    /// Whether `self` is `other` but for its map.
    spec fn same_but_map(&self, other: &Self) -> bool;

    /// A key the generator takes is not in a map that changed alone, when
    /// it was not in the map before.
    proof fn lemma_filter_follows_map(&self, other: &Self, key: usize)
        requires
            self.same_but_map(other),
            self.spec_map() == other.spec_map(),
        ensures
            self.spec_gen_filter(key) == other.spec_gen_filter(key),
    ;

    /// A key the generator takes is not in the map.
    proof fn lemma_filter_is_free(&self, key: usize)
        requires
            self.spec_gen_filter(key),
        ensures
            !self.spec_map().contains_key(key),
    ;

    /// The generator always has a key to give.
    proof fn lemma_has_free_key(&self)
        ensures
            exists|k: usize| self.spec_gen_filter(k),
    ;

    /// The map, to be changed.
    fn get_map(&mut self) -> (m: &mut BTreeMap<usize, V>)
        ensures
            m@ == old(self).spec_map(),
            final(self).spec_map() == final(m)@,
            final(self).same_but_map(old(self)),
    ;

    /// Adds `entry` under the first key the generator takes (from 0 up),
    /// and returns that key.
    fn add_entry(&mut self, entry: V) -> (r: MapperResult<usize>)
        ensures
            r matches Ok(k) && old(self).spec_gen_filter(k) && (forall|j: usize|
                j < k ==> !old(self).spec_gen_filter(j)) && !old(self).spec_map().contains_key(k)
                && final(self).spec_map() == old(self).spec_map().insert(k, entry),
            final(self).same_but_map(old(self)),
    {
        proof {
            self.lemma_has_free_key();
        }
        let key = self.gen();
        proof {
            self.lemma_filter_is_free(key);
        }
        let map = self.get_map();
        map.insert(key, entry);
        Ok(key)
    }

    /// Removes the entry under `key` and returns it; `NoSuchEntry`, with
    /// the map unchanged, when there is none.
    fn remove_entry(&mut self, key: usize) -> (r: MapperResult<V>)
        ensures
            old(self).spec_map().contains_key(key) ==> r == Ok::<V, MapperError>(
                old(self).spec_map()[key],
            ) && final(self).spec_map() == old(self).spec_map().remove(key),
            !old(self).spec_map().contains_key(key) ==> r == Err::<V, MapperError>(
                MapperError::NoSuchEntry,
            ) && final(self).spec_map() == old(self).spec_map(),
            final(self).same_but_map(old(self)),
    {
        let map = self.get_map();
        if !map.contains_key(&key) {
            return Err(MapperError::NoSuchEntry);
        }
        match map.remove(&key) {
            Some(v) => Ok(v),
            None => Err(MapperError::NoSuchEntry),
        }
    }
}

} // verus!
