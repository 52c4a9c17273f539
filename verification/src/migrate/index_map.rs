//! The translation of the indices of one entity type.

use vstd::prelude::*;
use core::marker::PhantomData;
use std::collections::BTreeMap;
use crate::migrate::errors::{dangling, duplicate, MigrationError, MigrationErrorView};
use crate::objects::vec::data::Typename;
use crate::objects::vec::VecIndex;

verus! {

broadcast use {
    vstd::std_specs::btree::group_btree_axioms,
    vstd::laws_cmp::group_laws_cmp,
};

/// For the records of one entity type: the sink index of each source index
/// that was migrated.
#[derive(Debug)]
pub struct IndexMap<T> {
    map: BTreeMap<usize, usize>,
    _phantom: PhantomData<T>,
}

impl<T> View for IndexMap<T> {
    type V = Map<usize, usize>;

    closed spec fn view(&self) -> Map<usize, usize> {
        self.map@
    }
}

/// What looking a source index up in a map comes to.
pub open spec fn translated<T: Typename>(map: Map<usize, usize>, idx: usize) -> Result<
    VecIndex<T>,
    MigrationErrorView,
> {
    if map.contains_key(idx) {
        Ok(VecIndex::at(map[idx]))
    } else {
        Err(dangling::<T>(idx))
    }
}

/// What looking an optional source index up in a map comes to.
pub open spec fn translated_opt<T: Typename>(
    map: Map<usize, usize>,
    o: Option<VecIndex<T>>,
) -> Result<
    Option<VecIndex<T>>,
    MigrationErrorView,
> {
    match o {
        Some(idx) => match translated::<T>(map, idx.idx) {
            Ok(to) => Ok(Some(to)),
            Err(e) => Err(e),
        },
        None => Ok(None),
    }
}

/// What looking a sequence of source indices up in a map comes to: the sink
/// indices, or the error of the first index that was not migrated.
pub open spec fn translated_all<T: Typename>(map: Map<usize, usize>, s: Seq<VecIndex<T>>) -> Result<
    Seq<VecIndex<T>>,
    MigrationErrorView,
>
    decreases s.len(),
{
    if s.len() == 0 {
        Ok(Seq::empty())
    } else {
        match translated_all::<T>(map, s.drop_last()) {
            Err(e) => Err(e),
            Ok(front) => match translated::<T>(map, s.last().idx) {
                Err(e) => Err(e),
                Ok(to) => Ok(front.push(to)),
            },
        }
    }
}

/// Once a prefix of the indices fails to translate, every longer prefix
/// fails alike.
pub proof fn lemma_translated_all_stays_failed<T: Typename>(
    map: Map<usize, usize>,
    s: Seq<VecIndex<T>>,
    n: int,
)
    requires
        0 <= n <= s.len(),
        translated_all::<T>(map, s.subrange(0, n)) is Err,
    ensures
        translated_all::<T>(map, s) == translated_all::<T>(map, s.subrange(0, n)),
    decreases s.len() - n,
{
    if n == s.len() {
        assert(s.subrange(0, n) =~= s);
    } else {
        let upto = s.subrange(0, n + 1);
        assert(upto.drop_last() =~= s.subrange(0, n));
        lemma_translated_all_stays_failed::<T>(map, s, n + 1);
    }
}

/// A sequence of indices fails to translate for want of a translation of an
/// index.
pub proof fn lemma_translated_all_fails_dangling<T: Typename>(
    map: Map<usize, usize>,
    s: Seq<VecIndex<T>>,
)
    ensures
        translated_all::<T>(map, s) matches Err(e) ==> e is DanglingSourceIndex,
    decreases s.len(),
{
    if s.len() > 0 {
        lemma_translated_all_fails_dangling::<T>(map, s.drop_last());
    }
}

/// What the outcome of a look-up says.
pub open spec fn looked_up<T>(r: Result<VecIndex<T>, MigrationError>) -> Result<
    VecIndex<T>,
    MigrationErrorView,
> {
    match r {
        Ok(idx) => Ok(idx),
        Err(e) => Err(e@),
    }
}

impl<T: Typename> IndexMap<T> {
    /// The map without entries.
    pub fn new() -> (r: Self)
        ensures
            r@ == Map::<usize, usize>::empty(),
    {
        IndexMap { map: BTreeMap::new(), _phantom: PhantomData }
    }

    /// Whether the source index `key` was migrated.
    pub fn contains_key(&self, key: &VecIndex<T>) -> (r: bool)
        ensures
            r == self@.contains_key(key.idx),
    {
        self.map.contains_key(&key.idx)
    }

    /// The sink index of the source index `key`.
    pub fn get(&self, key: &VecIndex<T>) -> (r: Result<VecIndex<T>, MigrationError>)
        ensures
            looked_up(r) == translated::<T>(self@, key.idx),
    {
        match self.map.get(&key.idx) {
            Some(sink_idx) => Ok(VecIndex::new(*sink_idx)),
            None => Err(MigrationError::dangling_source_index::<T>(key)),
        }
    }

    /// The sink index of an optional source index.
    pub fn get_opt(&self, key: &Option<VecIndex<T>>) -> (r: Result<
        Option<VecIndex<T>>,
        MigrationError,
    >)
        ensures
            match r {
                Ok(v) => translated_opt::<T>(self@, *key) == Ok::<
                    Option<VecIndex<T>>,
                    MigrationErrorView,
                >(v),
                Err(e) => translated_opt::<T>(self@, *key) == Err::<
                    Option<VecIndex<T>>,
                    MigrationErrorView,
                >(e@),
            },
    {
        match key {
            Some(idx) => match self.get(idx) {
                Ok(to) => Ok(Some(to)),
                Err(e) => Err(e),
            },
            None => Ok(None),
        }
    }

    /// The sink indices of a list of source indices.
    pub fn get_all(&self, keys: &Vec<VecIndex<T>>) -> (r: Result<Vec<VecIndex<T>>, MigrationError>)
        ensures
            match r {
                Ok(v) => translated_all::<T>(self@, keys@) == Ok::<
                    Seq<VecIndex<T>>,
                    MigrationErrorView,
                >(v@),
                Err(e) => translated_all::<T>(self@, keys@) == Err::<
                    Seq<VecIndex<T>>,
                    MigrationErrorView,
                >(e@),
            },
    {
        let mut r: Vec<VecIndex<T>> = Vec::new();
        let mut i: usize = 0;
        proof {
            assert(keys@.subrange(0, 0) =~= Seq::empty());
        }
        while i < keys.len()
            invariant
                i <= keys.len(),
                translated_all::<T>(self@, keys@.subrange(0, i as int)) == Ok::<
                    Seq<VecIndex<T>>,
                    MigrationErrorView,
                >(r@),
            decreases keys.len() - i,
        {
            let ghost upto = keys@.subrange(0, i + 1);
            assert(upto.drop_last() =~= keys@.subrange(0, i as int));
            assert(upto.last() == keys@[i as int]);
            match self.get(&keys[i]) {
                Ok(to) => {
                    r.push(to);
                },
                Err(e) => {
                    proof {
                        lemma_translated_all_stays_failed::<T>(self@, keys@, i + 1);
                    }
                    return Err(e);
                },
            }
            i += 1;
        }
        assert(keys@.subrange(0, keys@.len() as int) =~= keys@);
        Ok(r)
    }

    /// Check that the source index `key` comes up for the first time.
    pub fn entry(&self, key: &VecIndex<T>) -> (r: Result<(), MigrationError>)
        ensures
            match r {
                Ok(()) => !self@.contains_key(key.idx),
                Err(e) => self@.contains_key(key.idx) && e@ == duplicate::<T>(key.idx),
            },
    {
        if self.map.contains_key(&key.idx) {
            Err(MigrationError::duplicate_source_index::<T>(key))
        } else {
            Ok(())
        }
    }

    /// Record that the source index `key` was migrated to the sink index
    /// `value`.
    pub fn insert(&mut self, key: VecIndex<T>, value: VecIndex<T>)
        ensures
            final(self)@ == old(self)@.insert(key.idx, value.idx),
    {
        self.map.insert(key.idx, value.idx);
    }
}

} // verus!
