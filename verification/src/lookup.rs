//! Looking entities up by index.

use vstd::prelude::*;

verus! {

/// A trait to lookup other data based on an index.
pub trait Lookup<T> {
    /// The type used to lookup instances of `T`.
    type Index;

    /// What `idx` names in the store, if it names anything.
    spec fn resolve(&self, idx: &Self::Index) -> Option<T>;

    /// Find an instance of `T` given an index.
    fn lookup<'a>(&'a self, idx: &'a Self::Index) -> (r: Option<&'a T>)
        ensures
            match r {
                Some(v) => self.resolve(idx) == Some(*v),
                None => self.resolve(idx) is None,
            },
    ;

    /// Whether `after` is what the store becomes when `data` is stored in it:
    /// each kind of store says here what it keeps and what it replaces.
    spec fn stored(&self, data: T, after: &Self) -> bool;

    /// Store an instance of `T` returning an index to get it again.
    fn store(&mut self, data: T) -> (idx: Self::Index)
        ensures
            final(self).resolve(&idx) == Some(data),
            old(self).stored(data, final(self)),
    ;
}

/// A `Lookup` that can also list what it contains.
pub trait DiscoverableLookup<T>: Lookup<T> {
    /// The indices of the store, in the order in which their records were
    /// first stored.
    spec fn indices(&self) -> Seq<Self::Index>;

    /// The identity key of a record.
    spec fn identity(record: &T) -> u64;

    /// Return all indices.
    fn all_indices(&self) -> (r: Vec<Self::Index>)
        ensures
            r@ == self.indices(),
    ;

    /// Find an object by its ID.
    fn find(&self, id: u64) -> (r: Option<Self::Index>)
        ensures
            match r {
                Some(idx) => self.resolve(&idx) is Some && Self::identity(
                    &self.resolve(&idx).unwrap(),
                ) == id,
                None => forall|i: int|
                    0 <= i < self.indices().len() ==> match #[trigger] self.resolve(
                        &self.indices()[i],
                    ) {
                        Some(record) => Self::identity(&record) != id,
                        None => true,
                    },
            },
    ;
}

} // verus!
