//! The store that hands out shared handles.

use vstd::prelude::*;
use std::sync::Arc;
use crate::lookup::Lookup;

verus! {

/// A mechanism to use `Arc` instances to resolve themselves.
#[derive(Debug, Clone)]
pub struct ArcLookup;

/// The "index" of `ArcLookup`.
///
/// This is actually just the `Arc` itself.
pub struct ArcIndex<T> {
    arc: Arc<T>,
}

impl<T> ArcIndex<T> {
    /// The record that the index holds.
    pub closed spec fn record(&self) -> T {
        *self.arc
    }

    /// Wrap a shared handle as an index.
    pub fn from(arc: Arc<T>) -> (r: Self)
        ensures
            r.record() == *arc,
    {
        ArcIndex { arc }
    }

    /// Extract the `Arc` from the index.
    pub fn into_inner(self) -> (r: Arc<T>)
        ensures
            *r == self.record(),
    {
        self.arc
    }
}

impl<T> Clone for ArcIndex<T> {
    fn clone(&self) -> (r: Self)
        ensures
            r.record() == self.record(),
    {
        ArcIndex { arc: self.arc.clone() }
    }
}

impl<T> Lookup<T> for ArcLookup {
    type Index = ArcIndex<T>;

    open spec fn resolve(&self, idx: &Self::Index) -> Option<T> {
        Some(idx.record())
    }

    /// Nothing is kept: every store leaves the store as it is.
    open spec fn stored(&self, data: T, after: &Self) -> bool {
        true
    }

    fn lookup<'a>(&'a self, idx: &'a Self::Index) -> (r: Option<&'a T>) {
        Some(&*idx.arc)
    }

    fn store(&mut self, data: T) -> (idx: Self::Index) {
        ArcIndex { arc: Arc::new(data) }
    }
}

} // verus!
