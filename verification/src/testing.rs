//! A store for trying entities out: every index holds its record itself.

use vstd::prelude::*;
use std::sync::Arc;
use crate::lookup::Lookup;

verus! {

/// A store that keeps nothing: each index holds the record that was stored.
#[derive(Debug, Default, Clone)]
pub struct TestLookup {}

/// The "index" of `TestLookup`.
///
/// This is actually just the `Arc` itself.
pub struct TestIndex<T> {
    arc: Arc<T>,
}

impl<T> TestIndex<T> {
    /// The record that the index holds.
    pub closed spec fn record(&self) -> T {
        *self.arc
    }
}

impl<T> Clone for TestIndex<T> {
    fn clone(&self) -> (r: Self)
        ensures
            r.record() == self.record(),
    {
        TestIndex { arc: self.arc.clone() }
    }
}

impl<T> Lookup<T> for TestLookup {
    type Index = TestIndex<T>;

    open spec fn resolve(&self, idx: &Self::Index) -> Option<T> {
        Some(idx.record())
    }

    /// Nothing is kept: every store leaves the store as it is.
    open spec fn stored(&self, data: T, after: &Self) -> bool {
        true
    }

    fn lookup<'a>(&'a self, idx: &'a Self::Index) -> (r: Option<&'a T>) {
        Some(&*idx.arc)
    }

    fn store(&mut self, data: T) -> (idx: Self::Index) {
        TestIndex { arc: Arc::new(data) }
    }
}

} // verus!
