//! Equality of indices.

use vstd::prelude::*;
use vstd::std_specs::cmp::PartialEqSpecImpl;
use crate::objects::vec::VecIndex;

verus! {

impl<T> PartialEq for VecIndex<T> {
    fn eq(&self, other: &Self) -> (r: bool) {
        self.idx == other.idx
    }
}

impl<T> PartialEqSpecImpl for VecIndex<T> {
    open spec fn obeys_eq_spec() -> bool {
        true
    }

    open spec fn eq_spec(&self, other: &Self) -> bool {
        self.idx == other.idx
    }
}

impl<T> Eq for VecIndex<T> {
}

} // verus!
