//! What can go wrong when a store is migrated.

use vstd::prelude::*;
use crate::objects::vec::data::Typename;
use crate::objects::vec::VecIndex;
use crate::text::{decimal, decimal_string};

verus! {

/// Errors of the migration of a store.
#[derive(Debug)]
pub enum MigrationError {
    /// A record refers to a source index that was not migrated.
    DanglingSourceIndex {
        /// The type of the record that the index names.
        type_: &'static str,
        /// The index.
        index: String,
    },
    /// A source index came up twice.
    DuplicateSourceIndex {
        /// The type of the record that the index names.
        type_: &'static str,
        /// The index.
        index: String,
    },
    /// The source has no record at one of its indices.
    MissingData {
        /// The type of the record that the index names.
        type_: &'static str,
        /// The index.
        index: String,
    },
}

/// What a `MigrationError` says.
pub enum MigrationErrorView {
    DanglingSourceIndex { type_: Seq<char>, index: Seq<char> },
    DuplicateSourceIndex { type_: Seq<char>, index: Seq<char> },
    MissingData { type_: Seq<char>, index: Seq<char> },
}

impl View for MigrationError {
    type V = MigrationErrorView;

    open spec fn view(&self) -> MigrationErrorView {
        match self {
            MigrationError::DanglingSourceIndex { type_, index } => {
                MigrationErrorView::DanglingSourceIndex { type_: type_@, index: index@ }
            },
            MigrationError::DuplicateSourceIndex { type_, index } => {
                MigrationErrorView::DuplicateSourceIndex { type_: type_@, index: index@ }
            },
            MigrationError::MissingData { type_, index } => {
                MigrationErrorView::MissingData { type_: type_@, index: index@ }
            },
        }
    }
}

/// The error for the source index `idx` of the type `T` that was not
/// migrated.
pub open spec fn dangling<T: Typename>(idx: usize) -> MigrationErrorView {
    MigrationErrorView::DanglingSourceIndex {
        type_: T::spec_typename(),
        index: decimal(idx as nat),
    }
}

/// The error for the source index `idx` of the type `T` that came up twice.
pub open spec fn duplicate<T: Typename>(idx: usize) -> MigrationErrorView {
    MigrationErrorView::DuplicateSourceIndex {
        type_: T::spec_typename(),
        index: decimal(idx as nat),
    }
}

/// The error for the source index `idx` of the type `T` at which the source
/// has no record.
pub open spec fn missing<T: Typename>(idx: usize) -> MigrationErrorView {
    MigrationErrorView::MissingData { type_: T::spec_typename(), index: decimal(idx as nat) }
}

impl MigrationError {
    /// The error for a source index that was not migrated.
    pub fn dangling_source_index<T: Typename>(index: &VecIndex<T>) -> (r: Self)
        ensures
            r@ == dangling::<T>(index.idx),
    {
        MigrationError::DanglingSourceIndex {
            type_: T::typename(),
            index: decimal_string(index.idx as u64),
        }
    }

    /// The error for a source index that came up twice.
    pub fn duplicate_source_index<T: Typename>(index: &VecIndex<T>) -> (r: Self)
        ensures
            r@ == duplicate::<T>(index.idx),
    {
        MigrationError::DuplicateSourceIndex {
            type_: T::typename(),
            index: decimal_string(index.idx as u64),
        }
    }

    /// The error for a source index at which the source has no record.
    pub fn missing_data<T: Typename>(index: &VecIndex<T>) -> (r: Self)
        ensures
            r@ == missing::<T>(index.idx),
    {
        MigrationError::MissingData {
            type_: T::typename(),
            index: decimal_string(index.idx as u64),
        }
    }
}

} // verus!
