//! Persistence of blobs by their content.

use vstd::prelude::*;
use crate::data::blob::{Blob, BlobReference, BlobReferenceView};

pub mod filesystem;

verus! {

/// Errors when interacting with blob persistence.
#[derive(Debug)]
pub enum BlobPersistenceError {
    /// Authentication error.
    Auth {
        /// Error details.
        details: String,
    },
    /// Connection error.
    Connection {
        /// Error details.
        details: String,
    },
    /// Blob not found.
    NotFound,
    /// Other error.
    Other {
        /// Error details.
        details: String,
    },
}

/// Blob verification error.
#[derive(Debug)]
pub enum BlobPersistenceVerifyError {
    /// Returned blob had a reference mismatch.
    Invalid {
        /// The actual blob reference expected.
        actual: BlobReference,
    },
    /// Other error during verification.
    Inner {
        /// The inner error.
        source: BlobPersistenceError,
    },
}

impl BlobPersistenceVerifyError {
    /// The error for a blob whose content has the reference `actual`.
    pub fn invalid(actual: BlobReference) -> (r: Self)
        ensures
            r == (BlobPersistenceVerifyError::Invalid { actual }),
    {
        BlobPersistenceVerifyError::Invalid { actual }
    }

    /// The error that stands for a failure of the store.
    pub fn from(source: BlobPersistenceError) -> (r: Self)
        ensures
            r == (BlobPersistenceVerifyError::Inner { source }),
    {
        BlobPersistenceVerifyError::Inner { source }
    }
}

/// What went wrong with a file, as far as the kind of error matters.
#[derive(Debug, Clone, Copy, PartialEq, Eq, Structural)]
pub enum IoFailure {
    /// The file or directory is not there.
    NotFound,
    /// The operating system refused access.
    PermissionDenied,
    /// Anything else.
    Other,
}

/// What the filesystem store failed at.
#[derive(Debug, Clone, Copy, PartialEq, Eq, Structural)]
pub enum FilesystemFailure {
    /// The path of a blob has no parent directory.
    NoParent,
    /// The directory of a blob could not be created.
    CannotCreate(IoFailure),
    /// The file of a blob could not be opened.
    Open(IoFailure),
    /// The blob could not be written.
    Write(IoFailure),
    /// The blob could not be read.
    Read(IoFailure),
    /// The blob could not be deleted.
    Delete(IoFailure),
}

impl FilesystemFailure {
    /// The kind of I/O error behind the failure, if there is one.
    pub open spec fn cause(self) -> Option<IoFailure> {
        match self {
            FilesystemFailure::NoParent => None,
            FilesystemFailure::CannotCreate(io) => Some(io),
            FilesystemFailure::Open(io) => Some(io),
            FilesystemFailure::Write(io) => Some(io),
            FilesystemFailure::Read(io) => Some(io),
            FilesystemFailure::Delete(io) => Some(io),
        }
    }
}

/// The error that blob persistence reports for a failure of the filesystem:
/// a missing file is "not found", refused access is an authentication error,
/// and everything else is another error.
pub open spec fn spec_blob_error(
    failure: FilesystemFailure,
    details: String,
) -> BlobPersistenceError {
    match failure.cause() {
        Some(IoFailure::NotFound) => BlobPersistenceError::NotFound,
        Some(IoFailure::PermissionDenied) => BlobPersistenceError::Auth { details },
        Some(IoFailure::Other) => BlobPersistenceError::Other { details },
        None => BlobPersistenceError::Other { details },
    }
}

impl BlobPersistenceError {
    /// Report a failure of the filesystem, described by `details`.
    pub fn from(failure: FilesystemFailure, details: String) -> (r: Self)
        ensures
            r == spec_blob_error(failure, details),
    {
        let cause = match failure {
            FilesystemFailure::NoParent => {
                return BlobPersistenceError::Other { details };
            },
            FilesystemFailure::CannotCreate(io) => io,
            FilesystemFailure::Open(io) => io,
            FilesystemFailure::Write(io) => io,
            FilesystemFailure::Read(io) => io,
            FilesystemFailure::Delete(io) => io,
        };
        match cause {
            IoFailure::NotFound => BlobPersistenceError::NotFound,
            IoFailure::PermissionDenied => BlobPersistenceError::Auth { details },
            IoFailure::Other => BlobPersistenceError::Other { details },
        }
    }
}

/// What the verification of `data`, fetched under the reference `blob`,
/// comes to: the reference that names `data` under the algorithm of `blob`,
/// where it is another one.
pub open spec fn spec_check_blob(
    data: Seq<u8>,
    blob: BlobReferenceView,
) -> Option<BlobReferenceView> {
    if BlobReference::spec_for_blob(data, blob.algo) == blob {
        None
    } else {
        Some(BlobReference::spec_for_blob(data, blob.algo))
    }
}

/// Verify that `data`, fetched under the reference `blob`, is what the
/// reference names.
pub fn check_blob(data: &Blob, blob: &BlobReference) -> (r: Result<(), BlobPersistenceVerifyError>)
    ensures
        match r {
            Ok(()) => spec_check_blob(data@, blob@) is None,
            Err(e) => e matches BlobPersistenceVerifyError::Invalid { actual } && spec_check_blob(
                data@,
                blob@,
            ) == Some(actual@),
        },
{
    let new_ref = BlobReference::for_blob(data, blob.algo());
    if new_ref.same_as(blob) {
        Ok(())
    } else {
        Err(BlobPersistenceVerifyError::invalid(new_ref))
    }
}

/// A blob verifies under the reference that was computed for it, and under
/// no other reference of the same algorithm.
pub proof fn lemma_check_blob(data: Seq<u8>, blob: BlobReferenceView)
    ensures
        spec_check_blob(data, BlobReference::spec_for_blob(data, blob.algo)) is None,
        spec_check_blob(data, blob) matches Some(actual) ==> actual != blob && actual.algo
            == blob.algo && actual == BlobReference::spec_for_blob(data, blob.algo),
{
}

/// Whether `r` is what verification under the reference `blob` comes to
/// once the store has answered `fetched`: a failure of the store is passed
/// on, and a blob that was fetched is held against the reference.
pub open spec fn verified(
    fetched: Result<Blob, BlobPersistenceError>,
    blob: BlobReferenceView,
    r: Result<(), BlobPersistenceVerifyError>,
) -> bool {
    match fetched {
        Ok(data) => match r {
            Ok(()) => spec_check_blob(data@, blob) is None,
            Err(e) => e matches BlobPersistenceVerifyError::Invalid { actual } && spec_check_blob(
                data@,
                blob,
            ) == Some(actual@),
        },
        Err(source) => r == Err::<(), BlobPersistenceVerifyError>(
            BlobPersistenceVerifyError::Inner { source },
        ),
    }
}

/// Finish a verification under the reference `blob` with what the store
/// answered when the blob was fetched.
pub fn verify_fetched(fetched: Result<Blob, BlobPersistenceError>, blob: &BlobReference) -> (r:
    Result<(), BlobPersistenceVerifyError>)
    ensures
        verified(fetched, blob@, r),
{
    match fetched {
        Ok(data) => check_blob(&data, blob),
        Err(source) => Err(BlobPersistenceVerifyError::from(source)),
    }
}

/// A synchronous persistence store for blobs.
pub trait BlobPersistence {
    /// Persist a blob into storage.
    fn store(&self, blob: &Blob) -> Result<BlobReference, BlobPersistenceError>;

    /// Whether the storage contains a blob reference or not.
    fn contains(&self, blob: &BlobReference) -> Result<bool, BlobPersistenceError>;

    /// Fetch a blob from storage.
    fn fetch(&self, blob: &BlobReference) -> Result<Blob, BlobPersistenceError>;

    /// Verify a blob in the storage: fetch it once, and hold what the store
    /// answers against the reference.
    fn verify(&self, blob: &BlobReference) -> (r: Result<(), BlobPersistenceVerifyError>)
        ensures
            exists|fetched: Result<Blob, BlobPersistenceError>| #[trigger]
                verified(fetched, blob@, r),
            r matches Err(BlobPersistenceVerifyError::Invalid { actual }) ==> actual@ != blob@
                && actual@.algo == blob@.algo,
    {
        let fetched = self.fetch(blob);
        let ghost answer = fetched;
        let r = verify_fetched(fetched, blob);
        assert(verified(answer, blob@, r));
        r
    }

    /// Erase a blob from storage.
    fn erase(&self, blob: BlobReference) -> Result<(), BlobPersistenceError>;
}

} // verus!
