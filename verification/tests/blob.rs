use ci_monitor::blob::{check_blob, verify_fetched, FilesystemFailure, IoFailure};
use ci_monitor::data::{Blob, BlobReference, ContentHash};
use ci_monitor::{BlobPersistence, BlobPersistenceError, BlobPersistenceVerifyError};
use std::cell::RefCell;
use std::collections::HashMap;

#[test]
fn reference_of_the_empty_blob() {
    let blob = Blob::new(Vec::new());
    let sha256 = BlobReference::for_blob(&blob, ContentHash::Sha256);
    assert_eq!(
        sha256.hash(),
        "e3b0c44298fc1c149afbf4c8996fb92427ae41e4649b934ca495991b7852b855"
    );
    let sha512 = BlobReference::for_blob(&blob, ContentHash::Sha512);
    assert_eq!(sha512.algo(), ContentHash::Sha512);
    assert_eq!(
        sha512.hash(),
        "cf83e1357eefb8bdf1542850d66d8007d620e4050b5715dc83f4a921d36ce9ce\
         47d0d13c5d85f2b0ff8318d2877eec2f63b931bd47417a81a538327af927da3e"
    );
}

#[test]
fn reference_of_abc() {
    let blob = Blob::new(b"abc".to_vec());
    let reference = BlobReference::for_blob(&blob, ContentHash::Sha256);
    assert_eq!(
        reference.hash(),
        "ba7816bf8f01cfea414140de5dae2223b00361a396177a9cb410ff61f20015ad"
    );
    assert_eq!(blob.as_slice(), b"abc");
}

#[test]
fn references_are_equal_for_equal_bytes() {
    let first = BlobReference::for_blob(&Blob::new(vec![1, 2, 3]), ContentHash::Sha256);
    let second = BlobReference::for_blob(&Blob::new(vec![1, 2, 3]), ContentHash::Sha256);
    assert_eq!(first, second);
    assert!(first.same_as(&second));
    let other = BlobReference::for_blob(&Blob::new(vec![1, 2, 4]), ContentHash::Sha256);
    assert!(!first.same_as(&other));
    let other_algo = BlobReference::for_blob(&Blob::new(vec![1, 2, 3]), ContentHash::Sha512);
    assert!(!first.same_as(&other_algo));
}

#[test]
fn check_of_a_blob_against_its_reference() {
    let blob = Blob::new(b"payload".to_vec());
    let reference = BlobReference::for_blob(&blob, ContentHash::Sha512);
    assert!(check_blob(&blob, &reference).is_ok());
}

#[test]
fn check_of_a_changed_blob() {
    let blob = Blob::new(b"payload".to_vec());
    let reference = BlobReference::for_blob(&blob, ContentHash::Sha256);
    let changed = Blob::new(b"paxload".to_vec());
    match check_blob(&changed, &reference) {
        Err(BlobPersistenceVerifyError::Invalid { actual }) => {
            assert_eq!(actual.algo(), ContentHash::Sha256);
            assert_ne!(actual.hash(), reference.hash());
            assert_eq!(actual, BlobReference::for_blob(&changed, ContentHash::Sha256));
        },
        other => panic!("unexpected outcome: {:?}", other),
    }
}

/// A store in memory, to run the provided `verify` against.
struct MemoryStore {
    algo: ContentHash,
    blobs: RefCell<HashMap<String, Vec<u8>>>,
}

impl BlobPersistence for MemoryStore {
    fn store(&self, blob: &Blob) -> Result<BlobReference, BlobPersistenceError> {
        let reference = BlobReference::for_blob(blob, self.algo);
        self.blobs.borrow_mut().insert(reference.hash().to_string(), blob.as_slice().to_vec());
        Ok(reference)
    }

    fn contains(&self, blob: &BlobReference) -> Result<bool, BlobPersistenceError> {
        Ok(self.blobs.borrow().contains_key(blob.hash()))
    }

    fn fetch(&self, blob: &BlobReference) -> Result<Blob, BlobPersistenceError> {
        match self.blobs.borrow().get(blob.hash()) {
            Some(data) => Ok(Blob::new(data.clone())),
            None => Err(BlobPersistenceError::NotFound),
        }
    }

    fn erase(&self, blob: BlobReference) -> Result<(), BlobPersistenceError> {
        match self.blobs.borrow_mut().remove(blob.hash()) {
            Some(_) => Ok(()),
            None => Err(BlobPersistenceError::NotFound),
        }
    }
}

#[test]
fn blob_store_idempotence() {
    let store = MemoryStore { algo: ContentHash::Sha256, blobs: RefCell::new(HashMap::new()) };
    let blob = Blob::new(b"some bytes".to_vec());
    let first = store.store(&blob).unwrap();
    let second = store.store(&blob).unwrap();
    assert_eq!(first, second);
    assert!(store.contains(&first).unwrap());
    assert_eq!(store.fetch(&first).unwrap().as_slice(), blob.as_slice());
    assert!(store.verify(&first).is_ok());

    // Change one byte of what is stored.
    store.blobs.borrow_mut().get_mut(first.hash()).unwrap()[0] ^= 1;
    match store.verify(&first) {
        Err(BlobPersistenceVerifyError::Invalid { actual }) => {
            assert_ne!(actual.hash(), first.hash());
        },
        other => panic!("unexpected outcome: {:?}", other),
    }

    store.erase(second).unwrap();
    assert!(!store.contains(&first).unwrap());
    match store.verify(&first) {
        Err(BlobPersistenceVerifyError::Inner { source: BlobPersistenceError::NotFound }) => {},
        other => panic!("unexpected outcome: {:?}", other),
    }
    assert!(matches!(store.fetch(&first), Err(BlobPersistenceError::NotFound)));
}

#[test]
fn filesystem_failures_as_blob_errors() {
    let details = || "details".to_string();
    assert!(matches!(
        BlobPersistenceError::from(FilesystemFailure::Open(IoFailure::NotFound), details()),
        BlobPersistenceError::NotFound
    ));
    assert!(matches!(
        BlobPersistenceError::from(FilesystemFailure::Delete(IoFailure::NotFound), details()),
        BlobPersistenceError::NotFound
    ));
    match BlobPersistenceError::from(
        FilesystemFailure::Write(IoFailure::PermissionDenied),
        details(),
    ) {
        BlobPersistenceError::Auth { details } => assert_eq!(details, "details"),
        other => panic!("unexpected error: {:?}", other),
    }
    for failure in [
        FilesystemFailure::NoParent,
        FilesystemFailure::CannotCreate(IoFailure::Other),
        FilesystemFailure::Read(IoFailure::Other),
    ] {
        match BlobPersistenceError::from(failure, details()) {
            BlobPersistenceError::Other { details } => assert_eq!(details, "details"),
            other => panic!("unexpected error: {:?}", other),
        }
    }
}

#[test]
fn verification_follows_what_was_fetched() {
    let blob = Blob::new(b"some bytes".to_vec());
    let reference = BlobReference::for_blob(&blob, ContentHash::Sha512);

    assert!(verify_fetched(Ok(Blob::new(b"some bytes".to_vec())), &reference).is_ok());

    let other = Blob::new(b"other bytes".to_vec());
    match verify_fetched(Ok(Blob::new(b"other bytes".to_vec())), &reference) {
        Err(BlobPersistenceVerifyError::Invalid { actual }) => {
            assert_eq!(actual, BlobReference::for_blob(&other, ContentHash::Sha512));
            assert_ne!(actual, reference);
        },
        other => panic!("unexpected outcome: {:?}", other),
    }

    let refused = BlobPersistenceError::Auth { details: "no access".to_string() };
    match verify_fetched(Err(refused), &reference) {
        Err(BlobPersistenceVerifyError::Inner {
            source: BlobPersistenceError::Auth { details },
        }) => assert_eq!(details, "no access"),
        other => panic!("unexpected outcome: {:?}", other),
    }
}
