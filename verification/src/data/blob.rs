//! Blobs and the references that name them by content.

use vstd::prelude::*;
use sha2::Digest;
use crate::text::str_eq;

verus! {

/// Content hash used to compute uniqueness for a blob.
#[derive(Debug, Clone, Copy, PartialEq, Eq, Structural)]
pub enum ContentHash {
    /// SHA-256 hashing algorithm.
    Sha256,
    /// SHA-512 hashing algorithm.
    Sha512,
}

/// The SHA-256 digest of a byte sequence, in lower-case hexadecimal.
pub uninterp spec fn sha256_hex(data: Seq<u8>) -> Seq<char>;

/// The SHA-512 digest of a byte sequence, in lower-case hexadecimal.
pub uninterp spec fn sha512_hex(data: Seq<u8>) -> Seq<char>;

/// `sha2::Sha256` run over `data` through `digest::Digest`, the digest
/// formatted in lower-case hexadecimal. The contract names the result.
#[verifier::external_body]
fn sha256_hex_digest(data: &[u8]) -> (r: String)
    ensures
        r@ == sha256_hex(data@),
{
    let mut digest = sha2::Sha256::new();
    digest.update(data);
    format!("{:x}", digest.finalize())
}

/// `sha2::Sha512` run over `data` through `digest::Digest`, the digest
/// formatted in lower-case hexadecimal. The contract names the result.
#[verifier::external_body]
fn sha512_hex_digest(data: &[u8]) -> (r: String)
    ensures
        r@ == sha512_hex(data@),
{
    let mut digest = sha2::Sha512::new();
    digest.update(data);
    format!("{:x}", digest.finalize())
}

impl ContentHash {
    /// The hexadecimal digest of `data` under this algorithm.
    pub open spec fn spec_hash_blob(self, data: Seq<u8>) -> Seq<char> {
        match self {
            ContentHash::Sha256 => sha256_hex(data),
            ContentHash::Sha512 => sha512_hex(data),
        }
    }

    /// The canonical name of the algorithm.
    pub open spec fn spec_name(self) -> Seq<char> {
        match self {
            ContentHash::Sha256 => "sha256"@,
            ContentHash::Sha512 => "sha512"@,
        }
    }

    /// The algorithm with a given canonical name, if there is one.
    pub open spec fn spec_from_name(name: Seq<char>) -> Option<ContentHash> {
        if name == "sha256"@ {
            Some(ContentHash::Sha256)
        } else if name == "sha512"@ {
            Some(ContentHash::Sha512)
        } else {
            None
        }
    }

    /// Hash a blob.
    pub fn hash_blob(self, data: &[u8]) -> (r: String)
        ensures
            r@ == self.spec_hash_blob(data@),
    {
        match self {
            ContentHash::Sha256 => sha256_hex_digest(data),
            ContentHash::Sha512 => sha512_hex_digest(data),
        }
    }

    /// The name of the algorithm.
    pub fn name(self) -> (r: &'static str)
        ensures
            r@ == self.spec_name(),
    {
        match self {
            ContentHash::Sha256 => "sha256",
            ContentHash::Sha512 => "sha512",
        }
    }

    /// The algorithm named by `name`.
    pub fn from_name(name: &str) -> (r: Option<ContentHash>)
        ensures
            r == Self::spec_from_name(name@),
    {
        if str_eq(name, "sha256") {
            Some(ContentHash::Sha256)
        } else if str_eq(name, "sha512") {
            Some(ContentHash::Sha512)
        } else {
            None
        }
    }
}

/// Every algorithm is found again by its name.
pub proof fn lemma_content_hash_name_round_trip(algo: ContentHash)
    ensures
        ContentHash::spec_from_name(algo.spec_name()) == Some(algo),
{
    reveal_strlit("sha256");
    reveal_strlit("sha512");
    assert("sha256"@ != "sha512"@) by {
        assert("sha256"@[3] == '2');
        assert("sha512"@[3] == '5');
    }
}

/// A reference to a blob in some persistence store.
#[derive(Debug, PartialEq, Eq)]
pub struct BlobReference {
    algo: ContentHash,
    hash: String,
}

/// What a blob reference says: the algorithm and the digest's characters.
pub struct BlobReferenceView {
    pub algo: ContentHash,
    pub hash: Seq<char>,
}

impl View for BlobReference {
    type V = BlobReferenceView;

    closed spec fn view(&self) -> BlobReferenceView {
        BlobReferenceView { algo: self.algo, hash: self.hash@ }
    }
}

impl Clone for BlobReference {
    fn clone(&self) -> (r: Self)
        ensures
            r@ == self@,
    {
        BlobReference { algo: self.algo, hash: self.hash.clone() }
    }
}

/// What an optional blob reference says.
pub open spec fn opt_blob_view(o: Option<BlobReference>) -> Option<BlobReferenceView> {
    match o {
        Some(b) => Some(b@),
        None => None,
    }
}

/// Copy an optional blob reference.
pub fn clone_opt_blob(o: &Option<BlobReference>) -> (r: Option<BlobReference>)
    ensures
        opt_blob_view(r) == opt_blob_view(*o),
{
    match o {
        Some(b) => Some(b.clone()),
        None => None,
    }
}

impl BlobReference {
    /// The reference that names `data` under `algo`.
    pub open spec fn spec_for_blob(data: Seq<u8>, algo: ContentHash) -> BlobReferenceView {
        BlobReferenceView { algo, hash: algo.spec_hash_blob(data) }
    }

    /// A reference from its parts.
    pub fn new(algo: ContentHash, hash: String) -> (r: Self)
        ensures
            r@ == (BlobReferenceView { algo, hash: hash@ }),
    {
        BlobReference { algo, hash }
    }

    /// Compute a blob reference for a given blob.
    pub fn for_blob(blob: &Blob, algo: ContentHash) -> (r: Self)
        ensures
            r@ == Self::spec_for_blob(blob@, algo),
    {
        let hash = algo.hash_blob(blob.as_slice());
        BlobReference { algo, hash }
    }

    /// The algorithm of the blob reference.
    pub fn algo(&self) -> (r: ContentHash)
        ensures
            r == self@.algo,
    {
        self.algo
    }

    /// The hash of the blob reference.
    pub fn hash(&self) -> (r: &str)
        ensures
            r@ == self@.hash,
    {
        self.hash.as_str()
    }

    /// Whether two references name the same algorithm and digest.
    pub fn same_as(&self, other: &BlobReference) -> (r: bool)
        ensures
            r == (self@ == other@),
    {
        self.algo == other.algo && str_eq(self.hash.as_str(), other.hash.as_str())
    }
}

/// A binary blob.
///
/// Intended to be stored in a content-addressed storage location.
#[derive(Debug)]
pub struct Blob {
    data: Vec<u8>,
}

impl View for Blob {
    type V = Seq<u8>;

    closed spec fn view(&self) -> Seq<u8> {
        self.data@
    }
}

impl Clone for Blob {
    fn clone(&self) -> (r: Self)
        ensures
            r@ == self@,
    {
        Blob { data: self.data.clone() }
    }
}

impl Blob {
    /// Create a new blob from bytes.
    pub fn new(data: Vec<u8>) -> (r: Self)
        ensures
            r@ == data@,
    {
        Blob { data }
    }

    /// The bytes of the blob.
    pub fn as_slice(&self) -> (r: &[u8])
        ensures
            r@ == self@,
    {
        self.data.as_slice()
    }
}

} // verus!
