//! Content hashing: the fixed-width, content-derived identifier, and the
//! wrapper that binds a value to the hash of its canonical serialization.

use vstd::prelude::*;
use blake2::Digest;

verus! {

/// What the hashing primitive returns for a byte string. The digest is a
/// function of the input bytes alone: equal contents always give equal
/// hashes, in every process and on every machine.
pub uninterp spec fn hash_of(bytes: Seq<u8>) -> Seq<u8>;

/// Relies on blake2's `Blake2s256`: a 32-byte digest computed from the
/// input bytes alone.
#[verifier::external_body]
fn blake2s256_digest(bytes: &Vec<u8>) -> (r: Vec<u8>)
    ensures
        r@ == hash_of(bytes@),
        r@.len() == 32,
{
    blake2::Blake2s256::digest(bytes.as_slice()).to_vec()
}

/// A fixed-width, content-derived identifier of a byte serialization:
/// used both as identity and as a routing address.
#[derive(Debug, PartialEq, Eq)]
pub struct ContentHash {
    /// The digest bytes.
    pub bytes: Vec<u8>,
}

impl View for ContentHash {
    type V = Seq<u8>;

    open spec fn view(&self) -> Seq<u8> {
        self.bytes@
    }
}

impl Clone for ContentHash {
    fn clone(&self) -> (r: Self)
        ensures
            r@ == self@,
    {
        ContentHash { bytes: crate::codec::clone_bytes(&self.bytes) }
    }
}

impl ContentHash {
    /// The digest of a byte string.
    pub fn compute(input: &Vec<u8>) -> (r: ContentHash)
        ensures
            r@ == hash_of(input@),
            r@.len() == 32,
    {
        ContentHash { bytes: blake2s256_digest(input) }
    }

    /// A hash taken over from elsewhere, byte for byte.
    pub fn from_raw(bytes: Vec<u8>) -> (r: ContentHash)
        ensures
            r@ == bytes@,
    {
        ContentHash { bytes }
    }

    /// Whether two hashes hold the same digest bytes.
    pub fn same_hash(&self, other: &ContentHash) -> (r: bool)
        ensures
            r == (self@ == other@),
    {
        crate::codec::bytes_eq(&self.bytes, &other.bytes)
    }
}

/// A value that has a canonical byte serialization, stable enough to be
/// hashed: the same logical value always serializes to the same bytes.
pub trait HashableContent: Sized {
    /// The canonical serialization of this value.
    spec fn canonical(&self) -> Seq<u8>;

    /// Computes the canonical serialization.
    fn canonical_bytes(&self) -> (r: Vec<u8>)
        ensures
            r@ == self.canonical();
}

/// A value bound to the hash of its canonical serialization. The hash is
/// computed once, at construction, and never recomputed.
#[derive(Debug, PartialEq, Eq)]
pub struct HashedContent<T: HashableContent> {
    /// The content itself.
    pub content: T,
    /// The hash of the content's canonical serialization.
    pub hash: ContentHash,
}

impl<T: HashableContent> HashedContent<T> {
    /// The stored hash is in fact the hash of the stored content.
    pub open spec fn wf(&self) -> bool {
        self.hash@ == hash_of(self.content.canonical())
    }

    /// Hashes `content` and binds the two together.
    pub fn new(content: T) -> (r: Self)
        ensures
            r.content == content,
            r.wf(),
    {
        let bytes = content.canonical_bytes();
        let hash = ContentHash::compute(&bytes);
        HashedContent { content, hash }
    }

    /// Binds `content` to a hash the caller already holds. The caller
    /// must know that the hash is the hash of this very content, as when
    /// re-wrapping content that serializes to the same bytes.
    pub fn with_pre_hashed(content: T, hash: ContentHash) -> (r: Self)
        requires
            hash@ == hash_of(content.canonical()),
        ensures
            r.content == content,
            r.hash == hash,
            r.wf(),
    {
        HashedContent { content, hash }
    }

    /// Gives the content up, dropping the hash.
    pub fn into_content(self) -> (r: T)
        ensures
            r == self.content,
    {
        self.content
    }

    /// The stored hash.
    pub fn as_hash(&self) -> (r: &ContentHash)
        ensures
            r == &self.hash,
    {
        &self.hash
    }
}

} // verus!
