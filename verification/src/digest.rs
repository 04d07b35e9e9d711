//! The digest engine: SHA-256 over a stream of bytes.
//!
//! A [`Hasher`] takes the content of a file chunk by chunk, so that a file of
//! any size is hashed without being held in memory. The SHA-256 computation
//! itself is the `sha2` crate's and is trusted; what is proved here is that
//! the pieces are put together so that the digest is that of the whole
//! content, in order.

use vstd::prelude::*;

verus! {

/// The number of bytes in a digest.
pub const DIGEST_LEN: usize = 32;

/// A SHA-256 computation in progress.
///
/// The state is that of `sha2::Sha256`. It is opaque to proofs, which know
/// it only by [`absorbed`], the bytes it has taken in.
#[verifier::external_body]
pub struct Hasher {
    state: sha2::Sha256,
}

/// The bytes that a hasher has taken in so far, in the order in which they
/// were given.
pub uninterp spec fn absorbed(hasher: Hasher) -> Seq<u8>;

/// The SHA-256 digest of a message.
pub uninterp spec fn sha256(message: Seq<u8>) -> Seq<u8>;

/// `sha2::Digest::new` for `sha2::Sha256`: a fresh state, which has taken in
/// no byte.
#[verifier::external_body]
fn sha256_new() -> (hasher: Hasher)
    ensures
        absorbed(hasher) == Seq::<u8>::empty(),
{
    Hasher { state: <sha2::Sha256 as sha2::Digest>::new() }
}

/// `sha2::Digest::update` for `sha2::Sha256`: the state takes in `chunk`
/// after what it already holds.
#[verifier::external_body]
fn sha256_update(hasher: &mut Hasher, chunk: &[u8])
    ensures
        absorbed(*final(hasher)) == absorbed(*old(hasher)) + chunk@,
{
    sha2::Digest::update(&mut hasher.state, chunk)
}

/// `sha2::Digest::finalize` for `sha2::Sha256`: the digest of all that the
/// state has taken in, which is 32 bytes long. The digest is copied out of
/// the crate's array into a vector.
#[verifier::external_body]
fn sha256_finalize(hasher: Hasher) -> (digest: Vec<u8>)
    ensures
        digest@ == sha256(absorbed(hasher)),
        digest@.len() == 32,
{
    sha2::Digest::finalize(hasher.state).to_vec()
}

impl View for Hasher {
    type V = Seq<u8>;

    /// The content taken in so far.
    closed spec fn view(&self) -> Seq<u8> {
        absorbed(*self)
    }
}

impl Hasher {
    /// A hasher that has taken in nothing.
    pub fn new() -> (hasher: Hasher)
        ensures
            hasher@ == Seq::<u8>::empty(),
    {
        sha256_new()
    }

    /// Takes in the next chunk of the content.
    pub fn update(&mut self, chunk: &[u8])
        ensures
            final(self)@ == old(self)@ + chunk@,
    {
        sha256_update(self, chunk)
    }

    /// Ends the computation: the digest of the whole content taken in.
    pub fn finalize(self) -> (digest: Vec<u8>)
        ensures
            digest@ == sha256(self@),
            digest@.len() == DIGEST_LEN,
    {
        sha256_finalize(self)
    }
}

/// The SHA-256 digest of `content`.
///
/// The digest is a function of the content alone: the same bytes give the
/// same digest, whatever file they came from.
pub fn digest_of(content: &[u8]) -> (digest: Vec<u8>)
    ensures
        digest@ == sha256(content@),
        digest@.len() == DIGEST_LEN,
{
    let mut hasher = Hasher::new();
    hasher.update(content);
    assert(hasher@ =~= content@);
    hasher.finalize()
}

/// The digest is deterministic: contents that agree in length and byte for
/// byte have the same digest, whatever else differs between the files that
/// hold them.
pub proof fn same_content_same_digest(first: Seq<u8>, second: Seq<u8>)
    requires
        first.len() == second.len(),
        forall|i: int| 0 <= i < first.len() ==> first[i] == second[i],
    ensures
        sha256(first) == sha256(second),
{
    assert(first =~= second);
}

} // verus!
