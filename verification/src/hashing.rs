//! Content digests.  The manifest protocol digests every hashed range with
//! MD5 (16 bytes) and the repository image with SHA-1 (20 bytes).  Both
//! algorithms come from outside crates; their results are named by
//! uninterpreted spec functions, and everything built on top of them — hex
//! rendering, chaining, chunking — is verified against those names.

use vstd::prelude::*;
use md5::Digest;

verus! {

/// The MD5 digest (16 bytes) of a byte sequence.
pub uninterp spec fn md5_of(bytes: Seq<u8>) -> Seq<u8>;

/// The SHA-1 digest (20 bytes) of a byte sequence.
pub uninterp spec fn sha1_of(bytes: Seq<u8>) -> Seq<u8>;

#[verifier::external_type_specification]
#[verifier::external_body]
pub struct ExMd5(md5::Md5);

/// An incremental MD5 digest over a stream of chunks.  Feeding the chunks
/// one by one digests exactly their concatenation, so a caller that cannot
/// hold a whole source in memory gets the same digest as one that can.
pub struct ContentHasher {
    inner: md5::Md5,
    fed: Ghost<Seq<u8>>,
}

impl ContentHasher {
    /// The bytes fed so far.
    pub closed spec fn bytes(self) -> Seq<u8> {
        self.fed@
    }

    /// Relies on md5::Md5::new: a fresh hasher has processed no input.
    #[verifier::external_body]
    pub fn new() -> (r: ContentHasher)
        ensures
            r.bytes() == Seq::<u8>::empty(),
    {
        ContentHasher { inner: md5::Md5::new(), fed: Ghost(Seq::empty()) }
    }

    /// Relies on md5::Md5::update: extends the processed input with `chunk`.
    #[verifier::external_body]
    pub fn update(&mut self, chunk: &[u8])
        ensures
            final(self).bytes() == old(self).bytes() + chunk@,
    {
        self.inner.update(chunk);
    }

    /// Relies on md5::Md5::finalize: returns the 16-byte MD5 digest of all
    /// input processed so far, a function of those bytes alone.
    #[verifier::external_body]
    pub fn finish(self) -> (r: Vec<u8>)
        ensures
            r@ == md5_of(self.bytes()),
            r@.len() == 16,
    {
        self.inner.finalize().to_vec()
    }
}

/// The MD5 digest of an in-memory buffer, fed in one piece.
pub fn md5_digest(data: &[u8]) -> (r: Vec<u8>)
    ensures
        r@ == md5_of(data@),
        r@.len() == 16,
{
    let mut h = ContentHasher::new();
    h.update(data);
    proof {
        assert(h.bytes() =~= data@);
    }
    h.finish()
}

/// How many bytes one read of a streamed source hands the hasher.
pub const CHUNK_SIZE: usize = 4194304;

/// The MD5 digest of an in-memory buffer, fed in reads of `CHUNK_SIZE`
/// bytes, as a streamed source is; the digest equals the whole-buffer one.
pub fn md5_digest_chunked(data: &[u8]) -> (r: Vec<u8>)
    ensures
        r@ == md5_of(data@),
        r@.len() == 16,
{
    let mut h = ContentHasher::new();
    let n = data.len();
    let mut i: usize = 0;
    while i < n
        invariant
            i <= n,
            n == data@.len(),
            h.bytes() == data@.take(i as int),
        decreases n - i,
    {
        let j = if n - i < CHUNK_SIZE {
            n
        } else {
            i + CHUNK_SIZE
        };
        let chunk = vstd::slice::slice_subrange(data, i, j);
        h.update(chunk);
        proof {
            assert(data@.take(i as int) + data@.subrange(i as int, j as int) =~= data@.take(
                j as int,
            ));
        }
        i = j;
    }
    proof {
        assert(data@.take(n as int) =~= data@);
    }
    h.finish()
}

/// Relies on sha1::Sha1::digest: returns the 20-byte SHA-1 digest of
/// `data`, a function of those bytes alone.
#[verifier::external_body]
pub(crate) fn sha1_digest(data: &[u8]) -> (r: Vec<u8>)
    ensures
        r@ == sha1_of(data@),
        r@.len() == 20,
{
    sha1::Sha1::digest(data).to_vec()
}

/// The checksum recorded for the repository image: its SHA-1 digest in
/// uppercase hex, 40 characters.
pub fn image_checksum(data: &[u8]) -> (r: String)
    ensures
        r@ == crate::render::hex_of(sha1_of(data@)),
        r@.len() == 40,
{
    let d = sha1_digest(data);
    crate::render::hex_upper(d.as_slice())
}

} // verus!
