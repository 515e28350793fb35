//! The incremental hasher: bytes go in over any number of calls, and the
//! digest of everything that went in comes out.
use crate::digest::Blob;
use cryptoxide::hashing::sha2::Context256;
use vstd::prelude::*;

verus! {

#[verifier::external_type_specification]
#[verifier::external_body]
pub struct ExContext256(Context256);

/// The SHA-256 digest of a byte sequence.
pub uninterp spec fn sha256_of(data: Seq<u8>) -> Seq<u8>;

/// What a SHA-256 context holds: the bytes it has taken in since it was
/// created, in order. Its digest is a function of these bytes alone.
pub uninterp spec fn sha256_absorbed(ctx: Context256) -> Seq<u8>;

/// Relies on `Context256::new`: a fresh context has taken in nothing.
#[verifier::external_body]
fn sha256_context() -> (r: Context256)
    ensures
        sha256_absorbed(r) == Seq::<u8>::empty(),
{
    Context256::new()
}

/// Relies on `Context256::update_mut`: the input is appended to what the
/// context has taken in. Its byte counter is a `u64` that must not overflow.
#[verifier::external_body]
fn sha256_update(ctx: &mut Context256, data: &[u8])
    requires
        sha256_absorbed(*old(ctx)).len() + data@.len() <= u64::MAX,
    ensures
        sha256_absorbed(*final(ctx)) == sha256_absorbed(*old(ctx)) + data@,
{
    ctx.update_mut(data)
}

/// Relies on `Context256::finalize`: the SHA-256 digest of all that the
/// context has taken in.
#[verifier::external_body]
fn sha256_finalize(ctx: Context256) -> (r: [u8; 32])
    ensures
        r@ == sha256_of(sha256_absorbed(ctx)),
{
    ctx.finalize()
}

/// The digest that the hasher computes for `data`.
pub open spec fn digest_of(data: Seq<u8>) -> Seq<u8> {
    sha256_of(data)
}

/// An incremental hasher for one digest algorithm.
pub struct BlobContext {
    ctx: Context256,
    processed: u64,
}

impl BlobContext {
    /// Everything that was fed to the hasher, in order.
    pub closed spec fn absorbed(&self) -> Seq<u8> {
        sha256_absorbed(self.ctx)
    }

    /// The byte counter agrees with what was fed.
    pub closed spec fn wf(&self) -> bool {
        self.processed == self.absorbed().len()
    }

    /// A hasher for the algorithm of `blob`, with nothing fed yet.
    pub fn new_from_blob_type(blob: &Blob) -> (r: BlobContext)
        ensures
            r.wf(),
            r.absorbed() == Seq::<u8>::empty(),
    {
        match blob {
            Blob::Sha256(_) => Self::new_sha256(),
        }
    }

    /// A SHA-256 hasher with nothing fed yet.
    pub fn new_sha256() -> (r: BlobContext)
        ensures
            r.wf(),
            r.absorbed() == Seq::<u8>::empty(),
    {
        BlobContext { ctx: sha256_context(), processed: 0 }
    }

    /// How many bytes were fed so far.
    pub fn absorbed_len(&self) -> (r: u64)
        requires
            self.wf(),
        ensures
            r == self.absorbed().len(),
    {
        self.processed
    }

    /// Feeds `data` after what was fed before.
    pub fn update(&mut self, data: &[u8])
        requires
            old(self).wf(),
            old(self).absorbed().len() + data@.len() <= u64::MAX,
        ensures
            final(self).wf(),
            final(self).absorbed() == old(self).absorbed() + data@,
    {
        sha256_update(&mut self.ctx, data);
        self.processed = self.processed + data.len() as u64;
    }

    /// The digest of everything that was fed.
    pub fn finalize(self) -> (r: Blob)
        ensures
            r.bytes() == digest_of(self.absorbed()),
    {
        Blob::Sha256(sha256_finalize(self.ctx))
    }

    /// Whether everything that was fed hashes to `expected`.
    pub fn matches(self, expected: &Blob) -> (r: bool)
        ensures
            r == (digest_of(self.absorbed()) == expected.bytes()),
    {
        let got = self.finalize();
        got == *expected
    }
}

/// What a hasher has taken in after being fed `chunks` one call at a time,
/// starting from `prior`.
pub open spec fn fed(prior: Seq<u8>, chunks: Seq<Seq<u8>>) -> Seq<u8>
    decreases chunks.len(),
{
    if chunks.len() == 0 {
        prior
    } else {
        fed(prior + chunks[0], chunks.drop_first())
    }
}

/// Feeding chunks one call at a time takes in their concatenation.
pub proof fn lemma_fed_is_concatenation(prior: Seq<u8>, chunks: Seq<Seq<u8>>)
    ensures
        fed(prior, chunks) == prior + chunks.flatten(),
    decreases chunks.len(),
{
    if chunks.len() > 0 {
        lemma_fed_is_concatenation(prior + chunks[0], chunks.drop_first());
        assert(prior + chunks[0] + chunks.drop_first().flatten() =~= prior + chunks.flatten());
    } else {
        assert(prior + chunks.flatten() =~= prior);
    }
}

/// However a byte sequence is cut into chunks, feeding the chunks in order to
/// a fresh hasher gives the digest of feeding the whole sequence at once.
pub proof fn lemma_chunking_irrelevant(chunks: Seq<Seq<u8>>, whole: Seq<u8>)
    requires
        chunks.flatten() == whole,
    ensures
        fed(Seq::empty(), chunks) == fed(Seq::empty(), seq![whole]),
        digest_of(fed(Seq::empty(), chunks)) == digest_of(whole),
{
    lemma_fed_is_concatenation(Seq::empty(), chunks);
    lemma_fed_is_concatenation(Seq::empty(), seq![whole]);
    seq![whole].lemma_flatten_one_element();
    assert(Seq::<u8>::empty() + whole =~= whole);
}

} // verus!
