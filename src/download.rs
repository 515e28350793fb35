//! The decisions of a resumable download: where it starts again, what it asks
//! the server for, how it takes the server's answer, and what it has written
//! and hashed as the bytes arrive.
use crate::digest::Blob;
use crate::hasher::{digest_of, fed, lemma_fed_is_concatenation, BlobContext};
use crate::text::{decimal, push_decimal};
use vstd::prelude::*;
use vstd::string::*;

verus! {

/// A sink for progress reports; any number of renderings may implement it.
pub trait ProgressDisplay: Sized {
    /// Starts a report towards `size` bytes, when the size is known.
    fn progress_start(size: Option<u64>) -> Self;

    /// Reports that `position` bytes are done.
    fn progress_update(&self, position: u64);

    /// Ends the report.
    fn progress_finalize(self);
}

/// Progress reports that go nowhere.
#[derive(Clone, Copy, Debug)]
pub struct NoProgress;

impl ProgressDisplay for NoProgress {
    fn progress_start(size: Option<u64>) -> NoProgress {
        NoProgress
    }

    fn progress_update(&self, position: u64) {
    }

    fn progress_finalize(self) {
    }
}

/// The value of the `Range` header that asks for everything from `offset` on.
pub open spec fn range_value(offset: nat) -> Seq<char> {
    "bytes="@ + decimal(offset) + "-"@
}

/// How to go on after the server answered.
#[derive(Clone, Copy, Debug)]
pub enum ResponsePlan {
    /// Append the body after what the file holds.
    Append,
    /// The server sent the whole artifact: empty the file, then write the body.
    Restart,
    /// The server refused; the file stays as it is for a later attempt.
    Refuse(u16),
}

/// The state of one download into a destination file.
pub struct Resume {
    hasher: BlobContext,
    downloaded: u64,
    written: Ghost<Seq<u8>>,
}

impl Resume {
    /// The bytes that the destination file holds.
    pub closed spec fn written(&self) -> Seq<u8> {
        self.written@
    }

    /// What the hasher has taken in.
    pub closed spec fn absorbed(&self) -> Seq<u8> {
        self.hasher.absorbed()
    }

    /// The hasher has taken in exactly the file's bytes, and the counter agrees.
    pub closed spec fn wf(&self) -> bool {
        &&& self.hasher.wf()
        &&& self.hasher.absorbed() == self.written@
        &&& self.downloaded == self.written@.len()
    }

    /// A download for `blob` into a file that holds nothing yet.
    pub fn new(blob: &Blob) -> (r: Resume)
        ensures
            r.wf(),
            r.written() == Seq::<u8>::empty(),
    {
        Resume { hasher: BlobContext::new_from_blob_type(blob), downloaded: 0, written: Ghost(Seq::empty()) }
    }

    /// How many bytes the file holds.
    pub fn downloaded(&self) -> (r: u64)
        requires
            self.wf(),
        ensures
            r == self.written().len(),
    {
        self.downloaded
    }

    /// Takes in `data`, which the file already held after what was taken in
    /// before: this is how a partial file is read back before resuming.
    pub fn seed(&mut self, data: &[u8])
        requires
            old(self).wf(),
            old(self).written().len() + data@.len() <= u64::MAX,
        ensures
            final(self).wf(),
            final(self).written() == old(self).written() + data@,
    {
        self.take_in(data);
    }

    /// Takes in `data` that was just appended to the file.
    pub fn on_chunk(&mut self, data: &[u8])
        requires
            old(self).wf(),
            old(self).written().len() + data@.len() <= u64::MAX,
        ensures
            final(self).wf(),
            final(self).written() == old(self).written() + data@,
    {
        self.take_in(data);
    }

    fn take_in(&mut self, data: &[u8])
        requires
            old(self).wf(),
            old(self).written().len() + data@.len() <= u64::MAX,
        ensures
            final(self).wf(),
            final(self).written() == old(self).written() + data@,
    {
        self.hasher.update(data);
        self.downloaded = self.downloaded + data.len() as u64;
        self.written = Ghost(self.written@ + data@);
    }

    /// The `Range` header value to send, when the file already holds bytes.
    pub fn range_header(&self) -> (r: Option<String>)
        requires
            self.wf(),
        ensures
            self.written().len() == 0 ==> r is None,
            self.written().len() > 0 ==> (r matches Some(v) && v@ == range_value(
                self.written().len(),
            )),
    {
        if self.downloaded == 0 {
            return None;
        }
        let mut v = String::from_str("bytes=");
        push_decimal(&mut v, self.downloaded as u128);
        v.append("-");
        proof {
            reveal_strlit("bytes=");
            reveal_strlit("-");
        }
        Some(v)
    }

    /// How to take the server's answer `status`: a partial answer continues
    /// the file, a full one replaces it, and anything else is refused.
    pub fn plan(&self, status: u16) -> (r: ResponsePlan)
        requires
            self.wf(),
        ensures
            status == 206 && self.written().len() > 0 ==> r is Append,
            status == 200 && self.written().len() == 0 ==> r is Append,
            status == 200 && self.written().len() > 0 ==> r is Restart,
            !(status == 200 || (status == 206 && self.written().len() > 0)) ==> r == ResponsePlan::Refuse(status),
    {
        if status == 200 {
            if self.downloaded == 0 {
                ResponsePlan::Append
            } else {
                ResponsePlan::Restart
            }
        } else if status == 206 && self.downloaded > 0 {
            ResponsePlan::Append
        } else {
            ResponsePlan::Refuse(status)
        }
    }

    /// The size the file will have, as far as the answer tells: what it holds
    /// plus the announced length of the body, when that sum fits.
    pub fn expected_total(&self, content_length: Option<u64>) -> (r: Option<u64>)
        requires
            self.wf(),
        ensures
            match content_length {
                Some(n) => r == (if self.written().len() + n <= u64::MAX {
                    Some((self.written().len() + n) as u64)
                } else {
                    None::<u64>
                }),
                None => r is None,
            },
    {
        match content_length {
            Some(n) => self.downloaded.checked_add(n),
            None => None,
        }
    }

    /// Forgets what the file held, after it was emptied.
    pub fn restart(&mut self, blob: &Blob)
        ensures
            final(self).wf(),
            final(self).written() == Seq::<u8>::empty(),
    {
        *self = Resume::new(blob);
    }

    /// The digest of the whole file.
    pub fn finish(self) -> (r: Blob)
        requires
            self.wf(),
        ensures
            r.bytes() == digest_of(self.written()),
    {
        self.hasher.finalize()
    }
}

/// Resuming is a single pass: when a file holds the first `l` bytes of an
/// artifact, read back in any chunks, and the rest of the artifact then
/// arrives in any chunks, the file ends up holding the artifact exactly, and
/// the hasher has taken in exactly that, so the digest is the artifact's.
pub proof fn lemma_resume_is_single_pass(
    full: Seq<u8>,
    l: int,
    held: Seq<Seq<u8>>,
    arriving: Seq<Seq<u8>>,
)
    requires
        0 <= l <= full.len(),
        held.flatten() == full.take(l),
        arriving.flatten() == full.skip(l),
    ensures
        fed(fed(Seq::empty(), held), arriving) == full,
        fed(fed(Seq::empty(), held), arriving) == fed(Seq::empty(), seq![full]),
        digest_of(fed(fed(Seq::empty(), held), arriving)) == digest_of(full),
{
    lemma_fed_is_concatenation(Seq::empty(), held);
    lemma_fed_is_concatenation(fed(Seq::empty(), held), arriving);
    lemma_fed_is_concatenation(Seq::empty(), seq![full]);
    seq![full].lemma_flatten_one_element();
    assert(Seq::<u8>::empty() + full.take(l) =~= full.take(l));
    assert(full.take(l) + full.skip(l) =~= full);
    assert(Seq::<u8>::empty() + full =~= full);
}

} // verus!
