//! The server's rules for file and image uploads: whether one is taken, and how it advances.

use vstd::prelude::*;

use sha2::Digest;

use crate::crypto::spec_sha256;

verus! {

/// What the server makes of an upload's announced size.
#[derive(Clone, Copy, PartialEq, Eq, Structural, Debug)]
pub enum UploadVerdict {
    /// The client already runs as many uploads as it may; the upload is dropped silently.
    TooManyParallel,
    /// An image larger than images may be; the client is told its request was invalid.
    ImageTooLarge,
    /// Larger than uploads may be; the upload is dropped.
    TooLarge,
    /// Taken.
    Accepted,
}

/// The server's limits on uploads.
#[derive(Clone, Copy, PartialEq, Eq, Structural, Debug)]
pub struct UploadLimits {
    /// How many uploads one client may run at once.
    pub max_parallel: usize,
    /// The largest image, in bytes.
    pub max_image_size: u64,
    /// The largest upload, in whole units of `unit` bytes.
    pub max_upload_units: u64,
    /// The size unit of `max_upload_units` (a megabyte).
    pub unit: u64,
}

/// The verdict on an upload of `size` bytes (an image when `image`) from a client that already
/// runs `active` uploads: the parallel limit is checked first, then an image's size, then the
/// size of any upload, in whole units.
pub open spec fn spec_admit_upload(active: usize, image: bool, size: u64, limits: UploadLimits) -> UploadVerdict {
    if active >= limits.max_parallel {
        UploadVerdict::TooManyParallel
    } else if image && size > limits.max_image_size {
        UploadVerdict::ImageTooLarge
    } else if size / limits.unit > limits.max_upload_units {
        UploadVerdict::TooLarge
    } else {
        UploadVerdict::Accepted
    }
}

/// Decides whether an upload is taken (see [`spec_admit_upload`]).
pub fn admit_upload(active: usize, image: bool, size: u64, limits: UploadLimits) -> (r: UploadVerdict)
    requires
        limits.unit > 0,
    ensures
        r == spec_admit_upload(active, image, size, limits),
{
    if active >= limits.max_parallel {
        UploadVerdict::TooManyParallel
    } else if image && size > limits.max_image_size {
        UploadVerdict::ImageTooLarge
    } else if size / limits.unit > limits.max_upload_units {
        UploadVerdict::TooLarge
    } else {
        UploadVerdict::Accepted
    }
}

/// Where an upload stands after a chunk.
#[derive(Clone, Copy, PartialEq, Eq, Structural, Debug)]
pub enum UploadProgress {
    /// More bytes arrived than were announced; the upload is abandoned.
    Overrun,
    /// Still running, with this many bytes received.
    Partial(u64),
    /// All announced bytes arrived.
    Complete,
}

/// Where an upload that has received `current` of its announced `size` bytes stands after a
/// chunk of `chunk` bytes.
pub open spec fn spec_advance(current: u64, size: u64, chunk: u64) -> UploadProgress {
    if current + chunk > size {
        UploadProgress::Overrun
    } else if current + chunk == size {
        UploadProgress::Complete
    } else {
        UploadProgress::Partial((current + chunk) as u64)
    }
}

/// Counts a chunk into an upload (see [`spec_advance`]).
pub fn advance_upload(current: u64, size: u64, chunk: u64) -> (r: UploadProgress)
    requires
        current <= size,
    ensures
        r == spec_advance(current, size, chunk),
{
    if chunk > size - current {
        UploadProgress::Overrun
    } else if chunk == size - current {
        UploadProgress::Complete
    } else {
        UploadProgress::Partial(current + chunk)
    }
}

/// Where an upload stands once the chunks `chunks` (their sizes) arrived one by one from
/// `current` received bytes: reading stops at completion or overrun.
pub open spec fn run_upload(current: u64, size: u64, chunks: Seq<u64>) -> UploadProgress
    decreases chunks.len(),
{
    if chunks.len() == 0 {
        UploadProgress::Partial(current)
    } else {
        match spec_advance(current, size, chunks[0]) {
            UploadProgress::Partial(n) => run_upload(n, size, chunks.drop_first()),
            other => other,
        }
    }
}

/// An upload never holds more than it announced: fed any run of chunks from nothing, it is
/// complete, abandoned, or still short of its announced size.
pub proof fn law_upload_never_overruns(size: u64, chunks: Seq<u64>)
    requires
        size > 0,
    ensures
        run_upload(0, size, chunks) matches UploadProgress::Partial(n) ==> n < size,
{
    lemma_run_upload(0, size, chunks);
}

proof fn lemma_run_upload(current: u64, size: u64, chunks: Seq<u64>)
    requires
        current < size,
    ensures
        run_upload(current, size, chunks) matches UploadProgress::Partial(n) ==> current <= n < size,
    decreases chunks.len(),
{
    if chunks.len() > 0 {
        match spec_advance(current, size, chunks[0]) {
            UploadProgress::Partial(n) => lemma_run_upload(n, size, chunks.drop_first()),
            _ => {},
        }
    }
}

/// A running SHA-256 hash (`sha2::Sha256`) of the bytes of an upload, held out of sight of the
/// verifier: what it was fed is named by [`hashed_bytes`].
#[verifier::external_body]
pub struct UploadHasher {
    hasher: sha2::Sha256,
}

/// The bytes an [`UploadHasher`] has been fed, in order.
pub uninterp spec fn hashed_bytes(h: UploadHasher) -> Seq<u8>;

impl UploadHasher {
    /// Starts a hash with `sha2::Digest::new`.
    ///
    /// Trusted: the new hasher has been fed nothing.
    #[verifier::external_body]
    fn start() -> (r: Self)
        ensures
            hashed_bytes(r) == Seq::<u8>::empty(),
    {
        UploadHasher { hasher: sha2::Sha256::new() }
    }

    /// Feeds bytes with `sha2::Digest::update`.
    ///
    /// Trusted: the bytes fed grow by `data`, at the end.
    #[verifier::external_body]
    fn feed(&mut self, data: &[u8])
        ensures
            hashed_bytes(*final(self)) == hashed_bytes(*old(self)) + data@,
    {
        self.hasher.update(data);
    }

    /// The digest of what was fed so far, from `sha2::Digest::finalize` on a clone.
    ///
    /// Trusted: it is the SHA-256 digest of all the bytes fed, in order; the crate computes a
    /// one-shot digest by the same feeding and finalizing.
    #[verifier::external_body]
    fn current_digest(&self) -> (r: [u8; 32])
        ensures
            r@ == spec_sha256(hashed_bytes(*self)),
    {
        self.hasher.clone().finalize().into()
    }
}

/// The integrity check of an upload: the SHA-256 digest the uploader announced, the running
/// hash of what arrived, and the counts of announced and received bytes.
pub struct UploadDigest {
    expected: [u8; 32],
    hasher: UploadHasher,
    size: u64,
    received: u64,
}

impl UploadDigest {
    /// The announced digest.
    pub closed spec fn expected(&self) -> Seq<u8> {
        self.expected@
    }

    /// The bytes taken into the hash so far, in order.
    pub closed spec fn received_bytes(&self) -> Seq<u8> {
        hashed_bytes(self.hasher)
    }

    /// The announced size.
    pub closed spec fn size(&self) -> u64 {
        self.size
    }

    /// How many bytes were taken so far.
    pub closed spec fn received(&self) -> u64 {
        self.received
    }

    /// Starts checking an upload of `size` bytes announced with digest `expected`: nothing
    /// received yet.
    pub fn new(expected: [u8; 32], size: u64) -> (r: Self)
        ensures
            r.expected() == expected@,
            r.size() == size,
            r.received() == 0,
            r.received_bytes() == Seq::<u8>::empty(),
    {
        UploadDigest { expected, hasher: UploadHasher::start(), size, received: 0 }
    }

    /// Takes a chunk: counts it against the announced size (see [`spec_advance`]) and, unless it
    /// runs past that size, adds its bytes to the hash. An overrun leaves the check unchanged.
    pub fn accept(&mut self, data: &[u8]) -> (r: UploadProgress)
        requires
            old(self).received() <= old(self).size(),
        ensures
            r == spec_advance(old(self).received(), old(self).size(), data@.len() as u64),
            final(self).expected() == old(self).expected(),
            final(self).size() == old(self).size(),
            r is Overrun ==> final(self).received() == old(self).received() && final(self).received_bytes()
                == old(self).received_bytes(),
            !(r is Overrun) ==> final(self).received() == old(self).received() + data@.len()
                && final(self).received_bytes() == old(self).received_bytes() + data@,
    {
        let chunk = data.len() as u64;
        let r = advance_upload(self.received, self.size, chunk);
        match r {
            UploadProgress::Overrun => {},
            _ => {
                self.received = self.received + chunk;
                self.hasher.feed(data);
            },
        }
        r
    }

    /// Whether what arrived is what was announced: the SHA-256 digest of all the bytes taken is
    /// the announced digest.
    pub fn intact(&self) -> (r: bool)
        ensures
            r == (spec_sha256(self.received_bytes()) == self.expected()),
    {
        let got = self.hasher.current_digest();
        let mut i: usize = 0;
        while i < 32
            invariant
                i <= 32,
                got@.len() == 32,
                got@ == spec_sha256(self.received_bytes()),
                self.expected@.len() == 32,
                forall|j: int| 0 <= j < i ==> got@[j] == self.expected@[j],
            decreases 32 - i,
        {
            if got[i] != self.expected[i] {
                assert(got@[i as int] != self.expected@[i as int]);
                assert(got@ != self.expected@);
                return false;
            }
            i = i + 1;
        }
        assert(got@ =~= self.expected@);
        true
    }
}

} // verus!
