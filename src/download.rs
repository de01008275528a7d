//! Decisions of the cache-gated downloader: whether a cached file can be
//! reused, and whether a fresh download is accepted.
use vstd::prelude::*;
use crate::checksum::{eq_ignore_ascii_case, digests_match, md5_hex};
use crate::error::TransferError;
use crate::progress::{Phase, ProgressCounter, ProgressPayload, total_from_length, length_or_zero};

verus! {

pub open spec fn cache_name(version: Seq<char>) -> Seq<char> {
    "echo-trails-"@ + version + ".apk"@
}

/// The file name of the cache slot for one version tag.
pub fn cache_file_name(version: &str) -> (r: String)
    ensures
        r@ == cache_name(version@),
{
    let mut r = String::from_str("echo-trails-");
    r.append(version);
    r.append(".apk");
    r
}

pub open spec fn digest_view(expected: Option<String>) -> Option<Seq<char>> {
    match expected {
        Some(s) => Some(s@),
        None => None,
    }
}

/// A digest is checked only when one is given and it is not empty.
pub open spec fn verification_requested(expected: Option<Seq<char>>) -> bool {
    match expected {
        Some(s) => s.len() > 0,
        None => false,
    }
}

/// The digest gate: the actual digest equals the expected one, ignoring ASCII letter case.
pub open spec fn digest_gate(expected: Seq<char>, actual: Seq<char>) -> bool {
    eq_ignore_ascii_case(actual, expected)
}

pub fn wants_verification(expected: &Option<String>) -> (r: bool)
    ensures
        r == verification_requested(digest_view(*expected)),
{
    match expected {
        Some(s) => s.unicode_len() > 0,
        None => false,
    }
}

/// What to do once it is known whether the cache slot holds a file.
#[derive(Clone, Copy, Debug, PartialEq, Eq, Structural)]
pub enum CacheProbe {
    /// Return the cached file at once, without reading it.
    UseCached,
    /// Compute the cached file's digest and judge it.
    VerifyCached,
    /// Nothing is cached: download.
    Download,
}

pub open spec fn probe_outcome(exists: bool, requested: bool) -> CacheProbe {
    if !exists {
        CacheProbe::Download
    } else if requested {
        CacheProbe::VerifyCached
    } else {
        CacheProbe::UseCached
    }
}

pub fn probe_cache(exists: bool, expected: &Option<String>) -> (r: CacheProbe)
    ensures
        r == probe_outcome(exists, verification_requested(digest_view(*expected))),
{
    if !exists {
        CacheProbe::Download
    } else if wants_verification(expected) {
        CacheProbe::VerifyCached
    } else {
        CacheProbe::UseCached
    }
}

pub open spec fn cached_reusable(expected: Seq<char>, computed: Result<Seq<char>, Seq<char>>) -> bool {
    match computed {
        Ok(actual) => digest_gate(expected, actual),
        Err(_) => false,
    }
}

pub open spec fn result_view(computed: Result<String, String>) -> Result<Seq<char>, Seq<char>> {
    match computed {
        Ok(s) => Ok(s@),
        Err(e) => Err(e@),
    }
}

/// Judges a cached file by its digest, or by the failure to compute one.
/// `true`: reuse it; `false`: delete it and download afresh.
pub fn judge_cached(expected: &str, computed: &Result<String, String>) -> (r: bool)
    ensures
        r == cached_reusable(expected@, result_view(*computed)),
{
    match computed {
        Ok(actual) => digests_match(actual.as_str(), expected),
        Err(_) => false,
    }
}

/// Accepts or rejects a freshly downloaded file by its digest. A failure to
/// compute the digest is a filesystem error; a wrong digest is a mismatch that
/// names both values.
pub fn settle_download(expected: &String, computed: Result<String, String>) -> (r: Result<
    (),
    TransferError,
>)
    ensures
        r is Ok <==> cached_reusable(expected@, result_view(computed)),
        computed is Err ==> r == Err::<(), TransferError>(TransferError::Io(computed->Err_0)),
        computed is Ok && !digest_gate(expected@, computed->Ok_0@) ==> (match r {
            Err(TransferError::DigestMismatch { expected: e, actual: a }) => e@ == expected@
                && a@ == computed->Ok_0@,
            _ => false,
        }),
{
    match computed {
        Ok(actual) => {
            if digests_match(actual.as_str(), expected.as_str()) {
                Ok(())
            } else {
                Err(TransferError::DigestMismatch { expected: expected.clone(), actual })
            }
        },
        Err(e) => Err(TransferError::Io(e)),
    }
}

/// The decisions of one fetch, in order: probe the cache slot, judge a cached
/// file, count the chunks of a download, and accept or reject what was written.
pub struct DownloadSession {
    pub expected: Option<String>,
    pub counter: ProgressCounter,
}

impl DownloadSession {
    pub open spec fn wf(&self) -> bool {
        self.counter.wf() && self.counter.phase == Phase::Downloading
    }

    pub open spec fn requested(&self) -> bool {
        verification_requested(digest_view(self.expected))
    }

    pub fn new(expected: Option<String>) -> (r: DownloadSession)
        ensures
            r.wf(),
            r.expected == expected,
            r.counter.total == 0,
            r.counter.transferred == 0,
            r.counter.chunks@ == Seq::<u64>::empty(),
    {
        DownloadSession { expected, counter: ProgressCounter::new(Phase::Downloading, 0) }
    }

    /// Whether the cache slot is reused, verified first, or skipped.
    pub fn on_probe(&self, exists: bool) -> (r: CacheProbe)
        ensures
            r == probe_outcome(exists, self.requested()),
    {
        probe_cache(exists, &self.expected)
    }

    /// Whether a cached file with this digest (or digest failure) is reused;
    /// `false` means it is deleted and downloaded afresh.
    pub fn on_cached_digest(&self, computed: &Result<String, String>) -> (r: bool)
        requires
            self.requested(),
        ensures
            r == cached_reusable(self.expected->Some_0@, result_view(*computed)),
    {
        match &self.expected {
            Some(e) => judge_cached(e.as_str(), computed),
            None => false,
        }
    }

    /// Records the declared length of the response body (0 when absent).
    pub fn on_response(&mut self, content_length: Option<u64>)
        requires
            old(self).wf(),
            old(self).counter.chunks@ == Seq::<u64>::empty(),
        ensures
            final(self).wf(),
            final(self).expected == old(self).expected,
            final(self).counter.total == length_or_zero(content_length),
            final(self).counter.transferred == 0,
            final(self).counter.chunks@ == Seq::<u64>::empty(),
    {
        self.counter = ProgressCounter::new(Phase::Downloading, total_from_length(content_length));
    }

    /// Accounts for one received chunk and returns the event to emit for it.
    pub fn on_chunk(&mut self, len: u64) -> (r: ProgressPayload)
        requires
            old(self).wf(),
            old(self).counter.transferred + len <= u64::MAX,
        ensures
            final(self).wf(),
            final(self).expected == old(self).expected,
            final(self).counter.total == old(self).counter.total,
            final(self).counter.chunks@ == old(self).counter.chunks@.push(len),
            final(self).counter.transferred == old(self).counter.transferred + len,
            final(self).counter.emitted() == old(self).counter.emitted().push(r.progress as nat),
            r.progress == final(self).counter.transferred,
            r.total == old(self).counter.total,
            r.status@ == Phase::Downloading.spec_name(),
    {
        self.counter.record(len)
    }

    /// Whether the written file must be digested before it is accepted.
    pub fn on_body_complete(&self) -> (r: bool)
        ensures
            r == self.requested(),
    {
        wants_verification(&self.expected)
    }

    /// Accepts or rejects the written file by its digest (or digest failure).
    pub fn on_downloaded_digest(&self, computed: Result<String, String>) -> (r: Result<
        (),
        TransferError,
    >)
        requires
            self.requested(),
        ensures
            r is Ok <==> cached_reusable(self.expected->Some_0@, result_view(computed)),
            computed is Err ==> r == Err::<(), TransferError>(TransferError::Io(computed->Err_0)),
            computed is Ok && !digest_gate(self.expected->Some_0@, computed->Ok_0@) ==> (match r {
                Err(TransferError::DigestMismatch { expected: e, actual: a }) => e@
                    == self.expected->Some_0@ && a@ == computed->Ok_0@,
                _ => false,
            }),
    {
        match &self.expected {
            Some(e) => settle_download(e, computed),
            None => Ok(()),
        }
    }
}

/// With no cached file, a fetch downloads (one request), and the download is
/// accepted when its content carries the expected digest.
pub proof fn lemma_fresh_fetch(expected: Option<Seq<char>>, content: Seq<u8>)
    requires
        verification_requested(expected) ==> digest_gate(expected->Some_0, md5_hex(content)),
    ensures
        probe_outcome(false, verification_requested(expected)) == CacheProbe::Download,
        verification_requested(expected) ==> cached_reusable(
            expected->Some_0,
            Ok(md5_hex(content)),
        ),
{
}

/// After a fetch that was accepted, a second fetch of the same version with the
/// same digest finds the unchanged file reusable and never downloads.
pub proof fn lemma_second_fetch_hits(expected: Option<Seq<char>>, content: Seq<u8>)
    requires
        verification_requested(expected) ==> cached_reusable(
            expected->Some_0,
            Ok(md5_hex(content)),
        ),
    ensures
        probe_outcome(true, verification_requested(expected)) != CacheProbe::Download,
        probe_outcome(true, verification_requested(expected)) == CacheProbe::VerifyCached
            ==> cached_reusable(expected->Some_0, Ok(md5_hex(content))),
{
}

/// A cached file whose digest differs from the expected one is discarded and
/// downloaded again; the fresh content is accepted when it carries the digest.
pub proof fn lemma_corrupt_cache_recovers(expected: Seq<char>, stale: Seq<u8>, fresh: Seq<u8>)
    requires
        expected.len() > 0,
        !digest_gate(expected, md5_hex(stale)),
        digest_gate(expected, md5_hex(fresh)),
    ensures
        probe_outcome(true, verification_requested(Some(expected))) == CacheProbe::VerifyCached,
        !cached_reusable(expected, Ok(md5_hex(stale))),
        cached_reusable(expected, Ok(md5_hex(fresh))),
{
}

/// An absent digest and an empty one lead to the same decision: no verification.
pub proof fn lemma_empty_digest_skips(exists: bool)
    ensures
        probe_outcome(exists, verification_requested(None)) == probe_outcome(
            exists,
            verification_requested(Some(Seq::<char>::empty())),
        ),
        probe_outcome(exists, verification_requested(None)) == (if exists {
            CacheProbe::UseCached
        } else {
            CacheProbe::Download
        }),
{
}

} // verus!
