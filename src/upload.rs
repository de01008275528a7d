//! Decisions of the progress-reporting uploader, and the upload-token command.
use vstd::prelude::*;
use crate::error::TransferError;
use crate::progress::{Phase, ProgressCounter, ProgressPayload};

verus! {

/// Answer to a request for a pre-signed upload address.
#[derive(Clone, Debug)]
pub struct UploadTokenResponse {
    pub url: String,
    pub code: i32,
    pub message: Option<String>,
}

/// Pre-signed upload addresses are not issued: every request is answered with
/// an empty address, code 1 and the message "key is required".
pub fn upload_token(key: String) -> (r: Result<UploadTokenResponse, String>)
    ensures
        r is Ok,
        r->Ok_0.url@ == Seq::<char>::empty(),
        r->Ok_0.code == 1,
        r->Ok_0.message is Some,
        r->Ok_0.message->Some_0@ == "key is required"@,
{
    Ok(UploadTokenResponse {
        url: String::new(),
        code: 1,
        message: Some(String::from_str("key is required")),
    })
}

/// An HTTP status in the success class (200 to 299).
pub open spec fn status_success(status: u16) -> bool {
    200 <= status && status < 300
}

/// The result of an upload once the endpoint has answered with `status`.
pub fn upload_response(status: u16) -> (r: Result<(), TransferError>)
    ensures
        status_success(status) ==> r is Ok,
        !status_success(status) ==> r == Err::<(), TransferError>(TransferError::HttpStatus(status)),
{
    if 200 <= status && status < 300 {
        Ok(())
    } else {
        Err(TransferError::HttpStatus(status))
    }
}

/// A progress event tagged with the key that names its upload.
#[derive(Clone, Debug)]
pub struct UploadProgress {
    pub key: String,
    pub payload: ProgressPayload,
}

/// Progress accounting of one upload: an event per chunk read, tagged with the key.
pub struct UploadSession {
    pub key: String,
    pub counter: ProgressCounter,
}

impl UploadSession {
    pub open spec fn wf(&self) -> bool {
        self.counter.wf() && self.counter.phase == Phase::Uploading
    }

    pub fn new(key: String, file_size: u64) -> (r: UploadSession)
        ensures
            r.wf(),
            r.key@ == key@,
            r.counter.total == file_size,
            r.counter.transferred == 0,
            r.counter.chunks@ == Seq::<u64>::empty(),
    {
        UploadSession { key, counter: ProgressCounter::new(Phase::Uploading, file_size) }
    }

    /// Accounts for one chunk read from the source, before it is sent.
    pub fn chunk_read(&mut self, len: u64) -> (r: UploadProgress)
        requires
            old(self).wf(),
            old(self).counter.transferred + len <= u64::MAX,
        ensures
            final(self).wf(),
            final(self).key@ == old(self).key@,
            final(self).counter.total == old(self).counter.total,
            final(self).counter.chunks@ == old(self).counter.chunks@.push(len),
            final(self).counter.transferred == old(self).counter.transferred + len,
            final(self).counter.emitted() == old(self).counter.emitted().push(
                r.payload.progress as nat,
            ),
            r.key@ == old(self).key@,
            r.payload.progress == final(self).counter.transferred,
            r.payload.total == old(self).counter.total,
            r.payload.status@ == Phase::Uploading.spec_name(),
    {
        let payload = self.counter.record(len);
        UploadProgress { key: self.key.clone(), payload }
    }
}

} // verus!
