//! File metadata as reported to the user interface.
use vstd::prelude::*;

verus! {

/// Metadata of one file: times in milliseconds since the epoch, size in
/// bytes, pixel dimensions (0 where not decoded), media type and digest.
#[derive(Clone, Debug)]
pub struct FileInfo {
    pub last_modified: i64,
    pub creation_time: i64,
    pub size: u64,
    pub width: u32,
    pub height: u32,
    pub file_type: Option<String>,
    pub md5: Option<String>,
}

/// The lower-cased form of a text.
pub uninterp spec fn lower_of(s: Seq<char>) -> Seq<char>;

/// Relies on str::to_lowercase: the result depends on the characters alone.
#[verifier::external_body]
fn lowercase(s: &str) -> (r: String)
    ensures
        r@ == lower_of(s@),
{
    s.to_lowercase()
}

/// The media type registered for a lower-case file extension.
pub open spec fn media_type_spec(ext: Seq<char>) -> Option<Seq<char>> {
    if ext == "jpg"@ || ext == "jpeg"@ {
        Some("image/jpeg"@)
    } else if ext == "png"@ {
        Some("image/png"@)
    } else if ext == "gif"@ {
        Some("image/gif"@)
    } else if ext == "webp"@ {
        Some("image/webp"@)
    } else if ext == "mp4"@ {
        Some("video/mp4"@)
    } else if ext == "mov"@ {
        Some("video/quicktime"@)
    } else if ext == "avi"@ {
        Some("video/x-msvideo"@)
    } else if ext == "mkv"@ {
        Some("video/x-matroska"@)
    } else if ext == "webm"@ {
        Some("video/webm"@)
    } else {
        None
    }
}

pub open spec fn opt_view(o: Option<String>) -> Option<Seq<char>> {
    match o {
        Some(s) => Some(s@),
        None => None,
    }
}

fn text_eq(a: &str, b: &str) -> (r: bool)
    ensures
        r == (a@ == b@),
{
    let n = a.unicode_len();
    if n != b.unicode_len() {
        return false;
    }
    let mut i: usize = 0;
    while i < n
        invariant
            n == a@.len(),
            n == b@.len(),
            i <= n,
            forall|j: int| 0 <= j < i ==> a@[j] == b@[j],
        decreases n - i,
    {
        if a.get_char(i) != b.get_char(i) {
            return false;
        }
        i = i + 1;
    }
    assert(a@ =~= b@);
    true
}

/// The media type of an extension that is already lower-case.
pub fn media_type_of_lowered(ext: &str) -> (r: Option<String>)
    ensures
        opt_view(r) == media_type_spec(ext@),
{
    if text_eq(ext, "jpg") || text_eq(ext, "jpeg") {
        Some(String::from_str("image/jpeg"))
    } else if text_eq(ext, "png") {
        Some(String::from_str("image/png"))
    } else if text_eq(ext, "gif") {
        Some(String::from_str("image/gif"))
    } else if text_eq(ext, "webp") {
        Some(String::from_str("image/webp"))
    } else if text_eq(ext, "mp4") {
        Some(String::from_str("video/mp4"))
    } else if text_eq(ext, "mov") {
        Some(String::from_str("video/quicktime"))
    } else if text_eq(ext, "avi") {
        Some(String::from_str("video/x-msvideo"))
    } else if text_eq(ext, "mkv") {
        Some(String::from_str("video/x-matroska"))
    } else if text_eq(ext, "webm") {
        Some(String::from_str("video/webm"))
    } else {
        None
    }
}

/// The media type of a file extension, whatever its letter case.
pub fn media_type_for_extension(ext: &str) -> (r: Option<String>)
    ensures
        opt_view(r) == media_type_spec(lower_of(ext@)),
{
    let lowered = lowercase(ext);
    media_type_of_lowered(lowered.as_str())
}

impl FileInfo {
    /// Metadata computed on the local filesystem: the media type comes from the
    /// extension and no image is decoded, so width and height are 0.
    pub fn local(
        last_modified: i64,
        creation_time: i64,
        size: u64,
        extension: &str,
        md5: Option<String>,
    ) -> (r: FileInfo)
        ensures
            r.last_modified == last_modified,
            r.creation_time == creation_time,
            r.size == size,
            r.width == 0,
            r.height == 0,
            opt_view(r.file_type) == media_type_spec(lower_of(extension@)),
            r.md5 == md5,
    {
        FileInfo {
            last_modified,
            creation_time,
            size,
            width: 0,
            height: 0,
            file_type: media_type_for_extension(extension),
            md5,
        }
    }

    /// Metadata as the platform helper reports it, with its signed fields
    /// reinterpreted as unsigned.
    pub fn from_platform(
        last_modified: i64,
        creation_time: i64,
        size: i64,
        width: i32,
        height: i32,
        file_type: Option<String>,
        md5: Option<String>,
    ) -> (r: FileInfo)
        ensures
            r.last_modified == last_modified,
            r.creation_time == creation_time,
            r.size == size as u64,
            r.width == width as u32,
            r.height == height as u32,
            r.file_type == file_type,
            r.md5 == md5,
    {
        FileInfo {
            last_modified,
            creation_time,
            size: size as u64,
            width: width as u32,
            height: height as u32,
            file_type,
            md5,
        }
    }
}

} // verus!
