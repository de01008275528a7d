use echo_trails::checksum::{digests_match, hex_lower, Md5Stream};
use echo_trails::common::greet;
use echo_trails::download::{
    cache_file_name, judge_cached, probe_cache, settle_download, wants_verification, CacheProbe,
    DownloadSession,
};
use echo_trails::error::{mismatch_message, TransferError};
use echo_trails::media::{media_type_for_extension, media_type_of_lowered, FileInfo};
use echo_trails::progress::{total_from_length, Phase, ProgressCounter, ProgressPayload};
use echo_trails::upload::{upload_response, upload_token, UploadSession};

fn md5_text(parts: &[&[u8]]) -> String {
    let mut s = Md5Stream::new();
    for p in parts {
        s.update(p);
    }
    s.finish()
}

#[test]
fn hex_lower_renders_two_digits_per_byte() {
    assert_eq!(hex_lower(&[0x00, 0xff, 0x1a, 0x09]), "00ff1a09");
    assert_eq!(hex_lower(&[]), "");
}

#[test]
fn md5_of_empty_input() {
    assert_eq!(md5_text(&[]), "d41d8cd98f00b204e9800998ecf8427e");
}

#[test]
fn md5_is_independent_of_chunking() {
    let whole = md5_text(&[b"abc"]);
    assert_eq!(whole, "900150983cd24fb0d6963f7d28e17f72");
    assert_eq!(md5_text(&[b"a", b"", b"bc"]), whole);
}

#[test]
fn digest_comparison_ignores_case() {
    assert!(digests_match("900150983CD24FB0", "900150983cd24fb0"));
    assert!(!digests_match("900150983cd24fb0", "900150983cd24fb1"));
    assert!(!digests_match("abc", "abcd"));
    assert!(digests_match("", ""));
}

#[test]
fn cache_slot_name_depends_on_version() {
    assert_eq!(cache_file_name("1.2.3"), "echo-trails-1.2.3.apk");
    assert_eq!(cache_file_name(""), "echo-trails-.apk");
}

#[test]
fn no_cached_file_means_download() {
    assert_eq!(probe_cache(false, &None), CacheProbe::Download);
    assert_eq!(probe_cache(false, &Some("abc".to_string())), CacheProbe::Download);
}

#[test]
fn absent_and_empty_digest_both_skip_verification() {
    assert!(!wants_verification(&None));
    assert!(!wants_verification(&Some(String::new())));
    assert_eq!(probe_cache(true, &None), CacheProbe::UseCached);
    assert_eq!(probe_cache(true, &Some(String::new())), CacheProbe::UseCached);
    assert_eq!(probe_cache(true, &Some("ab".to_string())), CacheProbe::VerifyCached);
}

#[test]
fn cached_file_judged_by_digest() {
    let good = md5_text(&[b"payload"]);
    assert!(judge_cached(&good.to_uppercase(), &Ok(good.clone())));
    assert!(!judge_cached(&good, &Ok("00".to_string())));
    assert!(!judge_cached(&good, &Err("unreadable".to_string())));
}

#[test]
fn corrupt_cache_is_replaced_and_fresh_copy_accepted() {
    let expected = md5_text(&[b"fresh content"]);
    let session = DownloadSession::new(Some(expected.clone()));
    assert_eq!(session.on_probe(true), CacheProbe::VerifyCached);
    assert!(!session.on_cached_digest(&Ok(md5_text(&[b"stale content"]))));
    assert!(session.on_body_complete());
    assert!(session.on_downloaded_digest(Ok(md5_text(&[b"fresh ", b"content"]))).is_ok());
}

#[test]
fn second_fetch_reuses_verified_file() {
    let digest = md5_text(&[b"release build"]);
    let session = DownloadSession::new(Some(digest.clone()));
    assert!(session.on_downloaded_digest(Ok(digest.clone())).is_ok());
    assert_eq!(session.on_probe(true), CacheProbe::VerifyCached);
    assert!(session.on_cached_digest(&Ok(digest)));
}

#[test]
fn mismatch_after_download_names_both_digests() {
    let r = settle_download(&"aa".to_string(), Ok("bb".to_string()));
    match r {
        Err(TransferError::DigestMismatch { expected, actual }) => {
            assert_eq!(expected, "aa");
            assert_eq!(actual, "bb");
        }
        other => panic!("unexpected {:?}", other),
    }
    assert_eq!(mismatch_message("aa", "bb"), "MD5 mismatch: expected aa, got bb");
}

#[test]
fn digest_failure_after_download_is_io_error() {
    match settle_download(&"aa".to_string(), Err("gone".to_string())) {
        Err(TransferError::Io(m)) => assert_eq!(m, "gone"),
        other => panic!("unexpected {:?}", other),
    }
}

#[test]
fn cached_event_reports_full_progress() {
    let p = ProgressPayload::cached();
    assert_eq!((p.progress, p.total, p.status.as_str()), (100, 100, "exists"));
}

#[test]
fn missing_length_is_unknown_total() {
    assert_eq!(total_from_length(None), 0);
    assert_eq!(total_from_length(Some(10_000)), 10_000);
}

#[test]
fn progress_never_decreases() {
    let mut c = ProgressCounter::new(Phase::Downloading, 9);
    let mut last = 0;
    for len in [3u64, 0, 4, 2] {
        let p = c.record(len);
        assert!(p.progress >= last);
        last = p.progress;
    }
    assert_eq!(last, 9);
}

#[test]
fn download_of_ten_thousand_bytes() {
    let mut session = DownloadSession::new(None);
    assert_eq!(session.on_probe(false), CacheProbe::Download);
    session.on_response(Some(10_000));
    let mut events = Vec::new();
    for _ in 0..10 {
        events.push(session.on_chunk(1_000));
    }
    assert!(events.iter().all(|e| e.total == 10_000 && e.status == "downloading"));
    assert_eq!(events.last().unwrap().progress, 10_000);
    assert!(!session.on_body_complete());
}

#[test]
fn upload_rejected_with_status_500() {
    let mut session = UploadSession::new("photo-1".to_string(), 5_000);
    let mut last = 0;
    for len in [2_048u64, 2_048, 904] {
        let e = session.chunk_read(len);
        assert_eq!(e.key, "photo-1");
        assert_eq!(e.payload.status, "uploading");
        assert_eq!(e.payload.total, 5_000);
        last = e.payload.progress;
    }
    assert_eq!(last, 5_000);
    match upload_response(500) {
        Err(TransferError::HttpStatus(s)) => assert_eq!(s, 500),
        other => panic!("unexpected {:?}", other),
    }
}

#[test]
fn success_statuses_accept_upload() {
    assert!(upload_response(200).is_ok());
    assert!(upload_response(299).is_ok());
    assert!(upload_response(199).is_err());
    assert!(upload_response(300).is_err());
}

#[test]
fn upload_token_is_refused() {
    let r = upload_token("k".to_string()).unwrap();
    assert_eq!(r.url, "");
    assert_eq!(r.code, 1);
    assert_eq!(r.message.as_deref(), Some("key is required"));
}

#[test]
fn media_type_from_extension() {
    assert_eq!(media_type_for_extension("JPG").as_deref(), Some("image/jpeg"));
    assert_eq!(media_type_for_extension("jpeg").as_deref(), Some("image/jpeg"));
    assert_eq!(media_type_for_extension("Mov").as_deref(), Some("video/quicktime"));
    assert_eq!(media_type_for_extension("txt"), None);
    assert_eq!(media_type_for_extension(""), None);
    assert_eq!(media_type_of_lowered("WEBM"), None);
    assert_eq!(media_type_of_lowered("webm").as_deref(), Some("video/webm"));
}

#[test]
fn local_file_info_has_no_dimensions() {
    let info = FileInfo::local(5, 3, 42, "PNG", Some("ab".to_string()));
    assert_eq!((info.last_modified, info.creation_time, info.size), (5, 3, 42));
    assert_eq!((info.width, info.height), (0, 0));
    assert_eq!(info.file_type.as_deref(), Some("image/png"));
    assert_eq!(info.md5.as_deref(), Some("ab"));
}

#[test]
fn platform_file_info_reinterprets_signed_fields() {
    let info = FileInfo::from_platform(1, 2, 300, 640, -1, None, None);
    assert_eq!((info.size, info.width, info.height), (300, 640, u32::MAX));
    assert!(info.file_type.is_none());
}

#[test]
fn greeting_text() {
    assert_eq!(greet("Ana"), "Hello, Ana! You've been greeted from Rust!");
}
