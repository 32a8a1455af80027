use pirate_downloader::error::{add_context, DownloadError, ErrorContext};
use pirate_downloader::framing::{encode_frame, frame_length};
use pirate_downloader::headers::{
    choose_filename, disposition_filename, extract_filename, guess_filename_from_url,
    safe_filename, trim_set, TrimSet,
};
use pirate_downloader::shared::{DownloadRequest, IpcMessage};
use pirate_downloader::types::{DownloadState, DownloadStatus};
use std::collections::HashMap;

#[test]
fn disposition_values() {
    assert_eq!(
        disposition_filename("attachment; filename=\"report.pdf\"").as_deref(),
        Some("report.pdf")
    );
    assert_eq!(disposition_filename("attachment; filename= 'a b.txt' ").as_deref(), Some("a b.txt"));
    assert_eq!(
        disposition_filename("inline; filename=one.txt; filename=two.txt").as_deref(),
        Some("one.txt;")
    );
    assert_eq!(disposition_filename("attachment").as_deref(), None);
    assert_eq!(disposition_filename("filename=").as_deref(), Some(""));
}

#[test]
fn trimming_sets() {
    assert_eq!(trim_set(" \t x y \n", TrimSet::WhiteSpace), "x y");
    assert_eq!(trim_set("\u{3000}z\u{a0}", TrimSet::WhiteSpace), "z");
    assert_eq!(trim_set("\"\"q\"", TrimSet::Exactly('"')), "q");
    assert_eq!(trim_set("''", TrimSet::Exactly('\'')), "");
}

#[test]
fn filename_falls_back_from_header_to_url_to_default() {
    assert_eq!(choose_filename(Some("attachment; filename=a.bin"), Some("b.bin")), "a.bin");
    assert_eq!(choose_filename(Some("attachment"), Some("b.bin")), "b.bin");
    assert_eq!(choose_filename(None, Some("")), "download.dat");
    assert_eq!(choose_filename(None, None), "download.dat");
}

#[test]
fn extract_filename_uses_url_path_and_sanitizes() {
    assert_eq!(extract_filename(None, "https://example.com/files/archive.zip?x=1"), "archive.zip");
    assert_eq!(extract_filename(None, "https://example.com/"), "download.dat");
    assert_eq!(extract_filename(None, "not a url"), "download.dat");
    assert_eq!(
        extract_filename(Some("attachment; filename=\"a:b|c.txt\""), "https://example.com/x"),
        "abc.txt"
    );
    assert_eq!(extract_filename(Some("attachment"), "https://example.com/dir/f%20g.iso"), "f%20g.iso");
}

#[test]
fn guessed_names_from_url_text() {
    assert_eq!(guess_filename_from_url("https://x.com/a/b/file.iso?token=1"), "file.iso");
    assert_eq!(guess_filename_from_url("abc?d"), "abc");
    assert_eq!(guess_filename_from_url("https://x.com/"), "");
}

#[test]
fn frames_are_little_endian_length_prefixed() {
    assert_eq!(frame_length([1, 0, 0, 0]), 1);
    assert_eq!(frame_length([0x10, 0x27, 0, 0]), 10_000);
    assert_eq!(frame_length([0xff, 0xff, 0xff, 0xff]), u32::MAX);
    assert_eq!(encode_frame(&b"hi".to_vec()), vec![2, 0, 0, 0, b'h', b'i']);
    let big = vec![7u8; 300];
    let f = encode_frame(&big);
    assert_eq!(&f[..4], &[44, 1, 0, 0]);
    assert_eq!(frame_length([f[0], f[1], f[2], f[3]]), 300);
}

#[test]
fn error_messages_and_context() {
    assert_eq!(DownloadError::Network("x".to_string()).message(), "Network error: x");
    assert_eq!(DownloadError::FileSystem("d".to_string()).message(), "File system error: d");
    assert_eq!(DownloadError::Config("c".to_string()).message(), "Configuration error: c");
    assert_eq!(DownloadError::TaskJoin("t".to_string()).message(), "Task join error: t");
    assert_eq!(DownloadError::Serialization("s".to_string()).message(), "Serialization error: s");
    assert_eq!(DownloadError::StateNotFound("p".to_string()).message(), "State not found: p");
    let r: Result<(), DownloadError> = Err(DownloadError::Parse("bad".to_string()));
    match r.context("loading") {
        Err(DownloadError::Config(m)) => assert_eq!(m, "loading: Parse error: bad"),
        other => panic!("unexpected {:?}", other),
    }
    let n = add_context(DownloadError::Network("down".to_string()), "ctx");
    assert!(matches!(n, DownloadError::Network(ref m) if m == "down"));
    let ok: Result<u8, DownloadError> = Ok(3);
    assert_eq!(ok.context("x").unwrap(), 3);
    assert!(matches!(DownloadError::from("y".to_string()), DownloadError::Config(_)));
    assert!(DownloadError::FileSystem(String::new()).keeps_kind());
}

#[test]
fn status_names() {
    assert_eq!(DownloadStatus::Paused.to_string(), "paused");
    assert_eq!(DownloadStatus::Cancelled.as_str(), "cancelled");
    assert_eq!(DownloadStatus::Pending.as_str(), "pending");
}

#[test]
fn flat_record_paths_and_progress() {
    let mut s = DownloadState::new(
        "id".to_string(),
        "https://e.com/f".to_string(),
        "/tmp/f".to_string(),
        1000,
        8,
        512 * 1024,
    );
    assert_eq!(s.part_filepath(), "/tmp/f.part");
    assert_eq!(s.state_filepath(), "/tmp/f.part.state");
    assert_eq!(s.status, DownloadStatus::Pending);
    assert_eq!(s.completion_percentage(), 0);
    s.downloaded_bytes = 250;
    assert_eq!(s.completion_percentage(), 25);
    assert!(s.created_at.contains('T'));
    assert_eq!(s.created_at, s.updated_at);
}

#[test]
fn ipc_messages_hold_requests() {
    let req = DownloadRequest {
        url: "https://e.com/x".to_string(),
        filename: None,
        headers: HashMap::new(),
        cookies: None,
        referrer: Some("https://e.com".to_string()),
    };
    let msg = IpcMessage::DownloadRequest(req);
    assert!(matches!(msg, IpcMessage::DownloadRequest(ref r) if r.url == "https://e.com/x"));
    assert!(matches!(IpcMessage::Ping, IpcMessage::Ping));
}

#[test]
fn safe_filename_drops_rejected_characters() {
    assert_eq!(safe_filename("a/b\\c?.txt"), "abc.txt");
    assert_eq!(safe_filename("plain.iso"), "plain.iso");
    assert_eq!(safe_filename(&"x".repeat(300)).len(), 255);
}

#[test]
fn plain_candidates_are_kept_verbatim() {
    assert_eq!(
        extract_filename(Some("attachment; filename=\"Report_2024-v1.pdf\""), "https://e.com/x"),
        "Report_2024-v1.pdf"
    );
    assert_eq!(extract_filename(None, "https://e.com/a/data.tar.gz"), "data.tar.gz");
    assert_eq!(extract_filename(None, "https://e.com/a/"), "download.dat");
    assert_eq!(safe_filename("movie-1080p.mkv"), "movie-1080p.mkv");
}
