use pirate_downloader::persistence::get_state_file_path;
use pirate_downloader::state::{DownloadMetadata, DownloadState};
use std::path::PathBuf;

#[test]
fn test_state_file_path() {
    let path = get_state_file_path("/downloads/file.zip.part");
    assert_eq!(PathBuf::from(path), PathBuf::from("/downloads/file.zip.part.state"));
}

#[test]
fn test_state_transitions() {
    assert!(DownloadState::Paused.can_resume());
    assert!(DownloadState::Stopped.can_resume());
    assert!(!DownloadState::Active.can_resume());
    assert!(!DownloadState::Completed.can_resume());
}

#[test]
fn test_terminal_states() {
    assert!(DownloadState::Completed.is_terminal());
    assert!(DownloadState::Failed.is_terminal());
    assert!(DownloadState::Cancelled.is_terminal());
    assert!(!DownloadState::Active.is_terminal());
}

#[test]
fn test_metadata_creation() {
    let meta = DownloadMetadata::new(
        "https://example.com/file.zip".to_string(),
        "/tmp/file.zip.part".to_string(),
        1024,
        16,
    );

    assert_eq!(meta.state, DownloadState::Pending);
    assert_eq!(meta.downloaded_bytes, 0);
    assert_eq!(meta.progress_percentage(), 0);
}

#[test]
fn test_progress_calculation() {
    let mut meta = DownloadMetadata::new(
        "https://example.com/file.zip".to_string(),
        "/tmp/file.zip.part".to_string(),
        1000,
        16,
    );

    meta.downloaded_bytes = 500;
    assert_eq!(meta.progress_percentage(), 50);

    meta.downloaded_bytes = 1000;
    assert_eq!(meta.progress_percentage(), 100);
}

#[test]
fn state_path_appends_suffix_to_any_path() {
    assert_eq!(get_state_file_path("a"), "a.state");
    assert_eq!(get_state_file_path(""), ".state");
}

#[test]
fn metadata_lists_every_chunk_as_incomplete() {
    let meta = DownloadMetadata::new("u".to_string(), "p".to_string(), 1048576, 4);
    assert_eq!(meta.incomplete_chunks, vec![0, 1]);
    assert!(meta.completed_chunks.is_empty());
    assert!(meta.paused_at.is_none());
    let empty = DownloadMetadata::new("u".to_string(), "p".to_string(), 0, 4);
    assert!(empty.incomplete_chunks.is_empty());
    assert_eq!(empty.progress_percentage(), 0);
}

#[test]
fn metadata_transitions_set_state_and_time() {
    let mut meta = DownloadMetadata::new("u".to_string(), "p".to_string(), 1000, 2);
    meta.pause();
    assert_eq!(meta.state, DownloadState::Paused);
    assert!(meta.paused_at.is_some());
    meta.resume();
    assert_eq!(meta.state, DownloadState::Active);
    assert!(meta.resumed_at.is_some());
    meta.stop();
    assert_eq!(meta.state, DownloadState::Stopped);
    assert!(meta.stopped_at.is_some());
    meta.complete();
    assert_eq!(meta.state, DownloadState::Completed);
    assert!(meta.completed_at.is_some());
    meta.fail("boom".to_string());
    assert_eq!(meta.state, DownloadState::Failed);
    assert_eq!(meta.error_message.as_deref(), Some("boom"));
    meta.cancel();
    assert_eq!(meta.state, DownloadState::Cancelled);
}

#[test]
fn state_names_and_activity() {
    assert!(DownloadState::Active.is_active());
    assert!(!DownloadState::Paused.is_active());
    assert!(!DownloadState::Pending.is_terminal());
    assert_eq!(DownloadState::Stopped.name(), "stopped");
    assert_eq!(DownloadState::Cancelled.name(), "cancelled");
}
