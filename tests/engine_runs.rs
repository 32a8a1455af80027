use pirate_downloader::commands::{begin_cancel, begin_pause, begin_resume, begin_stop};
use pirate_downloader::engine::DownloadEngine;
use pirate_downloader::error::DownloadError;
use pirate_downloader::integrity::{to_decimal, verify_download};
use pirate_downloader::ledger::ChunkLedger;
use pirate_downloader::scheduler::{
    attempt_gate, attempt_succeeded, keep_streaming, may_attempt, next_generation,
    retry_backoff_ms, worker_count, AttemptGate, ChunkScheduler, WorkerStep,
};
use pirate_downloader::state::{DownloadMetadata, DownloadState};

const MIB: u64 = 1024 * 1024;

fn active(total: u64, threads: u64) -> DownloadMetadata {
    DownloadEngine::plan(
        "https://example.com/file.bin".to_string(),
        "/tmp/file.bin".to_string(),
        Some(total),
        threads,
    )
    .unwrap()
}

#[test]
fn unknown_or_zero_size_is_a_config_error() {
    let none = DownloadEngine::plan("u".to_string(), "p".to_string(), None, 4);
    assert!(matches!(none, Err(DownloadError::Config(_))));
    let zero = DownloadEngine::plan("u".to_string(), "p".to_string(), Some(0), 4);
    assert!(matches!(zero, Err(DownloadError::Config(_))));
    let huge = DownloadEngine::plan("u".to_string(), "p".to_string(), Some(10), 1 << 40);
    assert!(matches!(huge, Err(DownloadError::Config(_))));
}

#[test]
fn plan_starts_active_with_all_chunks_pending() {
    let meta = active(MIB, 4);
    assert_eq!(meta.state, DownloadState::Active);
    assert_eq!(meta.thread_count, 4);
    assert_eq!(meta.total_size, MIB);
    assert_eq!(meta.incomplete_chunks, vec![0, 1]);
    assert_eq!(active(MIB, 0).thread_count, 8);
    assert_eq!(worker_count(0), 8);
    assert_eq!(worker_count(3), 3);
}

#[test]
fn small_file_completes_with_exact_byte_count() {
    let mut meta = active(MIB, 4);
    let mut sched = ChunkScheduler::new(MIB, &meta.incomplete_chunks).unwrap();
    let mut ledger = ChunkLedger::new(MIB);
    let mut progress = Vec::new();
    loop {
        match sched.lease(0, 0, 0, ledger.completed_count()) {
            WorkerStep::Fetch(task) => {
                assert_eq!(task.expected_bytes, 512 * 1024);
                assert!(attempt_succeeded(true, task.expected_bytes, task.expected_bytes));
                progress.push(ledger.record_completion(task.index).unwrap());
            }
            WorkerStep::Wait => panic!("nothing is in flight"),
            WorkerStep::Exit => break,
        }
    }
    assert_eq!(progress, vec![524_288, 1_048_576]);
    assert_eq!(ledger.downloaded_bytes(), 1_048_576);
    assert_eq!(ledger.completed_count(), 2);
    let res = DownloadEngine::conclude("id1".to_string(), 0, &mut meta, &ledger).unwrap();
    assert_eq!(res.id, "id1");
    assert_eq!(res.status, "completed");
    assert_eq!(meta.state, DownloadState::Completed);
    assert_eq!(meta.downloaded_bytes, 1_048_576);
    assert_eq!(meta.completed_chunks.len(), 2);
    assert!(meta.incomplete_chunks.is_empty());
    assert!(meta.completed_at.is_some());
}

#[test]
fn short_run_fails_integrity_and_marks_failed() {
    let mut meta = active(MIB, 2);
    let mut ledger = ChunkLedger::new(MIB);
    ledger.record_completion(1);
    let r = DownloadEngine::conclude("id".to_string(), 0, &mut meta, &ledger);
    assert!(matches!(r, Err(DownloadError::Integrity { .. })));
    assert_eq!(meta.state, DownloadState::Failed);
    assert!(meta.error_message.is_some());
}

#[test]
fn signalled_run_reports_its_signal() {
    let ledger = ChunkLedger::new(MIB);
    for (signal, status) in [(1u8, "paused"), (2, "stopped"), (3, "cancelled")] {
        let mut meta = active(MIB, 2);
        let res = DownloadEngine::conclude("x".to_string(), signal, &mut meta, &ledger).unwrap();
        assert_eq!(res.status, status);
        assert_eq!(meta.state, DownloadState::Active);
    }
}

#[test]
fn single_chunk_one_worker_completes_others_idle() {
    let total = 1000;
    let meta = active(total, 4);
    let mut sched = ChunkScheduler::new(total, &meta.incomplete_chunks).unwrap();
    let mut ledger = ChunkLedger::new(total);
    let first = sched.lease(0, 0, 0, ledger.completed_count());
    let task = match first {
        WorkerStep::Fetch(t) => t,
        other => panic!("unexpected {:?}", other),
    };
    assert_eq!((task.index, task.start, task.end, task.expected_bytes), (0, 0, 999, 1000));
    assert_eq!(task.retry_count, 1);
    assert!(task.enforce_speed);
    for _ in 0..3 {
        assert_eq!(sched.lease(0, 0, 0, ledger.completed_count()), WorkerStep::Wait);
    }
    assert_eq!(ledger.record_completion(0), Some(1000));
    for _ in 0..4 {
        assert_eq!(sched.lease(0, 0, 0, ledger.completed_count()), WorkerStep::Exit);
    }
}

#[test]
fn pause_persists_disjoint_chunk_sets_and_resume_restores() {
    let total = 10 * MIB;
    let mut meta = active(total, 4);
    assert_eq!(meta.incomplete_chunks.len(), 20);
    let mut ledger = ChunkLedger::new(total);
    for i in 0..10u64 {
        ledger.record_completion(i * 2);
    }
    assert_eq!(begin_pause(&mut meta, &ledger).unwrap(), 1);
    assert_eq!(meta.state, DownloadState::Paused);
    assert!(meta.paused_at.is_some());
    assert_eq!(meta.completed_chunks.len(), 10);
    assert_eq!(meta.incomplete_chunks.len(), 10);
    assert_eq!(meta.downloaded_bytes, 10 * 512 * 1024);
    for c in &meta.completed_chunks {
        assert!(!meta.incomplete_chunks.contains(c));
    }
    let expected_incomplete: Vec<u64> = (0..10u64).map(|i| i * 2 + 1).collect();
    assert_eq!(meta.incomplete_chunks, expected_incomplete);

    let (restored, generation) = begin_resume(&mut meta, 7).unwrap();
    assert_eq!(generation, 8);
    assert_eq!(meta.state, DownloadState::Active);
    assert!(meta.resumed_at.is_some());
    assert_eq!(restored.downloaded_bytes(), 10 * 512 * 1024);
    assert_eq!(restored.completed_chunks(), meta.completed_chunks);
    let sched = ChunkScheduler::new(total, &meta.incomplete_chunks).unwrap();
    assert_eq!(sched.queued(), 10);
}

#[test]
fn commands_refuse_wrong_states() {
    let ledger = ChunkLedger::new(MIB);
    let mut meta = DownloadMetadata::new("u".to_string(), "p".to_string(), MIB, 2);
    assert!(matches!(begin_pause(&mut meta, &ledger), Err(DownloadError::Config(_))));
    assert!(matches!(begin_stop(&mut meta, &ledger), Err(DownloadError::Config(_))));
    assert!(matches!(begin_cancel(&mut meta), Err(DownloadError::Config(_))));
    assert!(matches!(begin_resume(&mut meta, 0), Err(DownloadError::Config(_))));
    assert_eq!(meta.state, DownloadState::Pending);
    meta.state = DownloadState::Active;
    assert_eq!(begin_stop(&mut meta, &ledger).unwrap(), 2);
    assert_eq!(meta.state, DownloadState::Stopped);
    assert!(meta.stopped_at.is_some());
    assert!(matches!(begin_pause(&mut meta, &ledger), Err(DownloadError::Config(_))));
}

#[test]
fn resume_rejects_inconsistent_saved_chunks() {
    let mut meta = active(MIB, 2);
    meta.state = DownloadState::Paused;
    meta.completed_chunks = vec![1, 1];
    assert!(matches!(begin_resume(&mut meta, 0), Err(DownloadError::Integrity { .. })));
    assert_eq!(meta.state, DownloadState::Paused);
    meta.completed_chunks = vec![5];
    assert!(matches!(begin_resume(&mut meta, 0), Err(DownloadError::Integrity { .. })));
}

#[test]
fn cancel_raises_signal_three() {
    let mut meta = active(100 * MIB, 8);
    assert_eq!(begin_cancel(&mut meta).unwrap(), 3);
    assert_eq!(meta.state, DownloadState::Cancelled);
    assert!(!keep_streaming(3, 0, 0, false, 10, 10));
    assert_eq!(attempt_gate(3, 0, 0), AttemptGate::Halt);
    let mut sched = ChunkScheduler::new(100 * MIB, &meta.incomplete_chunks).unwrap();
    assert_eq!(sched.lease(3, 0, 0, 0), WorkerStep::Exit);
    assert_eq!(sched.queued(), 25);
}

#[test]
fn straggler_floor_lifted_after_two_leases() {
    let total = MIB;
    let mut sched = ChunkScheduler::new(total, &vec![0]).unwrap();
    let mut flags = Vec::new();
    for lease in 1..=5u32 {
        match sched.lease(0, 0, 0, 0) {
            WorkerStep::Fetch(t) => {
                assert_eq!(t.retry_count, lease);
                assert_eq!(sched.retry_count(0), lease);
                flags.push(t.enforce_speed);
                sched.requeue(t.index, 0);
            }
            other => panic!("unexpected {:?}", other),
        }
    }
    assert_eq!(flags, vec![true, true, false, false, false]);
    // 100 KB/s for just over three seconds is under the floor.
    assert!(!keep_streaming(0, 0, 0, true, 3001, 300_100));
    assert!(keep_streaming(0, 0, 0, false, 3001, 300_100));
    assert!(keep_streaming(0, 0, 0, true, 3000, 0));
    assert!(keep_streaming(0, 0, 0, true, 3001, 1_000_000));
    // exactly 300 KiB/s is not under the floor
    assert!(keep_streaming(0, 0, 0, true, 4000, 1_228_800));
    assert!(!keep_streaming(0, 0, 0, true, 4000, 1_228_799));
}

#[test]
fn requeue_only_while_running() {
    let mut sched = ChunkScheduler::new(MIB, &vec![0, 1]).unwrap();
    sched.requeue(1, 1);
    assert_eq!(sched.queued(), 2);
    sched.requeue(1, 0);
    assert_eq!(sched.queued(), 3);
    assert!(ChunkScheduler::new(MIB, &vec![2]).is_err());
}

#[test]
fn zombie_worker_retires_after_resume() {
    assert_eq!(next_generation(7), 8);
    assert_eq!(next_generation(u32::MAX), 0);
    assert_eq!(attempt_gate(0, 8, 7), AttemptGate::Retire);
    assert_eq!(attempt_gate(0, 8, 8), AttemptGate::Proceed);
    assert_eq!(attempt_gate(1, 8, 7), AttemptGate::Halt);
    assert!(!keep_streaming(0, 8, 7, false, 0, 0));
    let mut sched = ChunkScheduler::new(MIB, &vec![0, 1]).unwrap();
    assert_eq!(sched.lease(0, 8, 7, 0), WorkerStep::Exit);
    assert_eq!(sched.queued(), 2);
}

#[test]
fn attempt_policy() {
    assert!(attempt_succeeded(true, 10, 10));
    assert!(!attempt_succeeded(true, 9, 10));
    assert!(!attempt_succeeded(false, 10, 10));
    assert!(may_attempt(4));
    assert!(!may_attempt(5));
    assert_eq!(retry_backoff_ms(1, 0), Some(200));
    assert_eq!(retry_backoff_ms(5, 0), Some(1000));
    assert_eq!(retry_backoff_ms(3, 2), None);
}

#[test]
fn ledger_never_counts_a_chunk_twice() {
    let mut ledger = ChunkLedger::new(1_000_000);
    assert_eq!(ledger.record_completion(1), Some(475_712));
    assert_eq!(ledger.record_completion(1), None);
    assert_eq!(ledger.downloaded_bytes(), 475_712);
    assert_eq!(ledger.completed_chunks(), vec![1]);
    assert!(ledger.is_recorded(1));
    assert!(!ledger.is_recorded(0));
    assert_eq!(ledger.record_completion(0), Some(1_000_000));
    assert_eq!(ledger.total_size(), 1_000_000);
    assert!(matches!(ChunkLedger::restore(1_000_000, &vec![0, 0]), Err(DownloadError::Integrity { .. })));
    assert!(matches!(ChunkLedger::restore(1_000_000, &vec![2]), Err(DownloadError::Integrity { .. })));
    let r = ChunkLedger::restore(1_000_000, &vec![1, 0]).unwrap();
    assert_eq!(r.downloaded_bytes(), 1_000_000);
}

#[test]
fn integrity_gate_compares_bytes() {
    assert!(verify_download(20, 20, 2, 2).is_ok());
    assert!(verify_download(21, 20, 2, 2).is_ok());
    let e = verify_download(10, 20, 1, 2).unwrap_err();
    assert_eq!(
        e.message(),
        "Integrity check failed: Download FAILED: 10 / 20 bytes (1 / 2 chunks). Retry."
    );
}

#[test]
fn integrity_message_carries_both_tallies() {
    match verify_download(524288, 1048576, 1, 2) {
        Err(DownloadError::Integrity { message }) => {
            assert_eq!(message, "Download FAILED: 524288 / 1048576 bytes (1 / 2 chunks). Retry.")
        }
        other => panic!("unexpected {:?}", other),
    }
    assert_eq!(to_decimal(0), "0");
    assert_eq!(to_decimal(9), "9");
    assert_eq!(to_decimal(10), "10");
    assert_eq!(to_decimal(u64::MAX), u64::MAX.to_string());
}

#[test]
fn pause_keeps_every_chunk_listed() {
    let total = 10 * MIB;
    let mut meta = active(total, 4);
    let mut ledger = ChunkLedger::new(total);
    for i in [3u64, 7, 11] {
        ledger.record_completion(i);
    }
    begin_pause(&mut meta, &ledger).unwrap();
    let mut all: Vec<u64> = meta.completed_chunks.clone();
    all.extend(meta.incomplete_chunks.iter().copied());
    all.sort();
    assert_eq!(all, (0..20u64).collect::<Vec<u64>>());
    assert_eq!(meta.completed_chunks.len(), 3);
    assert_eq!(meta.incomplete_chunks.len(), 17);
}
