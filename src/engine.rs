//! Start and finish of an engine run: what a start command registers, and
//! how a run that has drained its workers is concluded.
use crate::chunks::{chunk_count, total_chunks};
use crate::commands::sync_progress;
use crate::error::DownloadError;
use crate::integrity::verify_download;
use crate::ledger::{lemma_complete_means_exact, lemma_full_ledger_has_every_chunk, ChunkLedger};
use crate::scheduler::{worker_count, DEFAULT_THREADS, SIGNAL_PAUSE, SIGNAL_RUN, SIGNAL_STOP};
use crate::state::{transition_allowed, DownloadMetadata, DownloadState};
use crate::state::index_range;
use vstd::prelude::*;

verus! {

/// What a command reports back about a download run.
#[derive(Debug, Clone)]
pub struct DownloadCommandResult {
    pub id: String,
    /// One of "completed", "paused", "stopped", "cancelled".
    pub status: String,
}

/// Status text of a run that ended on a signal.
pub open spec fn signal_status(signal: u8) -> Seq<char> {
    if signal == SIGNAL_PAUSE {
        "paused"@
    } else if signal == SIGNAL_STOP {
        "stopped"@
    } else {
        "cancelled"@
    }
}

/// The engine's entry points that do not touch the network or the disk.
pub struct DownloadEngine;

impl DownloadEngine {
    /// Metadata for a new download from the size a probe reported. A missing
    /// or zero size is refused with a configuration error; so is a thread
    /// count that does not fit the metadata. Otherwise the download is active,
    /// with every chunk still to fetch and `threads` workers (the default for
    /// zero).
    pub fn plan(url: String, filepath: String, content_length: Option<u64>, threads: u64) -> (r:
        Result<DownloadMetadata, DownloadError>)
        ensures
            (content_length is None || content_length == Some(0u64)) ==> (r matches Err(e)
                && e is Config),
            r is Ok <==> (content_length matches Some(n) && n > 0 && (threads == 0 || threads
                <= u32::MAX)),
            r matches Ok(m) ==> {
                &&& m.url@ == url@
                &&& m.filepath@ == filepath@
                &&& content_length == Some(m.total_size)
                &&& m.thread_count as u64 == if threads == 0 {
                    DEFAULT_THREADS
                } else {
                    threads
                }
                &&& m.state is Active
                &&& m.downloaded_bytes == 0
                &&& m.completed_chunks@ == Seq::<u64>::empty()
                &&& m.incomplete_chunks@ == index_range(chunk_count(m.total_size as int))
                &&& m.consistent()
            },
    {
        let total_size = match content_length {
            Some(n) => n,
            None => 0,
        };
        if total_size == 0 {
            return Err(DownloadError::Config(String::from_str("File has no size!")));
        }
        let workers = worker_count(threads);
        if workers > 0xffff_ffffu64 {
            return Err(DownloadError::Config(String::from_str("thread count is too large")));
        }
        let mut meta = DownloadMetadata::new(url, filepath, total_size, workers as u32);
        meta.state = DownloadState::Active;
        Ok(meta)
    }

    /// Concludes a run once all its workers have returned. A run that ended on
    /// a signal reports "paused", "stopped" or "cancelled" and leaves the
    /// metadata alone. Otherwise the integrity gate decides: when the counted
    /// bytes reach the file size the metadata is synced, marked completed with
    /// its byte count equal to the file size, and "completed" is reported;
    /// when they fall short the metadata is marked failed and the integrity
    /// error is returned. A download that is no longer active is refused with
    /// a configuration error.
    pub fn conclude(
        download_id: String,
        final_signal: u8,
        meta: &mut DownloadMetadata,
        ledger: &ChunkLedger,
    ) -> (r: Result<DownloadCommandResult, DownloadError>)
        requires
            ledger.wf(),
            ledger.spec_total_size() == old(meta).total_size,
        ensures
            final_signal != SIGNAL_RUN ==> {
                &&& *final(meta) == *old(meta)
                &&& r matches Ok(res) && res.id@ == download_id@ && res.status@ == signal_status(
                    final_signal,
                )
            },
            final_signal == SIGNAL_RUN && !(old(meta).state is Active) ==> {
                &&& *final(meta) == *old(meta)
                &&& r matches Err(e) && e is Config
            },
            final_signal == SIGNAL_RUN && old(meta).state is Active ==> {
                &&& (r is Ok <==> ledger.spec_downloaded() >= old(meta).total_size)
                &&& r matches Ok(res) ==> {
                    &&& res.id@ == download_id@
                    &&& res.status@ == "completed"@
                    &&& final(meta).state is Completed
                    &&& transition_allowed(old(meta).state, final(meta).state)
                    &&& final(meta).completed_at is Some
                    &&& final(meta).total_size == old(meta).total_size
                    &&& ledger.spec_downloaded() == final(meta).total_size
                    &&& final(meta).downloaded_bytes == final(meta).total_size
                    &&& final(meta).completed_chunks@ == ledger.spec_completed()
                    &&& final(meta).completed_chunks@.len() == chunk_count(
                        final(meta).total_size as int,
                    )
                }
                &&& r matches Err(e) ==> {
                    &&& e is Integrity
                    &&& final(meta).state is Failed
                    &&& transition_allowed(old(meta).state, final(meta).state)
                    &&& final(meta).error_message is Some
                    &&& final(meta).same_record(old(meta))
                }
            },
    {
        if final_signal != SIGNAL_RUN {
            let status = if final_signal == SIGNAL_PAUSE {
                "paused"
            } else if final_signal == SIGNAL_STOP {
                "stopped"
            } else {
                "cancelled"
            };
            return Ok(DownloadCommandResult { id: download_id, status: String::from_str(status) });
        }
        if !meta.state.is_active() {
            return Err(DownloadError::Config(String::from_str("download is not active")));
        }
        let total_size = meta.total_size;
        let checked = verify_download(
            ledger.downloaded_bytes(),
            total_size,
            ledger.completed_count(),
            total_chunks(total_size),
        );
        match checked {
            Err(e) => {
                let text = e.message();
                meta.fail(text);
                Err(e)
            },
            Ok(()) => {
                proof {
                    lemma_complete_means_exact(ledger);
                    lemma_full_ledger_has_every_chunk(ledger);
                }
                sync_progress(meta, ledger);
                meta.complete();
                meta.downloaded_bytes = total_size;
                Ok(
                    DownloadCommandResult {
                        id: download_id,
                        status: String::from_str("completed"),
                    },
                )
            },
        }
    }
}

} // verus!
