//! The decisions behind the command surface: which state a command moves a
//! download to, what it records, and which signal it raises for the workers.
use crate::error::DownloadError;
use crate::ledger::{all_in_layout, completed_bytes, ChunkLedger};
use crate::scheduler::{
    next_generation, next_generation_spec, SIGNAL_CANCEL, SIGNAL_PAUSE, SIGNAL_STOP,
};
use crate::state::{
    chunk_lists_cover, chunk_sets_disjoint, transition_allowed, DownloadMetadata, DownloadState,
};
use vstd::prelude::*;

verus! {

/// The two metadata records agree on everything but the progress fields
/// (byte count and the two chunk lists).
pub open spec fn same_but_progress(a: &DownloadMetadata, b: &DownloadMetadata) -> bool {
    &&& a.url@ == b.url@
    &&& a.filepath@ == b.filepath@
    &&& a.total_size == b.total_size
    &&& a.state == b.state
    &&& a.thread_count == b.thread_count
    &&& a.created_at == b.created_at
    &&& a.paused_at == b.paused_at
    &&& a.resumed_at == b.resumed_at
    &&& a.stopped_at == b.stopped_at
    &&& a.completed_at == b.completed_at
    &&& a.error_message == b.error_message
}

/// The progress of `ledger` is what `m` records: its byte count, its list of
/// completed chunks, and, of the chunks `before` still listed as incomplete,
/// those that the ledger does not hold.
pub open spec fn progress_synced(
    m: &DownloadMetadata,
    before: Seq<u64>,
    ledger: &ChunkLedger,
) -> bool {
    &&& m.downloaded_bytes == ledger.spec_downloaded()
    &&& m.completed_chunks@ == ledger.spec_completed()
    &&& m.incomplete_chunks@ == before.filter(|x: u64| !ledger.spec_completed().contains(x))
    &&& chunk_sets_disjoint(m.completed_chunks@, m.incomplete_chunks@)
    &&& m.downloaded_bytes as int == completed_bytes(m.total_size as int, m.completed_chunks@)
}

/// The ledger holds every chunk that `m` records as completed, and `m`'s two
/// lists name exactly the chunks of the file: the ledger continues `m`.
pub open spec fn ledger_continues(m: &DownloadMetadata, ledger: &ChunkLedger) -> bool {
    &&& chunk_lists_cover(m.total_size as int, m.completed_chunks@, m.incomplete_chunks@)
    &&& forall|x: u64| #[trigger]
        m.completed_chunks@.contains(x) ==> ledger.spec_completed().contains(x)
}

/// Copies the progress of a run into the metadata, as done at each point
/// where the metadata is saved: the byte count and the completed chunks come
/// from the ledger, and chunks completed since drop out of the incomplete list.
pub fn sync_progress(meta: &mut DownloadMetadata, ledger: &ChunkLedger)
    requires
        ledger.wf(),
        ledger.spec_total_size() == old(meta).total_size,
    ensures
        same_but_progress(final(meta), old(meta)),
        progress_synced(final(meta), old(meta).incomplete_chunks@, ledger),
        ledger_continues(old(meta), ledger) ==> chunk_lists_cover(
            final(meta).total_size as int,
            final(meta).completed_chunks@,
            final(meta).incomplete_chunks@,
        ),
{
    let ghost before = meta.incomplete_chunks@;
    let ghost done = ledger.spec_completed();
    let ghost pred = |x: u64| !done.contains(x);
    let mut kept: Vec<u64> = Vec::new();
    let mut i: usize = 0;
    while i < meta.incomplete_chunks.len()
        invariant
            0 <= i <= before.len(),
            meta.incomplete_chunks@ == before,
            done == ledger.spec_completed(),
            pred == (|x: u64| !done.contains(x)),
            kept@ == before.subrange(0, i as int).filter(pred),
            forall|j: int| 0 <= j < kept@.len() ==> !done.contains(#[trigger] kept@[j]),
            forall|x: u64| #[trigger]
                kept@.contains(x) <==> (before.subrange(0, i as int).contains(x) && !done.contains(
                    x,
                )),
        decreases before.len() - i,
    {
        let x = meta.incomplete_chunks[i];
        proof {
            reveal(Seq::filter);
            assert(before.subrange(0, i + 1).drop_last() =~= before.subrange(0, i as int));
            assert(before.subrange(0, i + 1).last() == x);
        }
        let ghost kept_before = kept@;
        if !ledger.is_recorded(x) {
            kept.push(x);
        }
        proof {
            let pre = before.subrange(0, i as int);
            let post = before.subrange(0, i + 1);
            assert(post =~= pre.push(x));
            assert forall|y: u64| #[trigger] kept@.contains(y) <==> (post.contains(y)
                && !done.contains(y)) by {
                if post.contains(y) {
                    let j = choose|j: int| 0 <= j < post.len() && post[j] == y;
                    if j < pre.len() {
                        assert(pre[j] == y);
                    }
                }
                if pre.contains(y) {
                    let j = choose|j: int| 0 <= j < pre.len() && pre[j] == y;
                    assert(post[j] == y);
                }
                if kept@.contains(y) {
                    let j = choose|j: int| 0 <= j < kept@.len() && kept@[j] == y;
                    if j < kept_before.len() {
                        assert(kept_before[j] == y);
                    }
                }
                if kept_before.contains(y) {
                    let j = choose|j: int| 0 <= j < kept_before.len() && kept_before[j] == y;
                    assert(kept@[j] == y);
                }
                if y == x && !done.contains(y) {
                    assert(kept@[kept@.len() - 1] == y);
                }
                if y == x {
                    assert(post[i as int] == y);
                }
            }
        }
        i = i + 1;
    }
    assert(before.subrange(0, i as int) =~= before);
    meta.downloaded_bytes = ledger.downloaded_bytes();
    meta.completed_chunks = ledger.completed_chunks();
    meta.incomplete_chunks = kept;
    proof {
        assert forall|x: u64| #[trigger] meta.incomplete_chunks@.contains(x) implies !done.contains(
            x,
        ) by {
            let j = choose|j: int|
                0 <= j < meta.incomplete_chunks@.len() && meta.incomplete_chunks@[j] == x;
            assert(!done.contains(kept@[j]));
        }
        if ledger_continues(old(meta), ledger) {
            let total = meta.total_size as int;
            assert forall|x: u64|
                #![trigger meta.completed_chunks@.contains(x)]
                #![trigger meta.incomplete_chunks@.contains(x)]
                (meta.completed_chunks@.contains(x) || meta.incomplete_chunks@.contains(x)) <==> (
                x as int) < crate::chunks::chunk_count(total) by {
                if done.contains(x) {
                    let j = choose|j: int| 0 <= j < done.len() && done[j] == x;
                    assert(all_in_layout(total, done));
                    assert((done[j] as int) < crate::chunks::chunk_count(total));
                }
                if (x as int) < crate::chunks::chunk_count(total) {
                    assert(old(meta).completed_chunks@.contains(x)
                        || old(meta).incomplete_chunks@.contains(x));
                }
            }
        }
    }
}

/// Error for a command that the current lifecycle state does not allow.
fn wrong_state(command: &str, state: DownloadState) -> (r: DownloadError)
    ensures
        r is Config,
{
    let detail = String::from_str("Cannot ").concat(command).concat(" download in state: ").concat(
        state.name(),
    );
    DownloadError::Config(detail)
}

/// Pause: allowed only for an active download. The metadata becomes paused
/// with the run's progress synced into it, and the pause signal is returned
/// for the workers. In any other state it fails with a configuration error
/// and leaves the metadata as it was.
pub fn begin_pause(meta: &mut DownloadMetadata, ledger: &ChunkLedger) -> (r: Result<
    u8,
    DownloadError,
>)
    requires
        ledger.wf(),
        ledger.spec_total_size() == old(meta).total_size,
    ensures
        r is Ok <==> old(meta).state is Active,
        r matches Err(e) ==> (e is Config && *final(meta) == *old(meta)),
        r is Ok ==> {
            &&& r == Ok::<u8, DownloadError>(SIGNAL_PAUSE)
            &&& ledger_continues(old(meta), ledger) ==> chunk_lists_cover(
                final(meta).total_size as int,
                final(meta).completed_chunks@,
                final(meta).incomplete_chunks@,
            )
            &&& final(meta).state is Paused
            &&& transition_allowed(old(meta).state, final(meta).state)
            &&& final(meta).paused_at is Some
            &&& final(meta).url@ == old(meta).url@
            &&& final(meta).filepath@ == old(meta).filepath@
            &&& final(meta).total_size == old(meta).total_size
            &&& final(meta).thread_count == old(meta).thread_count
            &&& final(meta).created_at == old(meta).created_at
            &&& progress_synced(final(meta), old(meta).incomplete_chunks@, ledger)
        },
{
    if !meta.state.is_active() {
        return Err(wrong_state("pause", meta.state));
    }
    meta.pause();
    sync_progress(meta, ledger);
    Ok(SIGNAL_PAUSE)
}

/// Stop: as pause, but the metadata becomes stopped and the stop signal is
/// returned.
pub fn begin_stop(meta: &mut DownloadMetadata, ledger: &ChunkLedger) -> (r: Result<
    u8,
    DownloadError,
>)
    requires
        ledger.wf(),
        ledger.spec_total_size() == old(meta).total_size,
    ensures
        r is Ok <==> old(meta).state is Active,
        r matches Err(e) ==> (e is Config && *final(meta) == *old(meta)),
        r is Ok ==> {
            &&& r == Ok::<u8, DownloadError>(SIGNAL_STOP)
            &&& ledger_continues(old(meta), ledger) ==> chunk_lists_cover(
                final(meta).total_size as int,
                final(meta).completed_chunks@,
                final(meta).incomplete_chunks@,
            )
            &&& final(meta).state is Stopped
            &&& transition_allowed(old(meta).state, final(meta).state)
            &&& final(meta).stopped_at is Some
            &&& final(meta).url@ == old(meta).url@
            &&& final(meta).filepath@ == old(meta).filepath@
            &&& final(meta).total_size == old(meta).total_size
            &&& final(meta).thread_count == old(meta).thread_count
            &&& final(meta).created_at == old(meta).created_at
            &&& progress_synced(final(meta), old(meta).incomplete_chunks@, ledger)
        },
{
    if !meta.state.is_active() {
        return Err(wrong_state("stop", meta.state));
    }
    meta.stop();
    sync_progress(meta, ledger);
    Ok(SIGNAL_STOP)
}

/// Resume: allowed for a paused or stopped download. The control block's
/// progress is rebuilt from the saved completed chunks, the metadata becomes
/// active, and the next generation is returned so that workers of the
/// previous run retire. Fails with a configuration error in any other state,
/// and with an integrity error when the saved chunk list is inconsistent; a
/// failure leaves the metadata as it was.
pub fn begin_resume(meta: &mut DownloadMetadata, generation: u32) -> (r: Result<
    (ChunkLedger, u32),
    DownloadError,
>)
    ensures
        (old(meta).state is Paused || old(meta).state is Stopped) ==> (r is Ok <==> crate::ledger::restorable(
            old(meta).total_size,
            old(meta).completed_chunks@,
        )),
        !(old(meta).state is Paused || old(meta).state is Stopped) ==> (r matches Err(e)
            && e is Config),
        r is Err ==> *final(meta) == *old(meta),
        r matches Err(e) ==> (e is Config || e is Integrity),
        r matches Ok((ledger, g)) ==> {
            &&& g == next_generation_spec(generation)
            &&& ledger.wf()
            &&& ledger.spec_total_size() == old(meta).total_size
            &&& ledger.spec_completed() == old(meta).completed_chunks@
            &&& final(meta).state is Active
            &&& transition_allowed(old(meta).state, final(meta).state)
            &&& final(meta).resumed_at is Some
            &&& final(meta).same_record(old(meta))
        },
{
    if !meta.state.can_resume() {
        return Err(wrong_state("resume", meta.state));
    }
    let ledger = match ChunkLedger::restore(meta.total_size, &meta.completed_chunks) {
        Ok(l) => l,
        Err(e) => {
            return Err(e);
        },
    };
    meta.resume();
    Ok((ledger, next_generation(generation)))
}

/// Cancel: allowed only for an active download. The metadata becomes
/// cancelled and the cancel signal is returned; in any other state it fails
/// with a configuration error and leaves the metadata as it was.
pub fn begin_cancel(meta: &mut DownloadMetadata) -> (r: Result<u8, DownloadError>)
    ensures
        r is Ok <==> old(meta).state is Active,
        r matches Err(e) ==> (e is Config && *final(meta) == *old(meta)),
        r is Ok ==> {
            &&& r == Ok::<u8, DownloadError>(SIGNAL_CANCEL)
            &&& final(meta).state is Cancelled
            &&& transition_allowed(old(meta).state, final(meta).state)
            &&& final(meta).same_record(old(meta))
        },
{
    if !meta.state.is_active() {
        return Err(wrong_state("cancel", meta.state));
    }
    meta.cancel();
    Ok(SIGNAL_CANCEL)
}

} // verus!
