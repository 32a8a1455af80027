//! Work distribution for one run of the engine: the queue of chunk indices,
//! per-chunk retry counts, and the decisions each worker takes between its
//! network and disk operations.
use crate::chunks::{chunk_begin, chunk_count, chunk_last, chunk_len, chunk_range, total_chunks};
use crate::error::DownloadError;
use crate::ledger::all_in_layout;
use std::collections::HashMap;
use std::collections::VecDeque;
use vstd::prelude::*;

verus! {

broadcast use vstd::std_specs::hash::group_hash_axioms;

/// Control signal: keep running.
pub const SIGNAL_RUN: u8 = 0;

/// Control signal: pause.
pub const SIGNAL_PAUSE: u8 = 1;

/// Control signal: stop.
pub const SIGNAL_STOP: u8 = 2;

/// Control signal: cancel.
pub const SIGNAL_CANCEL: u8 = 3;

/// Default size of the worker pool.
pub const DEFAULT_THREADS: u64 = 8;

/// Attempts per lease of a chunk before it goes back to the queue.
pub const CHUNK_RETRY_LIMIT: u64 = 5;

/// Leases of one chunk after which its throughput floor is lifted.
pub const ADAPTIVE_RETRY_THRESHOLD: u32 = 3;

/// Time into an attempt before the throughput floor applies, in milliseconds.
pub const SPEED_ENFORCEMENT_DELAY_MS: u64 = 3000;

/// The throughput floor, in KiB per second.
pub const SPEED_ENFORCEMENT_THRESHOLD_KIB: u64 = 300;

/// Pause between failed attempts grows by this many milliseconds per attempt.
pub const RETRY_BACKOFF_STEP_MS: u64 = 200;

/// How long an idle worker waits before it looks at the queue again, in milliseconds.
pub const IDLE_POLL_MS: u64 = 100;

/// One chunk handed to a worker, with its inclusive byte range.
#[derive(Debug, Clone, Copy, PartialEq, Eq, Structural)]
pub struct ChunkTask {
    pub index: u64,
    pub start: u64,
    pub end: u64,
    pub expected_bytes: u64,
    /// How many times this chunk has been leased, this lease included.
    pub retry_count: u32,
    /// Whether the throughput floor applies to this lease.
    pub enforce_speed: bool,
}

/// What a worker does next at the top of its loop.
#[derive(Debug, Clone, Copy, PartialEq, Eq, Structural)]
pub enum WorkerStep {
    /// Leave the loop: a signal is set, the worker is from an older run, or
    /// every chunk is complete.
    Exit,
    /// The queue is empty but chunks are still in flight elsewhere: sleep and
    /// look again.
    Wait,
    /// Fetch this chunk.
    Fetch(ChunkTask),
}

/// The retry count a chunk has after one more lease.
pub open spec fn next_retry_count(retries: Map<u64, u32>, index: u64) -> u32 {
    let before = if retries.contains_key(index) {
        retries[index]
    } else {
        0u32
    };
    if before == u32::MAX {
        before
    } else {
        (before + 1) as u32
    }
}

/// The task describing the lease of chunk `index` as its `count`-th lease.
pub open spec fn task_for(total: u64, index: u64, count: u32) -> ChunkTask {
    ChunkTask {
        index,
        start: chunk_begin(total as int, index as int) as u64,
        end: chunk_last(total as int, index as int) as u64,
        expected_bytes: chunk_len(total as int, index as int) as u64,
        retry_count: count,
        enforce_speed: count < ADAPTIVE_RETRY_THRESHOLD,
    }
}

/// The queue and the retry counts of one run.
pub struct ChunkScheduler {
    total_size: u64,
    queue: VecDeque<u64>,
    retry_counts: HashMap<u64, u32>,
}

impl ChunkScheduler {
    pub closed spec fn spec_total_size(&self) -> u64 {
        self.total_size
    }

    /// Chunk indices waiting for a worker, front first.
    pub closed spec fn spec_queue(&self) -> Seq<u64> {
        self.queue@
    }

    /// How often each chunk has been leased in this run.
    pub closed spec fn spec_retries(&self) -> Map<u64, u32> {
        self.retry_counts@
    }

    /// Every queued index is a chunk of the file.
    pub open spec fn wf(&self) -> bool {
        all_in_layout(self.spec_total_size() as int, self.spec_queue())
    }

    /// A scheduler whose queue holds `pending` in order. Fails with a
    /// configuration error when an index is not a chunk of the file.
    pub fn new(total_size: u64, pending: &Vec<u64>) -> (r: Result<Self, DownloadError>)
        ensures
            r is Ok <==> all_in_layout(total_size as int, pending@),
            r matches Ok(s) ==> {
                &&& s.wf()
                &&& s.spec_total_size() == total_size
                &&& s.spec_queue() == pending@
                &&& s.spec_retries() == Map::<u64, u32>::empty()
            },
            r matches Err(e) ==> e is Config,
    {
        let n = total_chunks(total_size);
        let mut queue: VecDeque<u64> = VecDeque::new();
        let mut i: usize = 0;
        while i < pending.len()
            invariant
                0 <= i <= pending.len(),
                n as int == chunk_count(total_size as int),
                queue@ == pending@.subrange(0, i as int),
                all_in_layout(total_size as int, queue@),
            decreases pending.len() - i,
        {
            let x = pending[i];
            if x >= n {
                assert(pending@[i as int] == x);
                return Err(DownloadError::Config(String::from_str("chunk index outside the file")));
            }
            queue.push_back(x);
            i = i + 1;
            assert(queue@ =~= pending@.subrange(0, i as int));
        }
        assert(pending@.subrange(0, i as int) =~= pending@);
        Ok(ChunkScheduler { total_size, queue, retry_counts: HashMap::new() })
    }

    /// The step a worker of run `run_generation` takes at the top of its loop.
    /// With a signal set, or with the control block already at a newer
    /// generation, the worker exits. Otherwise it takes the front of the queue
    /// and bumps that chunk's retry count; with an empty queue it exits once
    /// `completed_count` reaches the number of chunks, and waits before that.
    pub fn lease(
        &mut self,
        signal: u8,
        current_generation: u32,
        run_generation: u32,
        completed_count: u64,
    ) -> (r: WorkerStep)
        requires
            old(self).wf(),
        ensures
            final(self).wf(),
            final(self).spec_total_size() == old(self).spec_total_size(),
            (signal != SIGNAL_RUN || current_generation != run_generation) ==> {
                &&& r is Exit
                &&& final(self).spec_queue() == old(self).spec_queue()
                &&& final(self).spec_retries() == old(self).spec_retries()
            },
            (signal == SIGNAL_RUN && current_generation == run_generation && old(
                self,
            ).spec_queue().len() == 0) ==> {
                &&& final(self).spec_queue() == old(self).spec_queue()
                &&& final(self).spec_retries() == old(self).spec_retries()
                &&& (r is Exit <==> completed_count >= chunk_count(
                    old(self).spec_total_size() as int,
                ))
                &&& (r is Wait <==> completed_count < chunk_count(
                    old(self).spec_total_size() as int,
                ))
            },
            (signal == SIGNAL_RUN && current_generation == run_generation && old(
                self,
            ).spec_queue().len() > 0) ==> {
                let index = old(self).spec_queue()[0];
                let count = next_retry_count(old(self).spec_retries(), index);
                &&& final(self).spec_queue() == old(self).spec_queue().drop_first()
                &&& final(self).spec_retries() == old(self).spec_retries().insert(index, count)
                &&& r == WorkerStep::Fetch(task_for(old(self).spec_total_size(), index, count))
            },
    {
        if signal != SIGNAL_RUN || current_generation != run_generation {
            return WorkerStep::Exit;
        }
        let ghost old_queue = self.queue@;
        match self.queue.pop_front() {
            None => {
                if completed_count >= total_chunks(self.total_size) {
                    WorkerStep::Exit
                } else {
                    WorkerStep::Wait
                }
            },
            Some(index) => {
                assert(old_queue[0] == index);
                assert(self.queue@ =~= old_queue.drop_first());
                assert(all_in_layout(self.total_size as int, self.queue@)) by {
                    assert forall|i: int| 0 <= i < self.queue@.len() implies (
                    #[trigger] self.queue@[i] as int) < chunk_count(self.total_size as int) by {
                        assert(self.queue@[i] == old_queue[i + 1]);
                    }
                }
                let before: u32 = match self.retry_counts.get(&index) {
                    Some(c) => *c,
                    None => 0,
                };
                let count = if before == u32::MAX {
                    before
                } else {
                    before + 1
                };
                self.retry_counts.insert(index, count);
                let (start, end, expected_bytes) = chunk_range(self.total_size, index);
                WorkerStep::Fetch(
                    ChunkTask {
                        index,
                        start,
                        end,
                        expected_bytes,
                        retry_count: count,
                        enforce_speed: count < ADAPTIVE_RETRY_THRESHOLD,
                    },
                )
            },
        }
    }

    /// Puts a chunk whose attempts ran out back at the tail of the queue, unless
    /// a signal is set.
    pub fn requeue(&mut self, index: u64, signal: u8)
        requires
            old(self).wf(),
            (index as int) < chunk_count(old(self).spec_total_size() as int),
        ensures
            final(self).wf(),
            final(self).spec_total_size() == old(self).spec_total_size(),
            final(self).spec_retries() == old(self).spec_retries(),
            signal == SIGNAL_RUN ==> final(self).spec_queue() == old(self).spec_queue().push(index),
            signal != SIGNAL_RUN ==> final(self).spec_queue() == old(self).spec_queue(),
    {
        if signal == SIGNAL_RUN {
            let ghost q = self.queue@;
            self.queue.push_back(index);
            assert(all_in_layout(self.total_size as int, self.queue@)) by {
                assert forall|i: int| 0 <= i < self.queue@.len() implies (
                #[trigger] self.queue@[i] as int) < chunk_count(self.total_size as int) by {
                    if i < q.len() {
                        assert(self.queue@[i] == q[i]);
                    }
                }
            }
        }
    }

    /// Number of chunks waiting in the queue.
    pub fn queued(&self) -> (r: usize)
        ensures
            r as int == self.spec_queue().len(),
    {
        self.queue.len()
    }

    /// How often chunk `index` has been leased in this run.
    pub fn retry_count(&self, index: u64) -> (r: u32)
        ensures
            self.spec_retries().contains_key(index) ==> r == self.spec_retries()[index],
            !self.spec_retries().contains_key(index) ==> r == 0,
    {
        match self.retry_counts.get(&index) {
            Some(c) => *c,
            None => 0,
        }
    }
}

/// What a worker does at the start of an attempt on its chunk.
#[derive(Debug, Clone, Copy, PartialEq, Eq, Structural)]
pub enum AttemptGate {
    /// Send the request.
    Proceed,
    /// A signal is set: stop working on the chunk.
    Halt,
    /// The control block has moved to a newer run: this worker must exit.
    Retire,
}

/// Decision before each request: halt on any signal, retire when the control
/// block has moved on to a newer run, proceed otherwise.
pub open spec fn gate_spec(signal: u8, current_generation: u32, run_generation: u32) -> AttemptGate {
    if signal != SIGNAL_RUN {
        AttemptGate::Halt
    } else if current_generation != run_generation {
        AttemptGate::Retire
    } else {
        AttemptGate::Proceed
    }
}

pub fn attempt_gate(signal: u8, current_generation: u32, run_generation: u32) -> (r: AttemptGate)
    ensures
        r == gate_spec(signal, current_generation, run_generation),
{
    if signal != SIGNAL_RUN {
        AttemptGate::Halt
    } else if current_generation != run_generation {
        AttemptGate::Retire
    } else {
        AttemptGate::Proceed
    }
}

/// The generation that a resume moves the control block to.
pub open spec fn next_generation_spec(generation: u32) -> u32 {
    if generation == u32::MAX {
        0
    } else {
        (generation + 1) as u32
    }
}

/// The generation after a resume: one more, wrapping as an atomic add does.
pub fn next_generation(generation: u32) -> (r: u32)
    ensures
        r == next_generation_spec(generation),
        r != generation,
{
    generation.wrapping_add(1)
}

/// After a resume, a worker of the previous run does no more work: at the
/// start of an attempt it retires (or halts, if a signal was set again
/// since), and between slices of a response it stops streaming.
pub proof fn lemma_resume_retires_previous_generation(
    previous: u32,
    signal: u8,
    enforce_speed: bool,
    elapsed_ms: u64,
    bytes_so_far: u64,
)
    ensures
        signal == SIGNAL_RUN ==> gate_spec(signal, next_generation_spec(previous), previous)
            == AttemptGate::Retire,
        gate_spec(signal, next_generation_spec(previous), previous) != AttemptGate::Proceed,
        !keep_streaming_spec(
            signal,
            next_generation_spec(previous),
            previous,
            enforce_speed,
            elapsed_ms,
            bytes_so_far,
        ),
{
}

/// The throughput floor: past the enforcement delay, an attempt that has
/// averaged under 300 KiB/s is too slow. With bytes `b` after `t` ms the
/// average is `(b / 1024) / (t / 1000)` KiB/s.
pub open spec fn too_slow(bytes: u64, elapsed_ms: u64) -> bool {
    &&& elapsed_ms > SPEED_ENFORCEMENT_DELAY_MS
    &&& (bytes as int) * 1000 < (SPEED_ENFORCEMENT_THRESHOLD_KIB as int) * 1024 * (elapsed_ms as int)
}

pub open spec fn keep_streaming_spec(
    signal: u8,
    current_generation: u32,
    run_generation: u32,
    enforce_speed: bool,
    elapsed_ms: u64,
    bytes_so_far: u64,
) -> bool {
    &&& signal == SIGNAL_RUN
    &&& current_generation == run_generation
    &&& !(enforce_speed && too_slow(bytes_so_far, elapsed_ms))
}

/// Whether a worker keeps a response body streaming after another slice
/// arrived: not when a signal is set, not when the run is superseded, and not
/// when the floor applies and the attempt is too slow.
pub fn keep_streaming(
    signal: u8,
    current_generation: u32,
    run_generation: u32,
    enforce_speed: bool,
    elapsed_ms: u64,
    bytes_so_far: u64,
) -> (r: bool)
    ensures
        r == keep_streaming_spec(
            signal,
            current_generation,
            run_generation,
            enforce_speed,
            elapsed_ms,
            bytes_so_far,
        ),
{
    if signal != SIGNAL_RUN || current_generation != run_generation {
        return false;
    }
    if enforce_speed && elapsed_ms > SPEED_ENFORCEMENT_DELAY_MS {
        let per_ms: u128 = (SPEED_ENFORCEMENT_THRESHOLD_KIB as u128) * 1024;
        assert((elapsed_ms as int) * per_ms <= 0xffff_ffff_ffff_ffffint * 307200) by (nonlinear_arith)
            requires elapsed_ms <= 0xffff_ffff_ffff_ffffint, per_ms == 307200;
        let lhs = bytes_so_far as u128 * 1000;
        let rhs = per_ms * (elapsed_ms as u128);
        if lhs < rhs {
            return false;
        }
    }
    true
}

/// An attempt succeeds when its stream ended without error and delivered
/// exactly the chunk's length; partial reads are failures.
pub fn attempt_succeeded(stream_ok: bool, bytes_received: u64, expected_bytes: u64) -> (r: bool)
    ensures
        r <==> (stream_ok && bytes_received == expected_bytes),
{
    stream_ok && bytes_received == expected_bytes
}

/// Whether attempt number `attempts_made + 1` may start on the current lease.
pub fn may_attempt(attempts_made: u64) -> (r: bool)
    ensures
        r <==> attempts_made < CHUNK_RETRY_LIMIT,
{
    attempts_made < CHUNK_RETRY_LIMIT
}

/// The pause after failed attempt number `attempt`, or `None` when a signal is
/// set and the worker must not sleep: a linear backoff of 200 ms per attempt.
pub fn retry_backoff_ms(attempt: u64, signal: u8) -> (r: Option<u64>)
    requires
        attempt <= CHUNK_RETRY_LIMIT,
    ensures
        signal != SIGNAL_RUN ==> r is None,
        signal == SIGNAL_RUN ==> r == Some((RETRY_BACKOFF_STEP_MS * attempt) as u64),
{
    if signal != SIGNAL_RUN {
        None
    } else {
        Some(RETRY_BACKOFF_STEP_MS * attempt)
    }
}

/// The size of the worker pool: the requested count, or the default for zero.
pub fn worker_count(threads: u64) -> (r: u64)
    ensures
        threads > 0 ==> r == threads,
        threads == 0 ==> r == DEFAULT_THREADS,
{
    if threads > 0 {
        threads
    } else {
        DEFAULT_THREADS
    }
}

} // verus!
