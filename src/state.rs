//! Lifecycle of a download and the metadata that describes it.
use crate::chunks::{chunk_count, total_chunks};
use crate::ledger::completed_bytes;
use vstd::prelude::*;

verus! {

/// Lifecycle state of a download.
#[derive(Debug, Clone, Copy, PartialEq, Eq, Structural)]
pub enum DownloadState {
    /// Queued but not started.
    Pending,
    /// Workers are running.
    Active,
    /// Paused by the user; can be resumed.
    Paused,
    /// Stopped gracefully; can be resumed later.
    Stopped,
    /// Finished and verified.
    Completed,
    /// Failed with an error.
    Failed,
    /// Cancelled; files cleaned up.
    Cancelled,
}

/// The lifecycle transitions a download may take. Terminal states have none.
pub open spec fn transition_allowed(from: DownloadState, to: DownloadState) -> bool {
    match from {
        DownloadState::Pending => to is Active,
        DownloadState::Active => to is Paused || to is Stopped || to is Completed || to is Failed
            || to is Cancelled,
        DownloadState::Paused | DownloadState::Stopped => to is Active,
        _ => false,
    }
}

/// Completed, failed and cancelled downloads never change state again.
pub proof fn lemma_terminal_states_absorbing(from: DownloadState, to: DownloadState)
    requires
        from is Completed || from is Failed || from is Cancelled,
    ensures
        !transition_allowed(from, to),
{
}

impl DownloadState {
    /// Paused and stopped downloads can be resumed.
    pub fn can_resume(&self) -> (r: bool)
        ensures
            r <==> (*self is Paused || *self is Stopped),
    {
        matches!(self, DownloadState::Paused | DownloadState::Stopped)
    }

    /// Completed, failed and cancelled downloads admit no further action.
    pub fn is_terminal(&self) -> (r: bool)
        ensures
            r <==> (*self is Completed || *self is Failed || *self is Cancelled),
    {
        matches!(self, DownloadState::Completed | DownloadState::Failed | DownloadState::Cancelled)
    }

    pub fn is_active(&self) -> (r: bool)
        ensures
            r <==> *self is Active,
    {
        matches!(self, DownloadState::Active)
    }

    /// Lower-case name of the state, as used in events and saved records.
    pub fn name(&self) -> (r: &'static str)
        ensures
            r@ == state_name(*self),
    {
        match self {
            DownloadState::Pending => "pending",
            DownloadState::Active => "active",
            DownloadState::Paused => "paused",
            DownloadState::Stopped => "stopped",
            DownloadState::Completed => "completed",
            DownloadState::Failed => "failed",
            DownloadState::Cancelled => "cancelled",
        }
    }
}

pub open spec fn state_name(s: DownloadState) -> Seq<char> {
    match s {
        DownloadState::Pending => "pending"@,
        DownloadState::Active => "active"@,
        DownloadState::Paused => "paused"@,
        DownloadState::Stopped => "stopped"@,
        DownloadState::Completed => "completed"@,
        DownloadState::Failed => "failed"@,
        DownloadState::Cancelled => "cancelled"@,
    }
}

/// A point in time, in milliseconds since the Unix epoch (UTC).
#[derive(Debug, Clone, Copy, PartialEq, Eq, Structural)]
pub struct Timestamp {
    pub millis: i64,
}

/// Relies on chrono::Utc::now for the current time; nothing is promised of the
/// value.
#[verifier::external_body]
pub(crate) fn now() -> (r: Timestamp) {
    Timestamp { millis: chrono::Utc::now().timestamp_millis() }
}

/// Everything needed to describe, and to resume, one download.
#[derive(Debug, Clone)]
pub struct DownloadMetadata {
    pub url: String,
    /// Path of the partial file.
    pub filepath: String,
    pub total_size: u64,
    /// Bytes of fully received chunks.
    pub downloaded_bytes: u64,
    pub state: DownloadState,
    pub thread_count: u32,
    /// Chunks received in full.
    pub completed_chunks: Vec<u64>,
    /// Chunks still to fetch.
    pub incomplete_chunks: Vec<u64>,
    pub created_at: Timestamp,
    pub paused_at: Option<Timestamp>,
    pub resumed_at: Option<Timestamp>,
    pub stopped_at: Option<Timestamp>,
    pub completed_at: Option<Timestamp>,
    pub error_message: Option<String>,
}

/// The indices `0 .. n` in order.
pub open spec fn index_range(n: int) -> Seq<u64> {
    Seq::new(n as nat, |i: int| i as u64)
}

/// No chunk is both completed and still to fetch.
pub open spec fn chunk_sets_disjoint(completed: Seq<u64>, incomplete: Seq<u64>) -> bool {
    forall|x: u64| #[trigger] incomplete.contains(x) ==> !completed.contains(x)
}

/// Together the two chunk lists name exactly the chunks of the file.
pub open spec fn chunk_lists_cover(total: int, completed: Seq<u64>, incomplete: Seq<u64>) -> bool {
    forall|x: u64|
        #![trigger completed.contains(x)]
        #![trigger incomplete.contains(x)]
        (completed.contains(x) || incomplete.contains(x)) <==> (x as int) < chunk_count(total)
}

impl DownloadMetadata {
    /// Every field but the lifecycle state, the timestamps and the error
    /// message agrees with `other`.
    pub open spec fn same_record(&self, other: &DownloadMetadata) -> bool {
        &&& self.url@ == other.url@
        &&& self.filepath@ == other.filepath@
        &&& self.total_size == other.total_size
        &&& self.downloaded_bytes == other.downloaded_bytes
        &&& self.thread_count == other.thread_count
        &&& self.completed_chunks@ == other.completed_chunks@
        &&& self.incomplete_chunks@ == other.incomplete_chunks@
        &&& self.created_at == other.created_at
    }

    /// The chunk bookkeeping is consistent: the two chunk lists are disjoint,
    /// neither repeats an index, together they are all chunks of the file, and
    /// the byte count is the sum of the completed chunks' lengths (the file size
    /// once completed).
    pub open spec fn consistent(&self) -> bool {
        let total = self.total_size as int;
        &&& self.completed_chunks@.no_duplicates()
        &&& self.incomplete_chunks@.no_duplicates()
        &&& chunk_sets_disjoint(self.completed_chunks@, self.incomplete_chunks@)
        &&& forall|x: u64|
            (#[trigger] self.completed_chunks@.contains(x) || self.incomplete_chunks@.contains(x))
                <==> (x as int) < chunk_count(total)
        &&& if self.state is Completed {
            self.downloaded_bytes == self.total_size
        } else {
            self.downloaded_bytes as int == completed_bytes(total, self.completed_chunks@)
        }
    }

    /// Metadata of a fresh download: pending, nothing received, every chunk of
    /// the file still to fetch.
    pub fn new(url: String, filepath: String, total_size: u64, thread_count: u32) -> (r: Self)
        ensures
            r.url@ == url@,
            r.filepath@ == filepath@,
            r.total_size == total_size,
            r.thread_count == thread_count,
            r.downloaded_bytes == 0,
            r.state is Pending,
            r.completed_chunks@ == Seq::<u64>::empty(),
            r.incomplete_chunks@ == index_range(chunk_count(total_size as int)),
            r.paused_at is None,
            r.resumed_at is None,
            r.stopped_at is None,
            r.completed_at is None,
            r.error_message is None,
            r.consistent(),
    {
        let n = total_chunks(total_size);
        let mut incomplete: Vec<u64> = Vec::new();
        let mut i: u64 = 0;
        while i < n
            invariant
                i <= n,
                incomplete@ == index_range(i as int),
            decreases n - i,
        {
            incomplete.push(i);
            i = i + 1;
            assert(incomplete@ =~= index_range(i as int));
        }
        let r = DownloadMetadata {
            url,
            filepath,
            total_size,
            downloaded_bytes: 0,
            state: DownloadState::Pending,
            thread_count,
            completed_chunks: Vec::new(),
            incomplete_chunks: incomplete,
            created_at: now(),
            paused_at: None,
            resumed_at: None,
            stopped_at: None,
            completed_at: None,
            error_message: None,
        };
        proof {
            let s = index_range(n as int);
            assert forall|x: u64| #[trigger] s.contains(x) <==> (x as int) < chunk_count(
                total_size as int,
            ) by {
                if (x as int) < n {
                    assert(s[x as int] == x);
                }
            }
        }
        r
    }

    /// Whole-percent progress, rounded down; zero for an empty file.
    pub fn progress_percentage(&self) -> (r: u128)
        ensures
            self.total_size == 0 ==> r == 0,
            self.total_size > 0 ==> r as int == (self.downloaded_bytes as int * 100)
                / self.total_size as int,
    {
        if self.total_size == 0 {
            0
        } else {
            (self.downloaded_bytes as u128 * 100) / (self.total_size as u128)
        }
    }

    pub fn pause(&mut self)
        ensures
            final(self).same_record(old(self)),
            final(self).state is Paused,
            final(self).paused_at is Some,
            final(self).resumed_at == old(self).resumed_at,
            final(self).stopped_at == old(self).stopped_at,
            final(self).completed_at == old(self).completed_at,
            final(self).error_message == old(self).error_message,
    {
        self.state = DownloadState::Paused;
        self.paused_at = Some(now());
    }

    pub fn resume(&mut self)
        ensures
            final(self).same_record(old(self)),
            final(self).state is Active,
            final(self).resumed_at is Some,
            final(self).paused_at == old(self).paused_at,
            final(self).stopped_at == old(self).stopped_at,
            final(self).completed_at == old(self).completed_at,
            final(self).error_message == old(self).error_message,
    {
        self.state = DownloadState::Active;
        self.resumed_at = Some(now());
    }

    pub fn stop(&mut self)
        ensures
            final(self).same_record(old(self)),
            final(self).state is Stopped,
            final(self).stopped_at is Some,
            final(self).paused_at == old(self).paused_at,
            final(self).resumed_at == old(self).resumed_at,
            final(self).completed_at == old(self).completed_at,
            final(self).error_message == old(self).error_message,
    {
        self.state = DownloadState::Stopped;
        self.stopped_at = Some(now());
    }

    pub fn complete(&mut self)
        ensures
            final(self).same_record(old(self)),
            final(self).state is Completed,
            final(self).completed_at is Some,
            final(self).paused_at == old(self).paused_at,
            final(self).resumed_at == old(self).resumed_at,
            final(self).stopped_at == old(self).stopped_at,
            final(self).error_message == old(self).error_message,
    {
        self.state = DownloadState::Completed;
        self.completed_at = Some(now());
    }

    pub fn fail(&mut self, error: String)
        ensures
            final(self).same_record(old(self)),
            final(self).state is Failed,
            final(self).error_message == Some(error),
            final(self).paused_at == old(self).paused_at,
            final(self).resumed_at == old(self).resumed_at,
            final(self).stopped_at == old(self).stopped_at,
            final(self).completed_at == old(self).completed_at,
    {
        self.state = DownloadState::Failed;
        self.error_message = Some(error);
    }

    pub fn cancel(&mut self)
        ensures
            final(self).same_record(old(self)),
            final(self).state is Cancelled,
            final(self).paused_at == old(self).paused_at,
            final(self).resumed_at == old(self).resumed_at,
            final(self).stopped_at == old(self).stopped_at,
            final(self).completed_at == old(self).completed_at,
            final(self).error_message == old(self).error_message,
    {
        self.state = DownloadState::Cancelled;
    }
}

} // verus!
