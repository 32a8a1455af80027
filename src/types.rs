//! Status names and the flat download record used for persistence.
use crate::state::{now, Timestamp};
use vstd::prelude::*;

verus! {

/// Status of a download as shown to users.
#[derive(Debug, Clone, Copy, PartialEq, Eq, Structural)]
pub enum DownloadStatus {
    Pending,
    Active,
    Paused,
    Stopped,
    Completed,
    Failed,
    Cancelled,
}

pub open spec fn status_text(s: DownloadStatus) -> Seq<char> {
    match s {
        DownloadStatus::Pending => "pending"@,
        DownloadStatus::Active => "active"@,
        DownloadStatus::Paused => "paused"@,
        DownloadStatus::Stopped => "stopped"@,
        DownloadStatus::Completed => "completed"@,
        DownloadStatus::Failed => "failed"@,
        DownloadStatus::Cancelled => "cancelled"@,
    }
}

impl DownloadStatus {
    /// The lower-case name of the status.
    pub fn as_str(&self) -> (r: &'static str)
        ensures
            r@ == status_text(*self),
    {
        match self {
            DownloadStatus::Pending => "pending",
            DownloadStatus::Active => "active",
            DownloadStatus::Paused => "paused",
            DownloadStatus::Stopped => "stopped",
            DownloadStatus::Completed => "completed",
            DownloadStatus::Failed => "failed",
            DownloadStatus::Cancelled => "cancelled",
        }
    }

    /// The lower-case name of the status, owned.
    pub fn to_string(&self) -> (r: String)
        ensures
            r@ == status_text(*self),
    {
        String::from_str(self.as_str())
    }
}

/// RFC 3339 text of an instant given in milliseconds since the Unix epoch;
/// `None` for instants outside the calendar's range.
pub uninterp spec fn rfc3339_text(millis: i64) -> Option<Seq<char>>;

/// Relies on chrono's DateTime::from_timestamp_millis and
/// DateTime::to_rfc3339: the text depends on the instant alone.
#[verifier::external_body]
pub(crate) fn format_rfc3339(t: Timestamp) -> (r: Option<String>)
    ensures
        match r {
            Some(s) => rfc3339_text(t.millis) == Some(s@),
            None => rfc3339_text(t.millis) is None,
        },
{
    chrono::DateTime::from_timestamp_millis(t.millis).map(|d| d.to_rfc3339())
}

/// A flat record of one download, with its timestamps as RFC 3339 text.
#[derive(Debug, Clone)]
pub struct DownloadState {
    pub id: String,
    pub url: String,
    /// Target path, without the ".part" suffix.
    pub filepath: String,
    pub total_size: u64,
    pub downloaded_bytes: u64,
    pub status: DownloadStatus,
    pub thread_count: u64,
    pub chunk_size: u64,
    pub completed_chunks: Vec<u64>,
    pub created_at: String,
    pub updated_at: String,
    pub paused_at: Option<String>,
    pub stopped_at: Option<String>,
    pub completed_at: Option<String>,
    /// Average speed in bytes per second.
    pub avg_speed: Option<u64>,
    pub error_message: Option<String>,
}

impl DownloadState {
    /// A pending record with nothing downloaded, created and updated now. The
    /// timestamps are the RFC 3339 text of the current instant, or empty when
    /// that instant has no calendar date.
    pub fn new(
        id: String,
        url: String,
        filepath: String,
        total_size: u64,
        thread_count: u64,
        chunk_size: u64,
    ) -> (r: Self)
        ensures
            r.id@ == id@,
            r.url@ == url@,
            r.filepath@ == filepath@,
            r.total_size == total_size,
            r.downloaded_bytes == 0,
            r.status == DownloadStatus::Pending,
            r.thread_count == thread_count,
            r.chunk_size == chunk_size,
            r.completed_chunks@ == Seq::<u64>::empty(),
            r.created_at@ == r.updated_at@,
            r.created_at@.len() > 0 ==> exists|t: i64| rfc3339_text(t) == Some(r.created_at@),
            r.paused_at is None,
            r.stopped_at is None,
            r.completed_at is None,
            r.avg_speed is None,
            r.error_message is None,
    {
        let stamp = match format_rfc3339(now()) {
            Some(s) => s,
            None => String::new(),
        };
        let updated = stamp.clone();
        DownloadState {
            id,
            url,
            filepath,
            total_size,
            downloaded_bytes: 0,
            status: DownloadStatus::Pending,
            thread_count,
            chunk_size,
            completed_chunks: Vec::new(),
            created_at: stamp,
            updated_at: updated,
            paused_at: None,
            stopped_at: None,
            completed_at: None,
            avg_speed: None,
            error_message: None,
        }
    }

    /// Whole-percent completion, rounded down; zero for an empty file.
    pub fn completion_percentage(&self) -> (r: u128)
        ensures
            self.total_size == 0 ==> r == 0,
            self.total_size > 0 ==> r as int == (self.downloaded_bytes as int * 100)
                / self.total_size as int,
    {
        if self.total_size == 0 {
            0
        } else {
            (self.downloaded_bytes as u128 * 100) / (self.total_size as u128)
        }
    }

    /// Path of the partial file: the target path with ".part" appended.
    pub fn part_filepath(&self) -> (r: String)
        ensures
            r@ == self.filepath@ + ".part"@,
    {
        self.filepath.clone().concat(".part")
    }

    /// Path of the state file: the target path with ".part.state" appended.
    pub fn state_filepath(&self) -> (r: String)
        ensures
            r@ == self.filepath@ + ".part.state"@,
    {
        self.filepath.clone().concat(".part.state")
    }
}

} // verus!
