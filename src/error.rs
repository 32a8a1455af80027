//! Error taxonomy of the download engine.
use vstd::prelude::*;

verus! {

/// Every failure the engine reports. Each variant carries a human-readable detail.
#[derive(Debug, Clone)]
pub enum DownloadError {
    /// HTTP transport failures and timeouts.
    Network(String),
    /// Create, seek, write or remove failures on the local disk.
    FileSystem(String),
    /// The final byte count fell short of the file size.
    Integrity { message: String },
    /// Malformed headers or URLs.
    Parse(String),
    /// Missing size, invalid parameters, commands in the wrong state.
    Config(String),
    /// A worker task failed internally.
    TaskJoin(String),
    /// The state record could not be encoded or decoded.
    Serialization(String),
    /// Resume was asked for a download without a saved state file.
    StateNotFound(String),
}

/// The label that introduces each kind of error in its rendered text.
pub open spec fn error_label(e: DownloadError) -> Seq<char> {
    match e {
        DownloadError::Network(_) => "Network error: "@,
        DownloadError::FileSystem(_) => "File system error: "@,
        DownloadError::Integrity { .. } => "Integrity check failed: "@,
        DownloadError::Parse(_) => "Parse error: "@,
        DownloadError::Config(_) => "Configuration error: "@,
        DownloadError::TaskJoin(_) => "Task join error: "@,
        DownloadError::Serialization(_) => "Serialization error: "@,
        DownloadError::StateNotFound(_) => "State not found: "@,
    }
}

/// The detail carried by an error.
pub open spec fn error_detail(e: DownloadError) -> Seq<char> {
    match e {
        DownloadError::Network(s) => s@,
        DownloadError::FileSystem(s) => s@,
        DownloadError::Integrity { message } => message@,
        DownloadError::Parse(s) => s@,
        DownloadError::Config(s) => s@,
        DownloadError::TaskJoin(s) => s@,
        DownloadError::Serialization(s) => s@,
        DownloadError::StateNotFound(s) => s@,
    }
}

impl DownloadError {
    /// The rendered text of the error: its label followed by its detail.
    pub fn message(&self) -> (r: String)
        ensures
            r@ == error_label(*self) + error_detail(*self),
    {
        let (label, detail): (&str, &String) = match self {
            DownloadError::Network(s) => ("Network error: ", s),
            DownloadError::FileSystem(s) => ("File system error: ", s),
            DownloadError::Integrity { message } => ("Integrity check failed: ", message),
            DownloadError::Parse(s) => ("Parse error: ", s),
            DownloadError::Config(s) => ("Configuration error: ", s),
            DownloadError::TaskJoin(s) => ("Task join error: ", s),
            DownloadError::Serialization(s) => ("Serialization error: ", s),
            DownloadError::StateNotFound(s) => ("State not found: ", s),
        };
        String::from_str(label).concat(detail.as_str())
    }

    /// Whether the error is of a kind that keeps its own identity under context:
    /// network and file system failures.
    pub fn keeps_kind(&self) -> (r: bool)
        ensures
            r <==> (*self is Network || *self is FileSystem),
    {
        match self {
            DownloadError::Network(_) | DownloadError::FileSystem(_) => true,
            _ => false,
        }
    }
}

/// Adds context `msg` to an error.
pub fn add_context(e: DownloadError, msg: &str) -> (r: DownloadError)
    ensures
        (e is Network || e is FileSystem) ==> r == e,
        !(e is Network || e is FileSystem) ==> (r is Config && error_detail(r) == msg@ + ": "@
            + error_label(e) + error_detail(e)),
{
    if e.keeps_kind() {
        e
    } else {
        let text = e.message();
        let detail = String::from_str(msg).concat(": ").concat(text.as_str());
        DownloadError::Config(detail)
    }
}

/// Attaching a context message to the error of a `Result`.
pub trait ErrorContext<T> {
    fn context(self, msg: &str) -> Result<T, DownloadError>;
}

impl<T> ErrorContext<T> for Result<T, DownloadError> {
    fn context(self, msg: &str) -> Result<T, DownloadError> {
        match self {
            Ok(v) => Ok(v),
            Err(e) => Err(add_context(e, msg)),
        }
    }
}

impl From<String> for DownloadError {
    fn from(err: String) -> DownloadError {
        DownloadError::Config(err)
    }
}

impl vstd::std_specs::convert::FromSpecImpl<String> for DownloadError {
    open spec fn obeys_from_spec() -> bool {
        true
    }

    open spec fn from_spec(v: String) -> DownloadError {
        DownloadError::Config(v)
    }
}

} // verus!
