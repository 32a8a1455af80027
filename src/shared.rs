//! Messages that the browser-extension host sends to the application.
use std::collections::HashMap;
use vstd::prelude::*;

verus! {

/// A download the browser asked for.
#[derive(Debug, Clone)]
pub struct DownloadRequest {
    pub url: String,
    pub filename: Option<String>,
    pub headers: HashMap<String, String>,
    pub cookies: Option<String>,
    pub referrer: Option<String>,
}

/// One message on the local socket.
#[derive(Debug, Clone)]
pub enum IpcMessage {
    /// Start a download.
    DownloadRequest(DownloadRequest),
    /// Check that the application is listening.
    Ping,
}

} // verus!
