//! A multi-connection, resumable HTTP download engine: chunk layout, work
//! scheduling, progress accounting, lifecycle rules and integrity checks.
pub mod chunks;
pub mod commands;
pub mod engine;
pub mod error;
pub mod framing;
pub mod headers;
pub mod integrity;
pub mod ledger;
pub mod persistence;
pub mod scheduler;
pub mod shared;
pub mod state;
pub mod types;
