//! Key derivation and backup export for a password vault.
//!
//! The vault's host supplies cryptography, storage and network. This library
//! holds what is decided in between: which requests a key derivation makes
//! of the host's cryptographic provider and what their answers mean, what a
//! backup snapshot contains, which request puts it on the remote store, and
//! how the outcome is reported.

use crate::backup::{outcome_view, result_of, PipelineResult, PipelineResultView};
use crate::error::BackupError;
use crate::text::join2;
use crate::upload::UploadReceipt;
use vstd::prelude::*;

pub mod backup;
pub mod clock;
pub mod crypto;
pub mod error;
pub mod export;
pub mod handlers;
pub mod json;
pub mod models;
pub mod text;
pub mod upload;

verus! {

/// How much a log line matters.
#[derive(Debug, Clone, Copy, PartialEq, Eq, Structural)]
pub enum LogLevel {
    Info,
    Error,
}

/// A line for the log.
#[derive(Debug, PartialEq, Eq)]
pub struct LogRecord {
    pub level: LogLevel,
    pub line: String,
}

/// Mathematical value of a [`LogRecord`].
pub struct LogRecordView {
    pub level: LogLevel,
    pub line: Seq<char>,
}

impl View for LogRecord {
    type V = LogRecordView;

    open spec fn view(&self) -> LogRecordView {
        LogRecordView { level: self.level, line: self.line@ }
    }
}

/// The line that announces a scheduled backup.
pub open spec fn scheduled_start_line() -> LogRecordView {
    LogRecordView { level: LogLevel::Info, line: "Starting scheduled backup..."@ }
}

/// The line that reports how a scheduled backup ended.
pub open spec fn scheduled_line(result: PipelineResultView) -> LogRecordView {
    if result.success {
        LogRecordView {
            level: LogLevel::Info,
            line: "Scheduled backup completed: "@ + result.message,
        }
    } else {
        LogRecordView {
            level: LogLevel::Error,
            line: "Scheduled backup failed: "@ + result.message,
        }
    }
}

/// The line to log before a scheduled backup starts.
pub fn scheduled_start() -> (record: LogRecord)
    ensures
        record@ == scheduled_start_line(),
{
    LogRecord { level: LogLevel::Info, line: String::from_str("Starting scheduled backup...") }
}

/// Reports a scheduled backup once the run is over. Nobody waits for the
/// answer, so the report is a line for the log: at level `Info` after a
/// success, at level `Error` after a failure.
pub fn scheduled(outcome: &Result<UploadReceipt, BackupError>) -> (record: LogRecord)
    ensures
        record@ == scheduled_line(result_of(outcome_view(*outcome))),
{
    let result: PipelineResult = PipelineResult::from_outcome(outcome);
    if result.success {
        LogRecord {
            level: LogLevel::Info,
            line: join2("Scheduled backup completed: ", result.message.as_str()),
        }
    } else {
        LogRecord {
            level: LogLevel::Error,
            line: join2("Scheduled backup failed: ", result.message.as_str()),
        }
    }
}

} // verus!
