//! The logger and metrics sinks as they are configured before boot.

use vstd::prelude::*;
use vstd::string::*;

verus! {

/// How much is logged.
#[derive(Clone, Copy, Debug, PartialEq, Eq, Structural)]
pub enum LoggerLevel {
    Error,
    Warning,
    Info,
    Debug,
}

/// Where log lines and metrics go, and how log lines look.
#[derive(Debug, PartialEq, Eq)]
pub struct LoggerConfig {
    /// The named pipe that takes the log lines.
    pub log_fifo: String,
    /// The named pipe that takes the metrics.
    pub metrics_fifo: String,
    /// How much is logged.
    pub level: LoggerLevel,
    /// Whether a line shows its level.
    pub show_level: bool,
    /// Whether a line shows where in the source it was written.
    pub show_log_origin: bool,
}

/// Why an operation on the logger failed.
#[derive(Clone, Debug, PartialEq, Eq)]
pub enum LoggerConfigError {
    /// The logger could not be set up; with the cause.
    InitializationFailure(String),
    /// The metrics could not be written; with the cause.
    FlushMetrics(String),
}

impl LoggerConfigError {
    /// The text of `message`.
    pub open spec fn message_spec(self) -> Seq<char> {
        match self {
            LoggerConfigError::InitializationFailure(cause) => cause@,
            LoggerConfigError::FlushMetrics(cause) => cause@,
        }
    }

    /// A sentence that describes the error.
    pub fn message(&self) -> (r: String)
        ensures
            r@ == self.message_spec(),
    {
        match self {
            LoggerConfigError::InitializationFailure(cause) => cause.clone(),
            LoggerConfigError::FlushMetrics(cause) => cause.clone(),
        }
    }
}

} // verus!
