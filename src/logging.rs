//! Logging settings.

use vstd::prelude::*;

verus! {

/// How much is logged, from nothing to everything.
#[derive(Clone, Copy, Debug, PartialEq, Eq, Structural)]
pub enum LogLevel {
    Off,
    Error,
    Warn,
    Info,
    Debug,
    Trace,
}

#[derive(Debug)]
pub struct LogConfig {
    pub level: LogLevel,
    /// File to log to; `None` logs to no file.
    pub file_path: Option<String>,
    /// In tool-server mode nothing is written to standard error.
    pub is_mcp_mode: bool,
}

impl Default for LogConfig {
    fn default() -> (r: LogConfig)
        ensures
            r.level == LogLevel::Warn,
            r.file_path is None,
            !r.is_mcp_mode,
    {
        LogConfig { level: LogLevel::Warn, file_path: None, is_mcp_mode: false }
    }
}

} // verus!
