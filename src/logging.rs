//! The driver's log messages and levels.
use vstd::prelude::*;

verus! {

pub const LOG_DISABLED: u32 = 0;
pub const LOG_CRITICAL: u32 = 1;
pub const LOG_ERROR: u32 = 2;
pub const LOG_WARN: u32 = 3;
pub const LOG_INFO: u32 = 4;
pub const LOG_DEBUG: u32 = 5;
pub const LOG_TRACE: u32 = 6;

/// The level of a log event, from the most to the least severe.
#[derive(Debug, Copy, Clone, PartialEq, Eq, Hash, Structural)]
pub enum LogLevel {
    Error,
    Warn,
    Info,
    Debug,
    Trace,
}

/// The level an event of the driver's severity code is logged at: none for
/// a disabled log, errors for critical messages and for any code the
/// driver does not define.
pub open spec fn level_of_severity(severity: u32) -> Option<LogLevel> {
    if severity == LOG_DISABLED {
        None
    } else if severity == LOG_WARN {
        Some(LogLevel::Warn)
    } else if severity == LOG_INFO {
        Some(LogLevel::Info)
    } else if severity == LOG_DEBUG {
        Some(LogLevel::Debug)
    } else if severity == LOG_TRACE {
        Some(LogLevel::Trace)
    } else {
        Some(LogLevel::Error)
    }
}

/// The driver's code of each level.
pub open spec fn severity_of_level(level: LogLevel) -> u32 {
    match level {
        LogLevel::Error => LOG_ERROR,
        LogLevel::Warn => LOG_WARN,
        LogLevel::Info => LOG_INFO,
        LogLevel::Debug => LOG_DEBUG,
        LogLevel::Trace => LOG_TRACE,
    }
}

/// The level an event of the driver's severity code is logged at.
pub fn log_level_to_trace_level(severity: u32) -> (r: Option<LogLevel>)
    ensures
        r == level_of_severity(severity),
{
    if severity == LOG_DISABLED {
        None
    } else if severity == LOG_WARN {
        Some(LogLevel::Warn)
    } else if severity == LOG_INFO {
        Some(LogLevel::Info)
    } else if severity == LOG_DEBUG {
        Some(LogLevel::Debug)
    } else if severity == LOG_TRACE {
        Some(LogLevel::Trace)
    } else {
        Some(LogLevel::Error)
    }
}

/// The driver's code of a level.
pub fn trace_level_to_log_level(level: LogLevel) -> (r: u32)
    ensures
        r == severity_of_level(level),
{
    match level {
        LogLevel::Error => LOG_ERROR,
        LogLevel::Warn => LOG_WARN,
        LogLevel::Info => LOG_INFO,
        LogLevel::Debug => LOG_DEBUG,
        LogLevel::Trace => LOG_TRACE,
    }
}

/// The driver's code for the most verbose level to log; no level disables
/// the log.
pub fn log_level_code(level: Option<LogLevel>) -> (r: u32)
    ensures
        r == match level {
            Some(l) => severity_of_level(l),
            None => LOG_DISABLED,
        },
{
    match level {
        Some(l) => trace_level_to_log_level(l),
        None => LOG_DISABLED,
    }
}

/// Every level reads back from its own code.
pub proof fn lemma_level_round_trip(level: LogLevel)
    ensures
        level_of_severity(severity_of_level(level)) == Some(level),
{
}

/// A message the driver logged.
#[derive(Debug, Clone)]
pub struct LogMessage {
    /// The driver's severity code.
    pub severity: u32,
    /// The text of the message.
    pub message: String,
    /// The source file that logged it.
    pub file: String,
    /// The line of the source file, as the driver reports it.
    pub line: i32,
    /// The function that logged it.
    pub function: String,
    /// When it was logged, in milliseconds since the Unix epoch.
    pub time_ms: u64,
}

impl LogMessage {
    /// The text of the message.
    pub fn message(&self) -> (r: &str)
        ensures
            r@ == self.message@,
    {
        self.message.as_str()
    }

    /// The source file that logged the message.
    pub fn file(&self) -> (r: &str)
        ensures
            r@ == self.file@,
    {
        self.file.as_str()
    }

    /// The function that logged the message.
    pub fn function(&self) -> (r: &str)
        ensures
            r@ == self.function@,
    {
        self.function.as_str()
    }

    /// The level the message is logged at.
    pub fn level(&self) -> (r: Option<LogLevel>)
        ensures
            r == level_of_severity(self.severity),
    {
        log_level_to_trace_level(self.severity)
    }

    /// The line of the source file, `None` if the driver reports a negative
    /// one.
    pub fn line(&self) -> (r: Option<u32>)
        ensures
            r == (if self.line < 0 { None } else { Some(self.line as u32) }),
    {
        if self.line < 0 {
            None
        } else {
            Some(self.line as u32)
        }
    }

    /// When the message was logged, in milliseconds since the Unix epoch.
    pub fn timestamp(&self) -> (r: u64)
        ensures
            r == self.time_ms,
    {
        self.time_ms
    }
}

} // verus!
