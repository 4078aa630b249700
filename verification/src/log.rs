//! Log filtering rules. Formatting and writing the records out is the
//! embedding process's business; the library owns only the decision of what
//! gets reported.

use vstd::prelude::*;

verus! {

/// Severity of the driver's verbose debug messages.
pub const SEVERITY_VERBOSE: u32 = 1;

/// Severity of the driver's informational debug messages.
pub const SEVERITY_INFO: u32 = 16;

/// Severity of the driver's warnings.
pub const SEVERITY_WARNING: u32 = 256;

/// Severity of the driver's errors.
pub const SEVERITY_ERROR: u32 = 4096;

/// Log severities, most severe first.
#[derive(Clone, Copy, PartialEq, Eq, Structural, Debug)]
pub enum LogLevel {
    Error,
    Warn,
    Info,
    Debug,
    Trace,
}

impl LogLevel {
    /// Verbosity rank: a lower rank is more severe.
    pub open spec fn ordinal_spec(self) -> int {
        match self {
            LogLevel::Error => 1,
            LogLevel::Warn => 2,
            LogLevel::Info => 3,
            LogLevel::Debug => 4,
            LogLevel::Trace => 5,
        }
    }

    /// Executable form of [`Self::ordinal_spec`].
    pub fn ordinal(&self) -> (r: u32)
        ensures
            r as int == self.ordinal_spec(),
    {
        match self {
            LogLevel::Error => 1,
            LogLevel::Warn => 2,
            LogLevel::Info => 3,
            LogLevel::Debug => 4,
            LogLevel::Trace => 5,
        }
    }
}

/// The most verbose level the process reports.
pub const LOG_LEVEL: LogLevel = LogLevel::Trace;

/// The process logger: decides which records are reported.
#[derive(Clone, Copy, PartialEq, Eq, Structural, Debug)]
pub struct Logger {}

impl Logger {
    /// A record is reported exactly when it is no more verbose than the
    /// configured level.
    pub fn enabled(&self, level: LogLevel) -> (r: bool)
        ensures
            r == (level.ordinal_spec() <= LOG_LEVEL.ordinal_spec()),
    {
        level.ordinal() <= LOG_LEVEL.ordinal()
    }
}

/// Create the process logger.
pub fn init() -> (r: Logger)
    ensures
        r == (Logger {  }),
{
    Logger {  }
}

/// Map a driver debug-message severity to a log level. Exactly the four
/// known severities are meaningful; anything else is a logic error.
pub fn severity_from_flags(severity_flags: u32) -> (r: LogLevel)
    requires
        severity_flags == SEVERITY_VERBOSE || severity_flags == SEVERITY_INFO || severity_flags
            == SEVERITY_WARNING || severity_flags == SEVERITY_ERROR,
    ensures
        severity_flags == SEVERITY_VERBOSE ==> r == LogLevel::Trace,
        severity_flags == SEVERITY_INFO ==> r == LogLevel::Info,
        severity_flags == SEVERITY_WARNING ==> r == LogLevel::Warn,
        severity_flags == SEVERITY_ERROR ==> r == LogLevel::Error,
{
    if severity_flags == SEVERITY_VERBOSE {
        LogLevel::Trace
    } else if severity_flags == SEVERITY_INFO {
        LogLevel::Info
    } else if severity_flags == SEVERITY_WARNING {
        LogLevel::Warn
    } else {
        LogLevel::Error
    }
}

} // verus!
