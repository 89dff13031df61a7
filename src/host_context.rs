//! Log levels and the services a host offers to running scripts.
use vstd::prelude::*;

verus! {

/// Log levels for host logging, from most to least severe.
#[derive(Debug, Clone, Copy, PartialEq, Eq, PartialOrd, Ord, Hash, Structural)]
pub enum LogLevel {
    /// Error level
    Error,
    /// Warning level
    Warn,
    /// Info level
    Info,
    /// Debug level
    Debug,
    /// Trace level
    Trace,
}

impl LogLevel {
    /// Severity rank: 0 for `Error` up to 4 for `Trace`.
    pub open spec fn rank(self) -> nat {
        match self {
            LogLevel::Error => 0,
            LogLevel::Warn => 1,
            LogLevel::Info => 2,
            LogLevel::Debug => 3,
            LogLevel::Trace => 4,
        }
    }

    /// Upper-case name of the level.
    pub open spec fn spec_name(self) -> Seq<char> {
        match self {
            LogLevel::Error => "ERROR"@,
            LogLevel::Warn => "WARN"@,
            LogLevel::Info => "INFO"@,
            LogLevel::Debug => "DEBUG"@,
            LogLevel::Trace => "TRACE"@,
        }
    }

    /// Upper-case name of the level.
    pub fn as_str(&self) -> (r: &'static str)
        ensures
            r@ == self.spec_name(),
    {
        match self {
            LogLevel::Error => "ERROR",
            LogLevel::Warn => "WARN",
            LogLevel::Info => "INFO",
            LogLevel::Debug => "DEBUG",
            LogLevel::Trace => "TRACE",
        }
    }

    /// Upper-case name of the level, as an owned string.
    pub fn to_string(&self) -> (r: String)
        ensures
            r@ == self.spec_name(),
    {
        self.as_str().to_owned()
    }
}

/// Services a host offers to scripts: logging and a cancellation signal.
pub trait HostContext {
    /// Log a message at the given level.
    fn log(&self, level: LogLevel, message: &str);

    /// Whether execution should stop.
    fn should_cancel(&self) -> bool;

    /// Log at ERROR level.
    fn error(&self, message: &str) {
        self.log(LogLevel::Error, message);
    }

    /// Log at WARN level.
    fn warn(&self, message: &str) {
        self.log(LogLevel::Warn, message);
    }

    /// Log at INFO level.
    fn info(&self, message: &str) {
        self.log(LogLevel::Info, message);
    }

    /// Log at DEBUG level.
    fn debug(&self, message: &str) {
        self.log(LogLevel::Debug, message);
    }

    /// Log at TRACE level.
    fn trace(&self, message: &str) {
        self.log(LogLevel::Trace, message);
    }
}

/// A host context that discards logs and never cancels.
#[derive(Debug, Clone, Copy, Default)]
pub struct NoopHostContext;

impl HostContext for NoopHostContext {
    fn log(&self, level: LogLevel, message: &str) {
    }

    fn should_cancel(&self) -> bool {
        false
    }
}

} // verus!
