//! Error taxonomy of the library.
use vstd::prelude::*;
use vstd::string::*;
use crate::convert::ValueConversionError;
use crate::limits::framed_number_string;
use crate::text::decimal;
use crate::time::NANOS_PER_MILLI;
use crate::limits::LimitViolation;
use crate::time::TimeSpan;

verus! {

/// Errors that can occur during host operations.
#[derive(Debug, Clone, PartialEq)]
pub enum Error {
    /// Compilation failed with the given message.
    Compilation(String),
    /// Runtime execution failed.
    Runtime(String),
    /// A resource limit was violated.
    LimitViolation(LimitViolation),
    /// Value conversion failed.
    ValueConversion(ValueConversionError),
    /// Capability was denied.
    CapabilityDenied {
        /// The capability that was denied.
        capability: String,
    },
    /// Sandbox policy violation.
    SandboxViolation(String),
    /// Engine pool exhausted.
    PoolExhausted {
        /// Number of engines in the pool.
        count: usize,
    },
    /// Pool acquire timeout.
    PoolTimeout,
    /// Pool was shut down.
    PoolShutdown,
    /// Engine was poisoned.
    EnginePoisoned(String),
    /// An I/O operation failed, with its message.
    Io(String),
    /// Invalid configuration.
    InvalidConfig(String),
    /// Version incompatibility.
    VersionMismatch {
        /// Expected version range.
        expected: String,
        /// Actual version.
        actual: String,
    },
    /// Host function error.
    HostFunction(String),
    /// Bytecode validation failed.
    InvalidBytecode(String),
    /// Timeout during execution.
    Timeout(TimeSpan),
    /// Cancelled by the caller.
    Cancelled,
    /// Internal error (should not happen).
    Internal(String),
}

/// Result type alias using [`Error`].
pub type Result<T> = std::result::Result<T, Error>;

impl Error {
    /// Pool exhaustion, pool timeout and execution timeout: worth a retry.
    pub open spec fn spec_is_transient(&self) -> bool {
        match self {
            Error::PoolExhausted { .. } | Error::PoolTimeout | Error::Timeout(_) => true,
            _ => false,
        }
    }

    /// Poisoned engine, pool shut down and internal errors: the resource is unusable.
    pub open spec fn spec_is_fatal(&self) -> bool {
        match self {
            Error::EnginePoisoned(_) | Error::PoolShutdown | Error::Internal(_) => true,
            _ => false,
        }
    }

    /// The text that describes the error.
    pub open spec fn spec_text(&self) -> Seq<char> {
        match self {
            Error::Compilation(m) => "compilation error: "@ + m@,
            Error::Runtime(m) => "runtime error: "@ + m@,
            Error::LimitViolation(v) => "limit violation: "@ + v.spec_text(),
            Error::ValueConversion(e) => "value conversion error: "@ + e.spec_text(),
            Error::CapabilityDenied { capability } => "capability denied: "@ + capability@,
            Error::SandboxViolation(m) => "sandbox violation: "@ + m@,
            Error::PoolExhausted { count } => "engine pool exhausted, all "@ + decimal(*count as nat)
                + " engines busy"@,
            Error::PoolTimeout => "timeout waiting for engine from pool"@,
            Error::PoolShutdown => "engine pool has been shut down"@,
            Error::EnginePoisoned(m) => "engine poisoned: "@ + m@,
            Error::Io(m) => "io error: "@ + m@,
            Error::InvalidConfig(m) => "invalid configuration: "@ + m@,
            Error::VersionMismatch { expected, actual } => "version incompatibility: expected "@
                + expected@ + ", got "@ + actual@,
            Error::HostFunction(m) => "host function error: "@ + m@,
            Error::InvalidBytecode(m) => "invalid bytecode: "@ + m@,
            Error::Timeout(t) => "execution timeout after "@ + decimal((t.nanos / NANOS_PER_MILLI) as nat)
                + "ms"@,
            Error::Cancelled => "execution cancelled"@,
            Error::Internal(m) => "internal error: "@ + m@,
        }
    }

    /// The text that describes the error.
    pub fn to_string(&self) -> (r: String)
        ensures
            r@ == self.spec_text(),
    {
        let (head, tail): (&str, String) = match self {
            Error::Compilation(m) => ("compilation error: ", m.clone()),
            Error::Runtime(m) => ("runtime error: ", m.clone()),
            Error::LimitViolation(v) => ("limit violation: ", v.to_string()),
            Error::ValueConversion(e) => ("value conversion error: ", e.to_string()),
            Error::CapabilityDenied { capability } => ("capability denied: ", capability.clone()),
            Error::SandboxViolation(m) => ("sandbox violation: ", m.clone()),
            Error::PoolExhausted { count } => {
                return framed_number_string(
                    "engine pool exhausted, all ",
                    *count as u64,
                    " engines busy",
                );
            },
            Error::PoolTimeout => {
                return String::from_str("timeout waiting for engine from pool");
            },
            Error::PoolShutdown => {
                return String::from_str("engine pool has been shut down");
            },
            Error::EnginePoisoned(m) => ("engine poisoned: ", m.clone()),
            Error::Io(m) => ("io error: ", m.clone()),
            Error::InvalidConfig(m) => ("invalid configuration: ", m.clone()),
            Error::VersionMismatch { expected, actual } => {
                let mut r = String::from_str("version incompatibility: expected ");
                r.append(expected.as_str());
                r.append(", got ");
                r.append(actual.as_str());
                return r;
            },
            Error::HostFunction(m) => ("host function error: ", m.clone()),
            Error::InvalidBytecode(m) => ("invalid bytecode: ", m.clone()),
            Error::Timeout(t) => {
                return framed_number_string("execution timeout after ", t.as_millis(), "ms");
            },
            Error::Cancelled => {
                return String::from_str("execution cancelled");
            },
            Error::Internal(m) => ("internal error: ", m.clone()),
        };
        let mut r = String::from_str(head);
        r.append(tail.as_str());
        r
    }

    /// Create a compilation error.
    pub fn compilation(msg: &str) -> (r: Self)
        ensures
            r matches Error::Compilation(m) && m@ == msg@,
    {
        Error::Compilation(msg.to_owned())
    }

    /// Create a runtime error.
    pub fn runtime(msg: &str) -> (r: Self)
        ensures
            r matches Error::Runtime(m) && m@ == msg@,
    {
        Error::Runtime(msg.to_owned())
    }

    /// Create a capability denied error.
    pub fn capability_denied(capability: &str) -> (r: Self)
        ensures
            r matches Error::CapabilityDenied { capability: c } && c@ == capability@,
    {
        Error::CapabilityDenied { capability: capability.to_owned() }
    }

    /// Create a sandbox violation error.
    pub fn sandbox_violation(msg: &str) -> (r: Self)
        ensures
            r matches Error::SandboxViolation(m) && m@ == msg@,
    {
        Error::SandboxViolation(msg.to_owned())
    }

    /// Create an invalid config error.
    pub fn invalid_config(msg: &str) -> (r: Self)
        ensures
            r matches Error::InvalidConfig(m) && m@ == msg@,
    {
        Error::InvalidConfig(msg.to_owned())
    }

    /// Create a version mismatch error.
    pub fn version_mismatch(expected: &str, actual: &str) -> (r: Self)
        ensures
            r matches Error::VersionMismatch { expected: e, actual: a } && e@ == expected@ && a@
                == actual@,
    {
        Error::VersionMismatch { expected: expected.to_owned(), actual: actual.to_owned() }
    }

    /// Create a host function error.
    pub fn host_function(msg: &str) -> (r: Self)
        ensures
            r matches Error::HostFunction(m) && m@ == msg@,
    {
        Error::HostFunction(msg.to_owned())
    }

    /// Create an invalid bytecode error.
    pub fn invalid_bytecode(msg: &str) -> (r: Self)
        ensures
            r matches Error::InvalidBytecode(m) && m@ == msg@,
    {
        Error::InvalidBytecode(msg.to_owned())
    }

    /// Returns true if this is a transient error that may succeed on retry.
    pub fn is_transient(&self) -> (r: bool)
        ensures
            r == self.spec_is_transient(),
    {
        match self {
            Error::PoolExhausted { .. } | Error::PoolTimeout | Error::Timeout(_) => true,
            _ => false,
        }
    }

    /// Returns true if this error indicates the resource is unusable.
    pub fn is_fatal(&self) -> (r: bool)
        ensures
            r == self.spec_is_fatal(),
    {
        match self {
            Error::EnginePoisoned(_) | Error::PoolShutdown | Error::Internal(_) => true,
            _ => false,
        }
    }
}

} // verus!
