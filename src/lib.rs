//! Governance layer for sandboxed script execution: capability sets,
//! resource limits, sandbox policies, bytecode framing and pool bookkeeping.
use vstd::prelude::*;

pub mod capabilities;
pub mod compile;
pub mod convert;
pub mod engine;
pub mod error;
pub mod host_context;
pub mod limits;
pub mod pool;
pub mod sandbox;
pub mod table;
pub mod text;
pub mod time;
pub mod value;
pub mod version;

pub use capabilities::{Capabilities, Capability};
pub use compile::{
    compile_source, extract_bytecode_metadata, validate_bytecode, CompileOptions, CompileResult, Metadata,
};
pub use convert::ValueConversionError;
pub use engine::{EngineConfig, ExecutionState};
pub use error::{Error, Result};
pub use host_context::{HostContext, LogLevel, NoopHostContext};
pub use limits::{LimitTracker, LimitViolation, Limits};
pub use pool::{Lease, Pool, PoolConfig, PoolStats};
pub use sandbox::{NetPolicy, PathPolicy, Sandbox, SandboxConfig};
pub use time::TimeSpan;
pub use value::{ArgError, FunctionRef, Optional, Rest, ValueType};
pub use version::is_compatible_version;

verus! {

/// Version of this library.
pub const VERSION: &'static str = "0.1.0";

} // verus!
