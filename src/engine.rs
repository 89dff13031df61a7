//! Engine configuration: limits, capabilities, sandbox and metadata.
use vstd::prelude::*;
use crate::capabilities::{Capabilities, Capability};
use crate::error::Error;
use crate::limits::{LimitTracker, LimitViolation, Limits, TrackerState, sat_add_u64, sat_add_usize};
use crate::sandbox::{Sandbox, SandboxConfig};
use crate::time::{elapsed_since, instant_now, TimeSpan};
use crate::table::StringTable;

verus! {

/// Configuration for creating an engine.
#[derive(Debug, Clone)]
pub struct EngineConfig {
    /// Resource limits.
    pub limits: Limits,
    /// Capabilities granted to scripts.
    pub capabilities: Capabilities,
    /// Sandbox configuration.
    pub sandbox: SandboxConfig,
    /// Whether to enable debug mode.
    pub debug: bool,
    /// Custom metadata attached to the engine.
    pub metadata: StringTable,
}

impl Default for EngineConfig {
    fn default() -> (r: Self)
        ensures
            r.limits == Limits::spec_default(),
            r.capabilities@ == Capabilities::spec_safe_defaults(),
            r.sandbox.fs_read is DenyAll,
            r.sandbox.fs_write is DenyAll,
            r.sandbox.net_outgoing is DenyAll,
            r.sandbox.net_incoming is DenyAll,
            r.sandbox.env_vars is None,
            !r.debug,
            r.metadata@ == Map::<Seq<char>, Seq<char>>::empty(),
    {
        EngineConfig {
            limits: Limits::default(),
            capabilities: Capabilities::safe_defaults(),
            sandbox: SandboxConfig::default(),
            debug: false,
            metadata: StringTable::new(),
        }
    }
}

impl EngineConfig {
    /// Create the default engine configuration.
    pub fn new() -> (r: Self)
        ensures
            r.limits == Limits::spec_default(),
            r.capabilities@ == Capabilities::spec_safe_defaults(),
            !r.debug,
            r.metadata@ == Map::<Seq<char>, Seq<char>>::empty(),
    {
        Self::default()
    }

    /// Set resource limits.
    pub fn with_limits(self, limits: Limits) -> (r: Self)
        ensures
            r.limits == limits,
            r.capabilities == self.capabilities,
            r.sandbox == self.sandbox,
            r.debug == self.debug,
            r.metadata == self.metadata,
    {
        EngineConfig { limits, ..self }
    }

    /// Set capabilities.
    pub fn with_capabilities(self, capabilities: Capabilities) -> (r: Self)
        ensures
            r.capabilities == capabilities,
            r.limits == self.limits,
            r.sandbox == self.sandbox,
            r.debug == self.debug,
            r.metadata == self.metadata,
    {
        EngineConfig { capabilities, ..self }
    }

    /// Set the sandbox configuration.
    pub fn with_sandbox(self, sandbox: SandboxConfig) -> (r: Self)
        ensures
            r.sandbox == sandbox,
            r.limits == self.limits,
            r.capabilities == self.capabilities,
            r.debug == self.debug,
            r.metadata == self.metadata,
    {
        EngineConfig { sandbox, ..self }
    }

    /// Set debug mode.
    pub fn with_debug(self, debug: bool) -> (r: Self)
        ensures
            r.debug == debug,
            r.limits == self.limits,
            r.capabilities == self.capabilities,
            r.sandbox == self.sandbox,
            r.metadata == self.metadata,
    {
        EngineConfig { debug, ..self }
    }

    /// Add a metadata entry, replacing an earlier value of the same key.
    pub fn with_metadata(self, key: &str, value: &str) -> (r: Self)
        ensures
            r.metadata@ == self.metadata@.insert(key@, value@),
            r.limits == self.limits,
            r.capabilities == self.capabilities,
            r.sandbox == self.sandbox,
            r.debug == self.debug,
    {
        let mut r = self;
        r.metadata.insert(key, value);
        r
    }

    /// A strict configuration for untrusted code: strict limits, no
    /// capabilities, a locked sandbox.
    pub fn strict() -> (r: Self)
        ensures
            r.capabilities@ == Set::<crate::capabilities::Capability>::empty(),
            r.sandbox.fs_read is DenyAll,
            r.sandbox.fs_write is DenyAll,
            r.sandbox.net_outgoing is DenyAll,
            r.sandbox.net_incoming is DenyAll,
            r.sandbox.isolate_temp,
            !r.debug,
            r.metadata@ == Map::<Seq<char>, Seq<char>>::empty(),
    {
        EngineConfig {
            limits: Limits::strict(),
            capabilities: Capabilities::none(),
            sandbox: SandboxConfig::locked(),
            debug: false,
            metadata: StringTable::new(),
        }
    }

    /// A permissive configuration for trusted code: no limits, every
    /// capability, a permissive sandbox.
    pub fn permissive() -> (r: Self)
        ensures
            r.limits.timeout is None && r.limits.memory_bytes is None
                && r.limits.max_instructions is None,
            r.capabilities@ == Set::<crate::capabilities::Capability>::full(),
            r.sandbox.fs_read is AllowAll,
            r.sandbox.net_outgoing is AllowAll,
            r.sandbox.env_vars is None,
            !r.debug,
            r.metadata@ == Map::<Seq<char>, Seq<char>>::empty(),
    {
        EngineConfig {
            limits: Limits::unlimited(),
            capabilities: Capabilities::all(),
            sandbox: SandboxConfig::permissive(),
            debug: false,
            metadata: StringTable::new(),
        }
    }
}

/// The first step of every execution: a cancellation requested before the
/// call is reported, before any state is reset.
pub fn admit_execution(cancelled: bool) -> (r: Result<(), Error>)
    ensures
        r == if cancelled {
            Err::<(), Error>(Error::Cancelled)
        } else {
            Ok(())
        },
{
    if cancelled {
        Err(Error::Cancelled)
    } else {
        Ok(())
    }
}

/// Whether a buffer opens with at least 8 bytes and the bytecode magic number.
pub open spec fn runnable_header(b: Seq<u8>) -> bool {
    b.len() >= 8 && b.subrange(0, 4) == crate::compile::magic()
}

/// The header check an engine makes before running bytecode.
pub fn check_bytecode_header(bytecode: &[u8]) -> (r: Result<(), Error>)
    ensures
        (r is Ok) == runnable_header(bytecode@),
        r matches Err(e) ==> (e matches Error::InvalidBytecode(m) && m@ == "invalid bytecode header"@),
{
    if bytecode.len() < 8 {
        return Err(Error::invalid_bytecode("invalid bytecode header"));
    }
    if bytecode[0] == 0x46u8 && bytecode[1] == 0x5Au8 && bytecode[2] == 0x42u8 && bytecode[3] == 0x00u8 {
        assert(bytecode@.subrange(0, 4) =~= crate::compile::magic());
        Ok(())
    } else {
        assert(bytecode@.subrange(0, 4) != crate::compile::magic()) by {
            if bytecode@.subrange(0, 4) == crate::compile::magic() {
                assert(bytecode@.subrange(0, 4)[0] == bytecode@[0]);
                assert(bytecode@.subrange(0, 4)[1] == bytecode@[1]);
                assert(bytecode@.subrange(0, 4)[2] == bytecode@[2]);
                assert(bytecode@.subrange(0, 4)[3] == bytecode@[3]);
            }
        }
        Err(Error::invalid_bytecode("invalid bytecode header"))
    }
}

/// A limit check's outcome as an error of the library.
pub open spec fn lifted(r: std::result::Result<(), LimitViolation>) -> Result<(), Error> {
    match r {
        Ok(()) => Ok(()),
        Err(v) => Err(Error::LimitViolation(v)),
    }
}

fn lift(r: std::result::Result<(), LimitViolation>) -> (out: Result<(), Error>)
    ensures
        out == lifted(r),
{
    match r {
        Ok(()) => Ok(()),
        Err(v) => Err(Error::LimitViolation(v)),
    }
}

/// What one engine's executions run under: its capabilities, a limit
/// tracker, its sandbox and a cancellation flag.
#[derive(Debug)]
pub struct ExecutionState {
    engine_id: u64,
    capabilities: Capabilities,
    tracker: LimitTracker,
    sandbox: Sandbox,
    cancelled: bool,
    started: std::time::Instant,
}

impl ExecutionState {
    /// Engine ID for tracking.
    pub closed spec fn spec_engine_id(&self) -> u64 {
        self.engine_id
    }

    /// Capabilities available to the script.
    pub closed spec fn spec_capabilities(&self) -> Capabilities {
        self.capabilities
    }

    /// Engine ID for tracking.
    pub fn engine_id(&self) -> (r: u64)
        ensures
            r == self.spec_engine_id(),
    {
        self.engine_id
    }

    /// Capabilities available to the script.
    pub fn capabilities(&self) -> (r: Capabilities)
        ensures
            r == self.spec_capabilities(),
    {
        self.capabilities
    }
    /// The counters and limits of the current execution.
    pub closed spec fn spec_tracker(&self) -> TrackerState {
        self.tracker@
    }

    /// Whether a cancellation is pending.
    pub closed spec fn spec_cancelled(&self) -> bool {
        self.cancelled
    }

    /// The sandbox enforced.
    pub closed spec fn spec_sandbox(&self) -> Sandbox {
        self.sandbox
    }

    /// A fresh state: counters at zero, no cancellation pending.
    pub fn new(engine_id: u64, capabilities: Capabilities, limits: Limits, sandbox: Sandbox) -> (r: Self)
        ensures
            r.spec_engine_id() == engine_id,
            r.spec_capabilities() == capabilities,
            r.spec_tracker() == LimitTracker::new_state(limits),
            !r.spec_cancelled(),
            r.spec_sandbox() == sandbox,
    {
        ExecutionState {
            engine_id,
            capabilities,
            tracker: LimitTracker::new(limits),
            sandbox,
            cancelled: false,
            started: instant_now(),
        }
    }

    /// Check if a capability is granted.
    pub fn has_capability(&self, cap: Capability) -> (r: bool)
        ensures
            r == self.spec_capabilities()@.contains(cap),
    {
        self.capabilities.has(cap)
    }

    /// Require a capability, failing with `CapabilityDenied` if it is not granted.
    pub fn require_capability(&self, cap: Capability) -> (r: Result<(), Error>)
        ensures
            (r is Ok) == self.spec_capabilities()@.contains(cap),
            r matches Err(e) ==> (e matches Error::CapabilityDenied { capability } && capability@
                == cap.spec_name()),
    {
        self.capabilities.require(cap)
    }

    /// The sandbox for permission checks.
    pub fn sandbox(&self) -> (r: &Sandbox)
        ensures
            *r == self.spec_sandbox(),
    {
        &self.sandbox
    }

    /// The sandbox, for callers that hold the state exclusively.
    pub fn sandbox_mut(&mut self) -> (r: &mut Sandbox)
        ensures
            *r == old(self).spec_sandbox(),
            final(self).spec_sandbox() == *final(r),
            final(self).spec_tracker() == old(self).spec_tracker(),
            final(self).spec_cancelled() == old(self).spec_cancelled(),
    {
        &mut self.sandbox
    }

    /// Record executed instructions and check the limit.
    pub fn record_instructions(&mut self, count: u64) -> (r: Result<(), Error>)
        ensures
            final(self).spec_tracker() == (TrackerState {
                instructions: sat_add_u64(old(self).spec_tracker().instructions, count),
                ..old(self).spec_tracker()
            }),
            r == lifted(final(self).spec_tracker().limits.spec_check_instructions(
                final(self).spec_tracker().instructions,
            )),
            final(self).spec_cancelled() == old(self).spec_cancelled(),
            final(self).spec_capabilities() == old(self).spec_capabilities(),
    {
        lift(self.tracker.record_instructions(count))
    }

    /// Record memory in use and check the limit.
    pub fn record_memory(&mut self, bytes: usize) -> (r: Result<(), Error>)
        ensures
            final(self).spec_tracker() == (TrackerState { memory: bytes, ..old(self).spec_tracker() }),
            r == lifted(final(self).spec_tracker().limits.spec_check_memory(bytes)),
            final(self).spec_cancelled() == old(self).spec_cancelled(),
            final(self).spec_capabilities() == old(self).spec_capabilities(),
    {
        lift(self.tracker.record_memory(bytes))
    }

    /// Record output bytes and check the limit.
    pub fn record_output(&mut self, bytes: usize) -> (r: Result<(), Error>)
        ensures
            final(self).spec_tracker() == (TrackerState {
                output: sat_add_usize(old(self).spec_tracker().output, bytes),
                ..old(self).spec_tracker()
            }),
            r == lifted(final(self).spec_tracker().limits.spec_check_output(
                final(self).spec_tracker().output,
            )),
            final(self).spec_cancelled() == old(self).spec_cancelled(),
            final(self).spec_capabilities() == old(self).spec_capabilities(),
    {
        lift(self.tracker.record_output(bytes))
    }

    /// Record a filesystem operation and check the limit.
    pub fn record_fs_op(&mut self) -> (r: Result<(), Error>)
        ensures
            final(self).spec_tracker() == (TrackerState {
                fs_ops: sat_add_usize(old(self).spec_tracker().fs_ops, 1),
                ..old(self).spec_tracker()
            }),
            r == lifted(final(self).spec_tracker().limits.spec_check_fs_ops(
                final(self).spec_tracker().fs_ops,
            )),
            final(self).spec_cancelled() == old(self).spec_cancelled(),
            final(self).spec_capabilities() == old(self).spec_capabilities(),
    {
        lift(self.tracker.record_fs_op())
    }

    /// Record a network operation and check the limit.
    pub fn record_net_op(&mut self) -> (r: Result<(), Error>)
        ensures
            final(self).spec_tracker() == (TrackerState {
                net_ops: sat_add_usize(old(self).spec_tracker().net_ops, 1),
                ..old(self).spec_tracker()
            }),
            r == lifted(final(self).spec_tracker().limits.spec_check_net_ops(
                final(self).spec_tracker().net_ops,
            )),
            final(self).spec_cancelled() == old(self).spec_cancelled(),
            final(self).spec_capabilities() == old(self).spec_capabilities(),
    {
        lift(self.tracker.record_net_op())
    }

    /// Check the time since the execution began against the timeout.
    pub fn check_timeout(&self) -> (r: Result<(), Error>)
        ensures
            self.spec_tracker().limits.timeout is None ==> r is Ok,
            r is Err ==> exists|elapsed: TimeSpan|
                r == lifted(self.spec_tracker().limits.spec_check_time(elapsed)),
    {
        let checked = self.tracker.check_timeout();
        let r = lift(checked);
        proof {
            if checked is Err {
                let elapsed = choose|elapsed: TimeSpan| checked == self.tracker@.limits.spec_check_time(elapsed);
                assert(r == lifted(self.spec_tracker().limits.spec_check_time(elapsed)));
            }
        }
        r
    }

    /// Time since the current execution began.
    pub fn elapsed(&self) -> TimeSpan {
        elapsed_since(&self.started)
    }

    /// Whether a cancellation is pending.
    pub fn is_cancelled(&self) -> (r: bool)
        ensures
            r == self.spec_cancelled(),
    {
        self.cancelled
    }

    /// Request cancellation of the next execution.
    pub fn cancel(&mut self)
        ensures
            final(self).spec_cancelled(),
            final(self).spec_tracker() == old(self).spec_tracker(),
            final(self).spec_capabilities() == old(self).spec_capabilities(),
    {
        self.cancelled = true;
    }

    /// Prepare a new execution: a fresh tracker for `limits`, the clock
    /// restarted, and any pending cancellation cleared.
    pub fn reset(&mut self, limits: Limits)
        ensures
            final(self).spec_tracker() == LimitTracker::new_state(limits),
            !final(self).spec_cancelled(),
            final(self).spec_capabilities() == old(self).spec_capabilities(),
            final(self).spec_engine_id() == old(self).spec_engine_id(),
            final(self).spec_sandbox() == old(self).spec_sandbox(),
    {
        self.tracker = LimitTracker::new(limits);
        self.cancelled = false;
        self.started = instant_now();
    }

    /// Begin an execution: a pending cancellation is reported as
    /// `Cancelled` and leaves the state as it was; otherwise the state is
    /// reset for `limits`.
    pub fn begin(&mut self, limits: Limits) -> (r: Result<(), Error>)
        ensures
            old(self).spec_cancelled() ==> r == Err::<(), Error>(Error::Cancelled)
                && final(self).spec_tracker() == old(self).spec_tracker()
                && final(self).spec_cancelled(),
            !old(self).spec_cancelled() ==> r is Ok && final(self).spec_tracker()
                == LimitTracker::new_state(limits) && !final(self).spec_cancelled(),
            final(self).spec_capabilities() == old(self).spec_capabilities(),
    {
        admit_execution(self.cancelled)?;
        self.reset(limits);
        Ok(())
    }
}

} // verus!
