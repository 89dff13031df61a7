//! Resource budgets and the live counters checked against them.
use vstd::prelude::*;
use vstd::string::*;
use crate::text::{decimal, decimal_string};
use crate::time::{elapsed_since, instant_now, TimeSpan, NANOS_PER_MILLI};

verus! {

/// A violation of resource limits.
#[derive(Debug, Clone, Copy, PartialEq, Eq, Structural)]
pub enum LimitViolation {
    /// Execution time exceeded.
    TimeExceeded {
        /// The configured limit.
        limit: TimeSpan,
        /// The actual time taken.
        actual: TimeSpan,
    },
    /// Memory limit exceeded.
    MemoryExceeded {
        /// The configured limit in bytes.
        limit: usize,
        /// The memory in use, in bytes.
        actual: usize,
    },
    /// Instruction limit exceeded.
    InstructionsExceeded {
        /// The configured limit.
        limit: u64,
        /// The instruction count.
        actual: u64,
    },
    /// Call stack depth exceeded.
    StackDepthExceeded {
        /// The configured limit.
        limit: usize,
        /// The depth reached.
        actual: usize,
    },
    /// Output size limit exceeded.
    OutputSizeExceeded {
        /// The configured limit in bytes.
        limit: usize,
        /// The output size in bytes.
        actual: usize,
    },
    /// Filesystem operation limit exceeded.
    FsOpsExceeded {
        /// The configured limit.
        limit: usize,
    },
    /// Network operation limit exceeded.
    NetOpsExceeded {
        /// The configured limit.
        limit: usize,
    },
}

/// A time span written in whole milliseconds, such as `1500ms`.
pub open spec fn millis_text(t: TimeSpan) -> Seq<char> {
    decimal((t.nanos / NANOS_PER_MILLI) as nat) + "ms"@
}

fn millis_string(t: TimeSpan) -> (r: String)
    ensures
        r@ == millis_text(t),
{
    let mut r = decimal_string(t.as_millis());
    r.append("ms");
    r
}

/// `a`, then the decimal digits of `n`, then `b`.
pub open spec fn framed_number(a: Seq<char>, n: nat, b: Seq<char>) -> Seq<char> {
    a + decimal(n) + b
}

pub(crate) fn framed_number_string(a: &str, n: u64, b: &str) -> (r: String)
    ensures
        r@ == framed_number(a@, n as nat, b@),
{
    let mut r = String::from_str(a);
    let digits = decimal_string(n);
    r.append(digits.as_str());
    r.append(b);
    r
}

impl LimitViolation {
    /// The text that describes the violation.
    pub open spec fn spec_text(&self) -> Seq<char> {
        match *self {
            LimitViolation::TimeExceeded { limit, actual } => "execution time limit exceeded: "@
                + millis_text(limit) + " (actual: "@ + millis_text(actual) + ")"@,
            LimitViolation::MemoryExceeded { limit, actual } => framed_number(
                "memory limit exceeded: "@,
                limit as nat,
                " bytes"@,
            ) + framed_number(" (actual: "@, actual as nat, " bytes)"@),
            LimitViolation::InstructionsExceeded { limit, actual } => framed_number(
                "instruction limit exceeded: "@,
                limit as nat,
                Seq::empty(),
            ) + framed_number(" (actual: "@, actual as nat, ")"@),
            LimitViolation::StackDepthExceeded { limit, actual } => framed_number(
                "stack depth limit exceeded: "@,
                limit as nat,
                Seq::empty(),
            ) + framed_number(" (actual: "@, actual as nat, ")"@),
            LimitViolation::OutputSizeExceeded { limit, actual } => framed_number(
                "output size limit exceeded: "@,
                limit as nat,
                " bytes"@,
            ) + framed_number(" (actual: "@, actual as nat, " bytes)"@),
            LimitViolation::FsOpsExceeded { limit } => framed_number(
                "filesystem operation limit exceeded: "@,
                limit as nat,
                " operations"@,
            ),
            LimitViolation::NetOpsExceeded { limit } => framed_number(
                "network operation limit exceeded: "@,
                limit as nat,
                " operations"@,
            ),
        }
    }

    /// The text that describes the violation.
    pub fn to_string(&self) -> (r: String)
        ensures
            r@ == self.spec_text(),
    {
        match *self {
            LimitViolation::TimeExceeded { limit, actual } => {
                let mut r = String::from_str("execution time limit exceeded: ");
                let l = millis_string(limit);
                let a = millis_string(actual);
                r.append(l.as_str());
                r.append(" (actual: ");
                r.append(a.as_str());
                r.append(")");
                r
            },
            LimitViolation::MemoryExceeded { limit, actual } => {
                let mut r = framed_number_string("memory limit exceeded: ", limit as u64, " bytes");
                let tail = framed_number_string(" (actual: ", actual as u64, " bytes)");
                r.append(tail.as_str());
                r
            },
            LimitViolation::InstructionsExceeded { limit, actual } => {
                let mut r = framed_number_string("instruction limit exceeded: ", limit, "");
                let tail = framed_number_string(" (actual: ", actual, ")");
                r.append(tail.as_str());
                proof {
                    reveal_strlit("");
                }
                r
            },
            LimitViolation::StackDepthExceeded { limit, actual } => {
                let mut r = framed_number_string("stack depth limit exceeded: ", limit as u64, "");
                let tail = framed_number_string(" (actual: ", actual as u64, ")");
                r.append(tail.as_str());
                proof {
                    reveal_strlit("");
                }
                r
            },
            LimitViolation::OutputSizeExceeded { limit, actual } => {
                let mut r = framed_number_string(
                    "output size limit exceeded: ",
                    limit as u64,
                    " bytes",
                );
                let tail = framed_number_string(" (actual: ", actual as u64, " bytes)");
                r.append(tail.as_str());
                r
            },
            LimitViolation::FsOpsExceeded { limit } => framed_number_string(
                "filesystem operation limit exceeded: ",
                limit as u64,
                " operations",
            ),
            LimitViolation::NetOpsExceeded { limit } => framed_number_string(
                "network operation limit exceeded: ",
                limit as u64,
                " operations",
            ),
        }
    }
}

/// Resource limits for script execution; `None` means unlimited.
#[derive(Debug, Clone, Copy, PartialEq, Eq, Structural)]
pub struct Limits {
    /// Maximum execution time.
    pub timeout: Option<TimeSpan>,
    /// Maximum memory usage in bytes.
    pub memory_bytes: Option<usize>,
    /// Maximum number of VM instructions.
    pub max_instructions: Option<u64>,
    /// Maximum call stack depth.
    pub max_stack_depth: Option<usize>,
    /// Maximum output size in bytes.
    pub max_output_bytes: Option<usize>,
    /// Maximum filesystem operations.
    pub max_fs_ops: Option<usize>,
    /// Maximum network operations.
    pub max_net_ops: Option<usize>,
    /// Maximum concurrent tasks.
    pub max_concurrent_tasks: Option<usize>,
}

/// Bytes in one mebibyte.
pub const MIB: usize = 1024 * 1024;

/// `a + b`, or `u64::MAX` where the sum does not fit.
pub open spec fn sat_add_u64(a: u64, b: u64) -> u64 {
    if a + b > u64::MAX {
        u64::MAX
    } else {
        (a + b) as u64
    }
}

/// `a + b`, or `usize::MAX` where the sum does not fit.
pub open spec fn sat_add_usize(a: usize, b: usize) -> usize {
    if a + b > usize::MAX {
        usize::MAX
    } else {
        (a + b) as usize
    }
}

impl Limits {
    /// 30 s, 64 MiB, 10M instructions, depth 1000, 1 MiB output, 100 file and
    /// 10 network operations, 16 tasks.
    pub open spec fn spec_default() -> Limits {
        Limits {
            timeout: Some(TimeSpan { nanos: 30_000_000_000 }),
            memory_bytes: Some(67_108_864usize),
            max_instructions: Some(10_000_000),
            max_stack_depth: Some(1000),
            max_output_bytes: Some(1_048_576usize),
            max_fs_ops: Some(100),
            max_net_ops: Some(10),
            max_concurrent_tasks: Some(16),
        }
    }

    /// Outcome of checking `elapsed` against the timeout.
    pub open spec fn spec_check_time(&self, elapsed: TimeSpan) -> std::result::Result<(), LimitViolation> {
        match self.timeout {
            Some(limit) => if elapsed.nanos > limit.nanos {
                Err(LimitViolation::TimeExceeded { limit, actual: elapsed })
            } else {
                Ok(())
            },
            None => Ok(()),
        }
    }

    /// Outcome of checking `used` bytes against the memory limit.
    pub open spec fn spec_check_memory(&self, used: usize) -> std::result::Result<(), LimitViolation> {
        match self.memory_bytes {
            Some(limit) => if used > limit {
                Err(LimitViolation::MemoryExceeded { limit, actual: used })
            } else {
                Ok(())
            },
            None => Ok(()),
        }
    }

    /// Outcome of checking an instruction count against the instruction limit.
    pub open spec fn spec_check_instructions(&self, count: u64) -> std::result::Result<(), LimitViolation> {
        match self.max_instructions {
            Some(limit) => if count > limit {
                Err(LimitViolation::InstructionsExceeded { limit, actual: count })
            } else {
                Ok(())
            },
            None => Ok(()),
        }
    }

    /// Outcome of checking a stack depth against the depth limit.
    pub open spec fn spec_check_stack_depth(&self, depth: usize) -> std::result::Result<(), LimitViolation> {
        match self.max_stack_depth {
            Some(limit) => if depth > limit {
                Err(LimitViolation::StackDepthExceeded { limit, actual: depth })
            } else {
                Ok(())
            },
            None => Ok(()),
        }
    }

    /// Outcome of checking a total output size against the output limit.
    pub open spec fn spec_check_output(&self, bytes: usize) -> std::result::Result<(), LimitViolation> {
        match self.max_output_bytes {
            Some(limit) => if bytes > limit {
                Err(LimitViolation::OutputSizeExceeded { limit, actual: bytes })
            } else {
                Ok(())
            },
            None => Ok(()),
        }
    }

    /// Outcome of checking a filesystem operation count against its limit.
    pub open spec fn spec_check_fs_ops(&self, ops: usize) -> std::result::Result<(), LimitViolation> {
        match self.max_fs_ops {
            Some(limit) => if ops > limit {
                Err(LimitViolation::FsOpsExceeded { limit })
            } else {
                Ok(())
            },
            None => Ok(()),
        }
    }

    /// Outcome of checking a network operation count against its limit.
    pub open spec fn spec_check_net_ops(&self, ops: usize) -> std::result::Result<(), LimitViolation> {
        match self.max_net_ops {
            Some(limit) => if ops > limit {
                Err(LimitViolation::NetOpsExceeded { limit })
            } else {
                Ok(())
            },
            None => Ok(()),
        }
    }

    /// Create limits with no restrictions.
    pub fn unlimited() -> (r: Self)
        ensures
            r.timeout is None && r.memory_bytes is None && r.max_instructions is None
                && r.max_stack_depth is None && r.max_output_bytes is None && r.max_fs_ops is None
                && r.max_net_ops is None && r.max_concurrent_tasks is None,
    {
        Limits {
            timeout: None,
            memory_bytes: None,
            max_instructions: None,
            max_stack_depth: None,
            max_output_bytes: None,
            max_fs_ops: None,
            max_net_ops: None,
            max_concurrent_tasks: None,
        }
    }

    /// Create strict limits for untrusted code: 5 s, 16 MiB, 1M instructions,
    /// depth 100, 64 KiB output, no file or network operations, 4 tasks.
    pub fn strict() -> (r: Self)
        ensures
            r == (Limits {
                timeout: Some(TimeSpan { nanos: 5_000_000_000 }),
                memory_bytes: Some(16_777_216usize),
                max_instructions: Some(1_000_000),
                max_stack_depth: Some(100),
                max_output_bytes: Some(65_536usize),
                max_fs_ops: Some(0),
                max_net_ops: Some(0),
                max_concurrent_tasks: Some(4),
            }),
    {
        Limits {
            timeout: Some(TimeSpan::from_secs(5)),
            memory_bytes: Some(16 * MIB),
            max_instructions: Some(1_000_000),
            max_stack_depth: Some(100),
            max_output_bytes: Some(64 * 1024),
            max_fs_ops: Some(0),
            max_net_ops: Some(0),
            max_concurrent_tasks: Some(4),
        }
    }

    /// Set the timeout.
    pub fn with_timeout(self, timeout: TimeSpan) -> (r: Self)
        ensures
            r == (Limits { timeout: Some(timeout), ..self }),
    {
        Limits { timeout: Some(timeout), ..self }
    }

    /// Set the memory limit in bytes.
    pub fn with_memory_bytes(self, bytes: usize) -> (r: Self)
        ensures
            r == (Limits { memory_bytes: Some(bytes), ..self }),
    {
        Limits { memory_bytes: Some(bytes), ..self }
    }

    /// Set the memory limit in mebibytes.
    pub fn with_memory_mb(self, mb: usize) -> (r: Self)
        requires
            mb * 1_048_576 <= usize::MAX,
        ensures
            r == (Limits { memory_bytes: Some((mb * 1_048_576) as usize), ..self }),
    {
        Limits { memory_bytes: Some(mb * MIB), ..self }
    }

    /// Set the instruction limit.
    pub fn with_max_instructions(self, count: u64) -> (r: Self)
        ensures
            r == (Limits { max_instructions: Some(count), ..self }),
    {
        Limits { max_instructions: Some(count), ..self }
    }

    /// Set the stack depth limit.
    pub fn with_max_stack_depth(self, depth: usize) -> (r: Self)
        ensures
            r == (Limits { max_stack_depth: Some(depth), ..self }),
    {
        Limits { max_stack_depth: Some(depth), ..self }
    }

    /// Set the output size limit in bytes.
    pub fn with_max_output_bytes(self, bytes: usize) -> (r: Self)
        ensures
            r == (Limits { max_output_bytes: Some(bytes), ..self }),
    {
        Limits { max_output_bytes: Some(bytes), ..self }
    }

    /// Set the filesystem operations limit.
    pub fn with_max_fs_ops(self, ops: usize) -> (r: Self)
        ensures
            r == (Limits { max_fs_ops: Some(ops), ..self }),
    {
        Limits { max_fs_ops: Some(ops), ..self }
    }

    /// Set the network operations limit.
    pub fn with_max_net_ops(self, ops: usize) -> (r: Self)
        ensures
            r == (Limits { max_net_ops: Some(ops), ..self }),
    {
        Limits { max_net_ops: Some(ops), ..self }
    }

    /// Set the concurrent tasks limit.
    pub fn with_max_concurrent_tasks(self, tasks: usize) -> (r: Self)
        ensures
            r == (Limits { max_concurrent_tasks: Some(tasks), ..self }),
    {
        Limits { max_concurrent_tasks: Some(tasks), ..self }
    }

    /// Remove the timeout limit.
    pub fn no_timeout(self) -> (r: Self)
        ensures
            r == (Limits { timeout: None, ..self }),
    {
        Limits { timeout: None, ..self }
    }

    /// Check if the time limit is exceeded.
    pub fn check_time(&self, elapsed: TimeSpan) -> (r: std::result::Result<(), LimitViolation>)
        ensures
            r == self.spec_check_time(elapsed),
    {
        match self.timeout {
            Some(limit) => if elapsed.nanos > limit.nanos {
                Err(LimitViolation::TimeExceeded { limit, actual: elapsed })
            } else {
                Ok(())
            },
            None => Ok(()),
        }
    }

    /// Check if the memory limit is exceeded.
    pub fn check_memory(&self, used: usize) -> (r: std::result::Result<(), LimitViolation>)
        ensures
            r == self.spec_check_memory(used),
    {
        match self.memory_bytes {
            Some(limit) => if used > limit {
                Err(LimitViolation::MemoryExceeded { limit, actual: used })
            } else {
                Ok(())
            },
            None => Ok(()),
        }
    }

    /// Check if the instruction limit is exceeded.
    pub fn check_instructions(&self, count: u64) -> (r: std::result::Result<(), LimitViolation>)
        ensures
            r == self.spec_check_instructions(count),
    {
        match self.max_instructions {
            Some(limit) => if count > limit {
                Err(LimitViolation::InstructionsExceeded { limit, actual: count })
            } else {
                Ok(())
            },
            None => Ok(()),
        }
    }

    /// Check if the stack depth limit is exceeded.
    pub fn check_stack_depth(&self, depth: usize) -> (r: std::result::Result<(), LimitViolation>)
        ensures
            r == self.spec_check_stack_depth(depth),
    {
        match self.max_stack_depth {
            Some(limit) => if depth > limit {
                Err(LimitViolation::StackDepthExceeded { limit, actual: depth })
            } else {
                Ok(())
            },
            None => Ok(()),
        }
    }
}

impl Default for Limits {
    fn default() -> (r: Self)
        ensures
            r == Limits::spec_default(),
    {
        Limits {
            timeout: Some(TimeSpan::from_secs(30)),
            memory_bytes: Some(64 * MIB),
            max_instructions: Some(10_000_000),
            max_stack_depth: Some(1000),
            max_output_bytes: Some(MIB),
            max_fs_ops: Some(100),
            max_net_ops: Some(10),
            max_concurrent_tasks: Some(16),
        }
    }
}

/// The counters of a [`LimitTracker`] together with its limits.
pub struct TrackerState {
    /// The limits checked against.
    pub limits: Limits,
    /// Instructions executed since the last reset.
    pub instructions: u64,
    /// Memory currently in use, in bytes.
    pub memory: usize,
    /// Current call stack depth.
    pub stack_depth: usize,
    /// Output written since the last reset, in bytes.
    pub output: usize,
    /// Filesystem operations since the last reset.
    pub fs_ops: usize,
    /// Network operations since the last reset.
    pub net_ops: usize,
}

/// Live counters for one execution, checked against a snapshot of limits.
#[derive(Debug)]
pub struct LimitTracker {
    limits: Limits,
    start_time: std::time::Instant,
    instructions_executed: u64,
    memory_used: usize,
    current_stack_depth: usize,
    output_bytes: usize,
    fs_ops: usize,
    net_ops: usize,
}

impl View for LimitTracker {
    type V = TrackerState;

    closed spec fn view(&self) -> TrackerState {
        TrackerState {
            limits: self.limits,
            instructions: self.instructions_executed,
            memory: self.memory_used,
            stack_depth: self.current_stack_depth,
            output: self.output_bytes,
            fs_ops: self.fs_ops,
            net_ops: self.net_ops,
        }
    }
}

impl LimitTracker {
    /// The state of a new tracker: `limits` and every counter at zero.
    pub open spec fn new_state(limits: Limits) -> TrackerState {
        TrackerState {
            limits,
            instructions: 0,
            memory: 0,
            stack_depth: 0,
            output: 0,
            fs_ops: 0,
            net_ops: 0,
        }
    }

    /// Create a new tracker with the given limits and all counters at zero.
    pub fn new(limits: Limits) -> (r: Self)
        ensures
            r@ == Self::new_state(limits),
    {
        LimitTracker {
            limits,
            start_time: instant_now(),
            instructions_executed: 0,
            memory_used: 0,
            current_stack_depth: 0,
            output_bytes: 0,
            fs_ops: 0,
            net_ops: 0,
        }
    }

    /// Reset the tracker for a new execution: counters to zero, clock restarted.
    pub fn reset(&mut self)
        ensures
            final(self)@.limits == old(self)@.limits,
            final(self)@.instructions == 0,
            final(self)@.memory == 0,
            final(self)@.stack_depth == 0,
            final(self)@.output == 0,
            final(self)@.fs_ops == 0,
            final(self)@.net_ops == 0,
    {
        self.start_time = instant_now();
        self.instructions_executed = 0;
        self.memory_used = 0;
        self.current_stack_depth = 0;
        self.output_bytes = 0;
        self.fs_ops = 0;
        self.net_ops = 0;
    }

    /// Check the time elapsed since the last reset against the timeout.
    pub fn check_timeout(&self) -> (r: std::result::Result<(), LimitViolation>)
        ensures
            self@.limits.timeout is None ==> r is Ok,
            r is Err ==> exists|elapsed: TimeSpan| r == self@.limits.spec_check_time(elapsed),
    {
        self.limits.check_time(elapsed_since(&self.start_time))
    }

    /// Add `count` executed instructions (saturating) and check the limit.
    pub fn record_instructions(&mut self, count: u64) -> (r: std::result::Result<(), LimitViolation>)
        ensures
            final(self)@ == (TrackerState {
                instructions: sat_add_u64(old(self)@.instructions, count),
                ..old(self)@
            }),
            r == final(self)@.limits.spec_check_instructions(final(self)@.instructions),
    {
        self.instructions_executed = self.instructions_executed.saturating_add(count);
        self.limits.check_instructions(self.instructions_executed)
    }

    /// Set the memory in use to `bytes` and check the limit.
    pub fn record_memory(&mut self, bytes: usize) -> (r: std::result::Result<(), LimitViolation>)
        ensures
            final(self)@ == (TrackerState { memory: bytes, ..old(self)@ }),
            r == final(self)@.limits.spec_check_memory(bytes),
    {
        self.memory_used = bytes;
        self.limits.check_memory(self.memory_used)
    }

    /// Enter one stack frame (saturating) and check the depth limit.
    pub fn push_stack(&mut self) -> (r: std::result::Result<(), LimitViolation>)
        ensures
            final(self)@ == (TrackerState {
                stack_depth: sat_add_usize(old(self)@.stack_depth, 1),
                ..old(self)@
            }),
            r == final(self)@.limits.spec_check_stack_depth(final(self)@.stack_depth),
    {
        self.current_stack_depth = self.current_stack_depth.saturating_add(1);
        self.limits.check_stack_depth(self.current_stack_depth)
    }

    /// Leave one stack frame; the depth never goes below zero.
    pub fn pop_stack(&mut self)
        ensures
            final(self)@ == (TrackerState {
                stack_depth: if old(self)@.stack_depth == 0 {
                    0
                } else {
                    (old(self)@.stack_depth - 1) as usize
                },
                ..old(self)@
            }),
    {
        self.current_stack_depth = self.current_stack_depth.saturating_sub(1);
    }

    /// Add `bytes` of output (saturating) and check the limit.
    pub fn record_output(&mut self, bytes: usize) -> (r: std::result::Result<(), LimitViolation>)
        ensures
            final(self)@ == (TrackerState {
                output: sat_add_usize(old(self)@.output, bytes),
                ..old(self)@
            }),
            r == final(self)@.limits.spec_check_output(final(self)@.output),
    {
        self.output_bytes = self.output_bytes.saturating_add(bytes);
        match self.limits.max_output_bytes {
            Some(limit) => if self.output_bytes > limit {
                Err(LimitViolation::OutputSizeExceeded { limit, actual: self.output_bytes })
            } else {
                Ok(())
            },
            None => Ok(()),
        }
    }

    /// Count one filesystem operation (saturating) and check the limit.
    pub fn record_fs_op(&mut self) -> (r: std::result::Result<(), LimitViolation>)
        ensures
            final(self)@ == (TrackerState { fs_ops: sat_add_usize(old(self)@.fs_ops, 1), ..old(self)@ }),
            r == final(self)@.limits.spec_check_fs_ops(final(self)@.fs_ops),
    {
        self.fs_ops = self.fs_ops.saturating_add(1);
        match self.limits.max_fs_ops {
            Some(limit) => if self.fs_ops > limit {
                Err(LimitViolation::FsOpsExceeded { limit })
            } else {
                Ok(())
            },
            None => Ok(()),
        }
    }

    /// Count one network operation (saturating) and check the limit.
    pub fn record_net_op(&mut self) -> (r: std::result::Result<(), LimitViolation>)
        ensures
            final(self)@ == (TrackerState { net_ops: sat_add_usize(old(self)@.net_ops, 1), ..old(self)@ }),
            r == final(self)@.limits.spec_check_net_ops(final(self)@.net_ops),
    {
        self.net_ops = self.net_ops.saturating_add(1);
        match self.limits.max_net_ops {
            Some(limit) => if self.net_ops > limit {
                Err(LimitViolation::NetOpsExceeded { limit })
            } else {
                Ok(())
            },
            None => Ok(()),
        }
    }

    /// Time elapsed since the tracker was created or last reset.
    pub fn elapsed(&self) -> TimeSpan {
        elapsed_since(&self.start_time)
    }

    /// Get current memory usage.
    pub fn memory_used(&self) -> (r: usize)
        ensures
            r == self@.memory,
    {
        self.memory_used
    }

    /// Get instruction count.
    pub fn instructions_executed(&self) -> (r: u64)
        ensures
            r == self@.instructions,
    {
        self.instructions_executed
    }

    /// The limits this tracker checks against.
    pub fn limits(&self) -> (r: &Limits)
        ensures
            *r == self@.limits,
    {
        &self.limits
    }
}

/// Once the instruction count exceeds its ceiling, recording more
/// instructions never brings it back under: the check keeps failing.
pub proof fn lemma_instruction_violation_persists(limits: Limits, count: u64, more: u64)
    requires
        limits.spec_check_instructions(count) is Err,
    ensures
        sat_add_u64(count, more) >= count,
        limits.spec_check_instructions(sat_add_u64(count, more)) is Err,
{
}

} // verus!
