//! Engine pool configuration and usage statistics.
use vstd::prelude::*;
use crate::capabilities::Capabilities;
use crate::engine::EngineConfig;
use crate::limits::Limits;
use crate::sandbox::SandboxConfig;
use crate::error::Error;
use crate::time::{elapsed_since, instant_now, TimeSpan};
use crossbeam_channel::{Receiver, Sender};
use std::sync::atomic::{AtomicBool, AtomicU64, AtomicUsize, Ordering};
use std::sync::Arc;

verus! {

/// Configuration for an engine pool.
#[derive(Debug, Clone)]
pub struct PoolConfig {
    /// Number of engines in the pool.
    pub size: usize,
    /// Engine configuration template.
    pub engine_config: EngineConfig,
    /// Maximum time to wait for an engine.
    pub acquire_timeout: TimeSpan,
    /// Whether to create engines lazily.
    pub lazy_init: bool,
    /// Maximum idle time before an engine is recycled.
    pub max_idle_time: Option<TimeSpan>,
}

impl PoolConfig {
    /// A pool of `size` engines (at least one) with the default engine
    /// configuration, a 30 s acquire timeout, eager creation and a 300 s
    /// idle time.
    pub fn new(size: usize) -> (r: Self)
        ensures
            r.size == if size < 1 { 1 } else { size },
            r.engine_config.limits == Limits::spec_default(),
            r.engine_config.capabilities@ == Capabilities::spec_safe_defaults(),
            r.acquire_timeout.nanos == 30_000_000_000,
            !r.lazy_init,
            r.max_idle_time == Some(TimeSpan { nanos: 300_000_000_000 }),
    {
        PoolConfig {
            size: if size < 1 { 1 } else { size },
            engine_config: EngineConfig::default(),
            acquire_timeout: TimeSpan::from_secs(30),
            lazy_init: false,
            max_idle_time: Some(TimeSpan::from_secs(300)),
        }
    }

    /// Set the engine configuration.
    pub fn with_engine_config(self, config: EngineConfig) -> (r: Self)
        ensures
            r.engine_config == config,
            r.size == self.size,
            r.acquire_timeout == self.acquire_timeout,
            r.lazy_init == self.lazy_init,
            r.max_idle_time == self.max_idle_time,
    {
        PoolConfig { engine_config: config, ..self }
    }

    /// Set resource limits for all engines.
    pub fn with_limits(self, limits: Limits) -> (r: Self)
        ensures
            r.engine_config.limits == limits,
            r.engine_config.capabilities == self.engine_config.capabilities,
            r.engine_config.sandbox == self.engine_config.sandbox,
            r.engine_config.debug == self.engine_config.debug,
            r.size == self.size,
            r.acquire_timeout == self.acquire_timeout,
            r.lazy_init == self.lazy_init,
            r.max_idle_time == self.max_idle_time,
    {
        let mut r = self;
        r.engine_config.limits = limits;
        r
    }

    /// Set capabilities for all engines.
    pub fn with_capabilities(self, capabilities: Capabilities) -> (r: Self)
        ensures
            r.engine_config.capabilities == capabilities,
            r.engine_config.limits == self.engine_config.limits,
            r.engine_config.sandbox == self.engine_config.sandbox,
            r.engine_config.debug == self.engine_config.debug,
            r.size == self.size,
            r.acquire_timeout == self.acquire_timeout,
            r.lazy_init == self.lazy_init,
            r.max_idle_time == self.max_idle_time,
    {
        let mut r = self;
        r.engine_config.capabilities = capabilities;
        r
    }

    /// Set the sandbox configuration for all engines.
    pub fn with_sandbox(self, sandbox: SandboxConfig) -> (r: Self)
        ensures
            r.engine_config.sandbox == sandbox,
            r.engine_config.limits == self.engine_config.limits,
            r.engine_config.capabilities == self.engine_config.capabilities,
            r.engine_config.debug == self.engine_config.debug,
            r.size == self.size,
            r.acquire_timeout == self.acquire_timeout,
            r.lazy_init == self.lazy_init,
            r.max_idle_time == self.max_idle_time,
    {
        let mut r = self;
        r.engine_config.sandbox = sandbox;
        r
    }

    /// Set the acquire timeout.
    pub fn with_acquire_timeout(self, timeout: TimeSpan) -> (r: Self)
        ensures
            r.acquire_timeout == timeout,
            r.size == self.size,
            r.engine_config == self.engine_config,
            r.lazy_init == self.lazy_init,
            r.max_idle_time == self.max_idle_time,
    {
        PoolConfig { acquire_timeout: timeout, ..self }
    }

    /// Enable or disable lazy creation of engines.
    pub fn with_lazy_init(self, lazy: bool) -> (r: Self)
        ensures
            r.lazy_init == lazy,
            r.size == self.size,
            r.engine_config == self.engine_config,
            r.acquire_timeout == self.acquire_timeout,
            r.max_idle_time == self.max_idle_time,
    {
        PoolConfig { lazy_init: lazy, ..self }
    }

    /// Set the maximum idle time.
    pub fn with_max_idle_time(self, time: Option<TimeSpan>) -> (r: Self)
        ensures
            r.max_idle_time == time,
            r.size == self.size,
            r.engine_config == self.engine_config,
            r.acquire_timeout == self.acquire_timeout,
            r.lazy_init == self.lazy_init,
    {
        PoolConfig { max_idle_time: time, ..self }
    }
}

/// Statistics about pool usage.
#[derive(Debug, Clone, Copy, PartialEq, Eq, Structural)]
pub struct PoolStats {
    /// Total number of engines.
    pub total: usize,
    /// Number of available engines.
    pub available: usize,
    /// Number of engines currently in use.
    pub in_use: usize,
    /// Total number of acquisitions.
    pub acquisitions: u64,
    /// Total number of releases.
    pub releases: u64,
    /// Total number of timeouts.
    pub timeouts: u64,
    /// Total number of checkouts returned.
    pub executions: u64,
    /// Total time engines spent checked out.
    pub total_execution_time: TimeSpan,
}

impl Default for PoolStats {
    fn default() -> (r: Self)
        ensures
            r == (PoolStats {
                total: 0,
                available: 0,
                in_use: 0,
                acquisitions: 0,
                releases: 0,
                timeouts: 0,
                executions: 0,
                total_execution_time: TimeSpan { nanos: 0 },
            }),
    {
        PoolStats {
            total: 0,
            available: 0,
            in_use: 0,
            acquisitions: 0,
            releases: 0,
            timeouts: 0,
            executions: 0,
            total_execution_time: TimeSpan::zero(),
        }
    }
}

/// Engines created and not sitting in the channel: `created - available`,
/// and zero where that would be negative.
pub open spec fn in_use_of(created: usize, available: usize) -> usize {
    if created >= available {
        (created - available) as usize
    } else {
        0
    }
}

impl PoolStats {
    /// Counts of a pool of `total` engines with `available` of them idle and
    /// `created` created so far, together with its cumulative counters.
    pub fn snapshot(
        total: usize,
        available: usize,
        created: usize,
        acquisitions: u64,
        releases: u64,
        timeouts: u64,
        executions: u64,
        total_execution_time: TimeSpan,
    ) -> (r: PoolStats)
        ensures
            r == (PoolStats {
                total,
                available,
                in_use: in_use_of(created, available),
                acquisitions,
                releases,
                timeouts,
                executions,
                total_execution_time,
            }),
    {
        PoolStats {
            total,
            available,
            in_use: created.saturating_sub(available),
            acquisitions,
            releases,
            timeouts,
            executions,
            total_execution_time,
        }
    }

    /// Average checkout time: the total divided by the number of returns,
    /// or zero when nothing was returned.
    pub fn avg_execution_time(&self) -> (r: TimeSpan)
        ensures
            r.nanos == if self.executions == 0 {
                0
            } else {
                self.total_execution_time.nanos / self.executions
            },
    {
        if self.executions == 0 {
            TimeSpan::zero()
        } else {
            TimeSpan::from_nanos(self.total_execution_time.nanos / self.executions)
        }
    }
}

/// Returning one engine to the channel raises `available` by one and lowers
/// `in_use` by one.
pub proof fn lemma_return_moves_one_engine(created: usize, available: usize)
    requires
        available < created,
    ensures
        in_use_of(created, (available + 1) as usize) == in_use_of(created, available) - 1,
{
}

// ---------------------------------------------------------------------------
// Checkout rules
// ---------------------------------------------------------------------------

/// Largest number of slots a pool may have.
pub const MAX_POOL_SIZE: usize = 65536;

/// The first step of every checkout: a pool that was shut down refuses it,
/// whatever engines sit idle.
pub fn admit_checkout(shut_down: bool) -> (r: Result<(), Error>)
    ensures
        r == if shut_down {
            Err::<(), Error>(Error::PoolShutdown)
        } else {
            Ok(())
        },
{
    if shut_down {
        Err(Error::PoolShutdown)
    } else {
        Ok(())
    }
}

/// Whether a checkout that found no idle engine may create one: only in a
/// lazy pool that has created fewer engines than its size.
pub fn may_create(lazy: bool, created: usize, size: usize) -> (r: bool)
    ensures
        r == (lazy && created < size),
{
    lazy && created < size
}

/// The failure of a checkout that found no idle engine and could not create
/// one: a timeout for a blocking checkout, exhaustion naming the pool size
/// for a non-blocking one.
pub fn checkout_failure(blocking: bool, size: usize) -> (r: Error)
    ensures
        r == if blocking {
            Error::PoolTimeout
        } else {
            Error::PoolExhausted { count: size }
        },
{
    if blocking {
        Error::PoolTimeout
    } else {
        Error::PoolExhausted { count: size }
    }
}

// ---------------------------------------------------------------------------
// The pool
// ---------------------------------------------------------------------------

#[verifier::external_type_specification]
#[verifier::external_body]
#[verifier::reject_recursive_types(T)]
pub struct ExSender<T>(Sender<T>);

#[verifier::external_type_specification]
#[verifier::external_body]
#[verifier::reject_recursive_types(T)]
pub struct ExReceiver<T>(Receiver<T>);

/// Relies on crossbeam_channel::bounded: a channel that holds at most `cap`
/// items; it panics only where the buffer cannot be allocated.
#[verifier::external_body]
fn bounded_channel<T>(cap: usize) -> (Sender<T>, Receiver<T>)
    requires
        1 <= cap <= MAX_POOL_SIZE,
{
    crossbeam_channel::bounded(cap)
}

/// Relies on Sender::try_send: whether the item was queued without blocking.
#[verifier::external_body]
fn send_now<T>(tx: &Sender<T>, item: T) -> bool {
    tx.try_send(item).is_ok()
}

/// Relies on Receiver::recv_timeout: an item received before `nanos`
/// nanoseconds pass, or `None`.
#[verifier::external_body]
fn receive_within<T>(rx: &Receiver<T>, nanos: u64) -> Option<T> {
    rx.recv_timeout(std::time::Duration::from_nanos(nanos)).ok()
}

/// What a non-blocking receive found.
pub enum Received<T> {
    /// An item was waiting.
    Item(T),
    /// Nothing was waiting.
    Empty,
    /// Every sender is gone.
    Disconnected,
}

/// Relies on Receiver::try_recv: an item that was waiting, or why there was none.
#[verifier::external_body]
fn receive_now<T>(rx: &Receiver<T>) -> Received<T> {
    match rx.try_recv() {
        Ok(item) => Received::Item(item),
        Err(crossbeam_channel::TryRecvError::Empty) => Received::Empty,
        Err(crossbeam_channel::TryRecvError::Disconnected) => Received::Disconnected,
    }
}

/// Relies on Receiver::len: the number of items waiting at the moment of the call.
#[verifier::external_body]
fn waiting<T>(rx: &Receiver<T>) -> usize {
    rx.len()
}

/// Relies on Clone for crossbeam_channel::Sender: another handle to the same channel.
#[verifier::external_body]
fn another_sender<T>(tx: &Sender<T>) -> Sender<T> {
    tx.clone()
}

/// Relies on Clone for std::sync::Arc: another handle to the same value.
#[verifier::external_body]
fn share<T>(a: &Arc<T>) -> (r: Arc<T>)
    ensures
        *r == *a,
{
    Arc::clone(a)
}

/// Cumulative counters shared by a pool and its leases.
pub struct PoolCounters {
    acquisitions: AtomicU64,
    releases: AtomicU64,
    timeouts: AtomicU64,
    executions: AtomicU64,
    execution_time_nanos: AtomicU64,
}

impl PoolCounters {
    /// Counters at zero.
    pub fn new() -> PoolCounters {
        PoolCounters {
            acquisitions: AtomicU64::new(0),
            releases: AtomicU64::new(0),
            timeouts: AtomicU64::new(0),
            executions: AtomicU64::new(0),
            execution_time_nanos: AtomicU64::new(0),
        }
    }

    /// Count one returned checkout and the time it was held.
    pub fn add_execution_time(&self, held: TimeSpan) {
        self.executions.fetch_add(1, Ordering::Relaxed);
        self.execution_time_nanos.fetch_add(held.nanos, Ordering::Relaxed);
    }
}

/// An item of a pool with its bookkeeping.
pub struct Slot<T> {
    item: T,
    created_at: std::time::Instant,
    last_used: std::time::Instant,
    use_count: u64,
}

impl<T> Slot<T> {
    /// A slot for a freshly created item.
    pub fn new(item: T) -> (r: Slot<T>)
        ensures
            r.spec_item() == item,
            r.spec_use_count() == 0,
    {
        let now = instant_now();
        Slot { item, created_at: now, last_used: now, use_count: 0 }
    }

    /// The pooled item.
    pub closed spec fn spec_item(&self) -> T {
        self.item
    }

    /// The pooled item.
    pub fn item(&self) -> (r: &T)
        ensures
            *r == self.spec_item(),
    {
        &self.item
    }

    /// How many checkouts of this slot were returned.
    pub closed spec fn spec_use_count(&self) -> u64 {
        self.use_count
    }

    /// How many checkouts of this slot were returned.
    pub fn use_count(&self) -> (r: u64)
        ensures
            r == self.spec_use_count(),
    {
        self.use_count
    }

    /// Record the end of one checkout.
    pub fn mark_used(&mut self)
        ensures
            final(self).spec_item() == old(self).spec_item(),
            final(self).spec_use_count() == if old(self).spec_use_count() == u64::MAX {
                u64::MAX
            } else {
                (old(self).spec_use_count() + 1) as u64
            },
    {
        self.last_used = instant_now();
        self.use_count = self.use_count.saturating_add(1);
    }

    /// Time since the slot was last returned, or created.
    pub fn idle_time(&self) -> TimeSpan {
        elapsed_since(&self.last_used)
    }

    /// Time since the slot was created.
    pub fn age(&self) -> TimeSpan {
        elapsed_since(&self.created_at)
    }
}

/// Exclusive use of one pooled item until [`Lease::release`].
#[verifier::reject_recursive_types(T)]
pub struct Lease<T> {
    slot: Option<Slot<T>>,
    return_tx: Sender<Slot<T>>,
    counters: Arc<PoolCounters>,
    started: std::time::Instant,
}

impl<T> Lease<T> {
    /// Whether the lease still holds its item.
    pub closed spec fn spec_held(&self) -> bool {
        self.slot is Some
    }

    /// The leased item, while the lease holds it.
    pub closed spec fn spec_item(&self) -> T
        recommends
            self.spec_held(),
    {
        self.slot->Some_0.item
    }

    /// Whether the lease still holds its item.
    pub fn is_held(&self) -> (r: bool)
        ensures
            r == self.spec_held(),
    {
        self.slot.is_some()
    }

    /// The leased item, while the lease holds it.
    pub fn item(&self) -> (r: Option<&T>)
        ensures
            self.spec_held() ==> r == Some(&self.spec_item()),
            !self.spec_held() ==> r is None,
    {
        match &self.slot {
            Some(slot) => Some(&slot.item),
            None => None,
        }
    }

    /// Give the item back to its pool: the slot's use is counted, the time
    /// the lease was held is added to the pool's total, and the slot goes
    /// back into the pool's channel. Releasing twice does nothing more.
    pub fn release(&mut self)
        ensures
            !final(self).spec_held(),
    {
        match self.slot.take() {
            Some(slot) => {
                let mut slot = slot;
                let held = elapsed_since(&self.started);
                self.counters.releases.fetch_add(1, Ordering::Relaxed);
                self.counters.add_execution_time(held);
                slot.mark_used();
                let _ = send_now(&self.return_tx, slot);
            },
            None => {},
        }
    }
}

/// A bounded pool of reusable items: a channel holds the idle ones, a
/// counter caps how many are ever created, and a flag shuts it down.
#[verifier::reject_recursive_types(T)]
pub struct Pool<T> {
    size: usize,
    acquire_timeout: TimeSpan,
    lazy: bool,
    rx: Receiver<Slot<T>>,
    tx: Sender<Slot<T>>,
    counters: Arc<PoolCounters>,
    shutdown: AtomicBool,
    created: AtomicUsize,
}

impl<T> Pool<T> {
    /// Number of slots.
    pub closed spec fn spec_size(&self) -> usize {
        self.size
    }

    /// Whether items are created on demand.
    pub closed spec fn spec_lazy(&self) -> bool {
        self.lazy
    }

    /// How long a blocking checkout waits.
    pub closed spec fn spec_acquire_timeout(&self) -> TimeSpan {
        self.acquire_timeout
    }

    /// A pool of `size` slots. Unless `lazy`, `make` creates all `size`
    /// items now; the first failure of `make` is returned. A size of zero or
    /// above [`MAX_POOL_SIZE`] is an invalid configuration.
    pub fn new<F: Fn() -> Result<T, Error>>(
        size: usize,
        acquire_timeout: TimeSpan,
        lazy: bool,
        make: F,
    ) -> (r: Result<Pool<T>, Error>)
        requires
            forall|| make.requires(()),
        ensures
            (size == 0 || size > MAX_POOL_SIZE) ==> r matches Err(Error::InvalidConfig(_)),
            lazy && 1 <= size <= MAX_POOL_SIZE ==> r is Ok,
            r matches Err(e) ==> ((size == 0 || size > MAX_POOL_SIZE) && e matches Error::InvalidConfig(
                _,
            )) || e matches Error::Internal(_) || make.ensures((), Err::<T, Error>(e)),
            r matches Ok(p) ==> p.spec_size() == size && p.spec_lazy() == lazy
                && p.spec_acquire_timeout() == acquire_timeout && 1 <= size <= MAX_POOL_SIZE,
    {
        if size == 0 || size > MAX_POOL_SIZE {
            return Err(Error::invalid_config("pool size must be between 1 and 65536"));
        }
        let (tx, rx) = bounded_channel(size);
        let pool = Pool {
            size,
            acquire_timeout,
            lazy,
            rx,
            tx,
            counters: Arc::new(PoolCounters::new()),
            shutdown: AtomicBool::new(false),
            created: AtomicUsize::new(0),
        };
        if !lazy {
            let mut i: usize = 0;
            while i < size
                invariant
                    i <= size,
                    1 <= size <= MAX_POOL_SIZE,
                    pool.size == size,
                    pool.lazy == lazy,
                    !lazy,
                    pool.acquire_timeout == acquire_timeout,
                    forall|| make.requires(()),
                decreases size - i,
            {
                let made = make();
                let item = match made {
                    Ok(item) => item,
                    Err(e) => {
                        return Err(e);
                    },
                };
                if !send_now(&pool.tx, Slot::new(item)) {
                    return Err(Error::Internal(crate::text::owned("failed to initialize pool")));
                }
                pool.created.fetch_add(1, Ordering::Relaxed);
                i = i + 1;
            }
        }
        Ok(pool)
    }

    fn lease(&self, slot: Slot<T>) -> (r: Lease<T>)
        ensures
            r.spec_held(),
            r.spec_item() == slot.spec_item(),
    {
        Lease {
            slot: Some(slot),
            return_tx: another_sender(&self.tx),
            counters: share(&self.counters),
            started: instant_now(),
        }
    }

    /// After no idle item was found: create one if the pool may grow and
    /// this caller wins the next creation slot, else fail.
    fn grow_or_fail<F: Fn() -> Result<T, Error>>(&self, make: F, blocking: bool) -> (r: Result<Lease<T>, Error>)
        requires
            forall|| make.requires(()),
        ensures
            match r {
                Ok(lease) => lease.spec_held() && self.spec_lazy(),
                Err(e) => e == (if blocking {
                    Error::PoolTimeout
                } else {
                    Error::PoolExhausted { count: self.spec_size() }
                }) || make.ensures(
                    (),
                    Err::<T, Error>(e),
                ),
            },
    {
        let created = self.created.load(Ordering::Relaxed);
        if may_create(self.lazy, created, self.size) {
            let claimed = self.created.compare_exchange(
                created,
                created + 1,
                Ordering::SeqCst,
                Ordering::Relaxed,
            );
            if claimed.is_ok() {
                let made = make();
                return match made {
                    Ok(item) => Ok(self.lease(Slot::new(item))),
                    Err(e) => Err(e),
                };
            }
        }
        if blocking {
            self.counters.timeouts.fetch_add(1, Ordering::Relaxed);
        }
        Err(checkout_failure(blocking, self.size))
    }

    /// Check out an item, waiting up to the acquire timeout for an idle one.
    /// A shut-down pool refuses with `PoolShutdown`. Where none comes, a lazy
    /// pool below its size creates one with `make`; otherwise the checkout
    /// fails with `PoolTimeout`.
    pub fn acquire<F: Fn() -> Result<T, Error>>(&self, make: F) -> (r: Result<Lease<T>, Error>)
        requires
            forall|| make.requires(()),
        ensures
            match r {
                Ok(lease) => lease.spec_held(),
                Err(e) => e == Error::PoolShutdown || e == Error::PoolTimeout || make.ensures(
                    (),
                    Err::<T, Error>(e),
                ),
            },
    {
        admit_checkout(self.shutdown.load(Ordering::Relaxed))?;
        self.counters.acquisitions.fetch_add(1, Ordering::Relaxed);
        match receive_within(&self.rx, self.acquire_timeout.nanos) {
            Some(slot) => Ok(self.lease(slot)),
            None => self.grow_or_fail(make, true),
        }
    }

    /// Check out an idle item without waiting. A shut-down pool refuses with
    /// `PoolShutdown`. Where none is idle, a lazy pool below its size creates
    /// one with `make`; otherwise the checkout fails at once with
    /// `PoolExhausted` naming the pool size.
    pub fn try_acquire<F: Fn() -> Result<T, Error>>(&self, make: F) -> (r: Result<Lease<T>, Error>)
        requires
            forall|| make.requires(()),
        ensures
            match r {
                Ok(lease) => lease.spec_held(),
                Err(e) => e == Error::PoolShutdown || e == (Error::PoolExhausted {
                    count: self.spec_size(),
                }) || make.ensures((), Err::<T, Error>(e)),
            },
    {
        admit_checkout(self.shutdown.load(Ordering::Relaxed))?;
        self.counters.acquisitions.fetch_add(1, Ordering::Relaxed);
        match receive_now(&self.rx) {
            Received::Item(slot) => Ok(self.lease(slot)),
            Received::Empty => self.grow_or_fail(make, false),
            Received::Disconnected => Err(Error::PoolShutdown),
        }
    }

    /// A snapshot of the pool's counts; fields are read one after another,
    /// so concurrent checkouts may make it slightly inconsistent.
    pub fn stats(&self) -> (r: PoolStats)
        ensures
            r.total == self.spec_size(),
            exists|created: usize| r.in_use == in_use_of(created, r.available),
    {
        let available = waiting(&self.rx);
        let created = self.created.load(Ordering::Relaxed);
        let r = PoolStats::snapshot(
            self.size,
            available,
            created,
            self.counters.acquisitions.load(Ordering::Relaxed),
            self.counters.releases.load(Ordering::Relaxed),
            self.counters.timeouts.load(Ordering::Relaxed),
            self.counters.executions.load(Ordering::Relaxed),
            TimeSpan::from_nanos(self.counters.execution_time_nanos.load(Ordering::Relaxed)),
        );
        assert(r.in_use == in_use_of(created, r.available));
        r
    }

    /// Number of slots.
    pub fn size(&self) -> (r: usize)
        ensures
            r == self.spec_size(),
    {
        self.size
    }

    /// Whether the pool accepts checkouts and has an idle item.
    pub fn is_healthy(&self) -> bool {
        !self.shutdown.load(Ordering::Relaxed) && waiting(&self.rx) > 0
    }

    /// Shut the pool down: every later checkout is refused. Leases already
    /// out are unaffected and may still be released.
    pub fn shutdown(&self) {
        self.shutdown.store(true, Ordering::Relaxed);
    }

    /// Whether the pool was shut down.
    pub fn is_shutdown(&self) -> bool {
        self.shutdown.load(Ordering::Relaxed)
    }

    /// How many items were created so far.
    pub fn created(&self) -> usize {
        self.created.load(Ordering::Relaxed)
    }
}

} // verus!
