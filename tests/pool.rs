use fusabi_host::{Capabilities, Limits, PoolConfig, PoolStats, TimeSpan};
use fusabi_host::engine::{admit_execution, check_bytecode_header};
use fusabi_host::pool::{admit_checkout, checkout_failure, may_create};
use fusabi_host::{Error, Pool};
use std::time::{Duration, Instant};

#[test]
fn test_pool_config_builder() {
    let config = PoolConfig::new(8)
        .with_limits(Limits::strict())
        .with_capabilities(Capabilities::none())
        .with_acquire_timeout(TimeSpan::from_secs(5))
        .with_lazy_init(true);

    assert_eq!(config.size, 8);
    assert_eq!(config.acquire_timeout, TimeSpan::from_secs(5));
    assert!(config.lazy_init);
}

#[test]
fn pool_size_is_at_least_one() {
    let config = PoolConfig::new(0);
    assert_eq!(config.size, 1);
    assert!(!config.lazy_init);
    assert_eq!(config.acquire_timeout, TimeSpan::from_secs(30));
    assert_eq!(config.max_idle_time, Some(TimeSpan::from_secs(300)));
    assert_eq!(config.with_max_idle_time(None).max_idle_time, None);
}

#[test]
fn returning_an_engine_moves_it_from_in_use_to_available() {
    let before = PoolStats::snapshot(2, 0, 2, 2, 0, 0, 0, TimeSpan::zero());
    let after = PoolStats::snapshot(2, 1, 2, 2, 1, 0, 1, TimeSpan::from_nanos(10));
    assert_eq!(before.in_use, 2);
    assert_eq!(after.available, before.available + 1);
    assert_eq!(after.in_use, before.in_use - 1);
    assert_eq!(PoolStats::snapshot(4, 5, 3, 0, 0, 0, 0, TimeSpan::zero()).in_use, 0);
}

#[test]
fn average_checkout_time() {
    let mut stats = PoolStats::default();
    assert_eq!(stats.avg_execution_time(), TimeSpan::zero());
    stats.executions = 4;
    stats.total_execution_time = TimeSpan::from_nanos(10);
    assert_eq!(stats.avg_execution_time(), TimeSpan::from_nanos(2));
}

fn make_item() -> Result<u32, Error> {
    Ok(7)
}

#[test]
fn two_checkouts_fill_a_pool_of_two_and_a_third_times_out() {
    let pool: Pool<u32> = Pool::new(2, TimeSpan::from_millis(50), false, make_item).unwrap();
    let stats = pool.stats();
    assert_eq!((stats.total, stats.available, stats.in_use), (2, 2, 0));
    let h1 = pool.acquire(make_item).unwrap();
    let h2 = pool.acquire(make_item).unwrap();
    assert_eq!(pool.stats().in_use, 2);
    assert_eq!(h1.item(), Some(&7));
    assert!(h2.is_held());
    let started = Instant::now();
    let third = pool.acquire(make_item);
    let waited = started.elapsed();
    assert!(matches!(third, Err(Error::PoolTimeout)));
    assert!(waited >= Duration::from_millis(40));
    assert!(waited < Duration::from_secs(5));
    assert_eq!(pool.stats().timeouts, 1);
}

#[test]
fn releasing_a_lease_returns_its_engine() {
    let pool: Pool<u32> = Pool::new(2, TimeSpan::from_millis(50), false, make_item).unwrap();
    let mut h1 = pool.acquire(make_item).unwrap();
    let mut h2 = pool.acquire(make_item).unwrap();
    let before = pool.stats();
    h1.release();
    let after = pool.stats();
    assert_eq!(after.available, before.available + 1);
    assert_eq!(after.in_use, before.in_use - 1);
    h1.release();
    assert_eq!(pool.stats().available, after.available);
    assert!(!h1.is_held());
    assert_eq!(h1.item(), None);
    h2.release();
    let end = pool.stats();
    assert_eq!((end.available, end.in_use), (2, 0));
    assert_eq!((end.acquisitions, end.releases, end.executions), (2, 2, 2));
}

#[test]
fn try_acquire_on_a_busy_pool_of_one_is_exhausted() {
    let pool: Pool<u32> = Pool::new(1, TimeSpan::from_secs(30), false, make_item).unwrap();
    let mut handle = pool.try_acquire(make_item).unwrap();
    let result = pool.try_acquire(make_item);
    assert!(matches!(result, Err(Error::PoolExhausted { count: 1 })));
    handle.release();
    let again = pool.try_acquire(make_item);
    assert!(again.is_ok());
}

#[test]
fn a_shut_down_pool_refuses_every_checkout() {
    let pool: Pool<u32> = Pool::new(2, TimeSpan::from_millis(10), false, make_item).unwrap();
    let mut out = pool.acquire(make_item).unwrap();
    assert!(!pool.is_shutdown());
    pool.shutdown();
    assert!(pool.is_shutdown());
    assert_eq!(pool.stats().available, 1);
    assert!(matches!(pool.acquire(make_item), Err(Error::PoolShutdown)));
    assert!(matches!(pool.try_acquire(make_item), Err(Error::PoolShutdown)));
    out.release();
    assert!(matches!(pool.try_acquire(make_item), Err(Error::PoolShutdown)));
    assert!(!pool.is_healthy());
}

#[test]
fn lazy_pools_create_on_demand_up_to_their_size() {
    let pool: Pool<u32> = Pool::new(2, TimeSpan::from_millis(10), true, make_item).unwrap();
    assert_eq!(pool.created(), 0);
    assert_eq!(pool.stats().available, 0);
    let _a = pool.try_acquire(make_item).unwrap();
    assert_eq!(pool.created(), 1);
    let _b = pool.acquire(make_item).unwrap();
    assert_eq!(pool.created(), 2);
    assert!(matches!(pool.try_acquire(make_item), Err(Error::PoolExhausted { count: 2 })));
    assert!(matches!(pool.acquire(make_item), Err(Error::PoolTimeout)));
}

#[test]
fn creation_failures_and_bad_sizes_are_reported() {
    let failing = || -> Result<u32, Error> { Err(Error::runtime("no engine")) };
    assert!(matches!(Pool::new(0, TimeSpan::zero(), false, make_item), Err(Error::InvalidConfig(_))));
    assert!(matches!(Pool::new(2, TimeSpan::zero(), false, failing), Err(Error::Runtime(_))));
    let lazy: Pool<u32> = Pool::new(1, TimeSpan::zero(), true, failing).unwrap();
    assert!(matches!(lazy.try_acquire(failing), Err(Error::Runtime(_))));
}

#[test]
fn checkout_rules() {
    assert_eq!(admit_checkout(true), Err(Error::PoolShutdown));
    assert_eq!(admit_checkout(false), Ok(()));
    assert!(may_create(true, 0, 1));
    assert!(!may_create(true, 1, 1));
    assert!(!may_create(false, 0, 1));
    assert_eq!(checkout_failure(true, 3), Error::PoolTimeout);
    assert_eq!(checkout_failure(false, 3), Error::PoolExhausted { count: 3 });
}

#[test]
fn a_pending_cancellation_is_reported_before_reset() {
    assert_eq!(admit_execution(true), Err(Error::Cancelled));
    assert_eq!(admit_execution(false), Ok(()));
}

#[test]
fn engines_check_the_bytecode_header() {
    assert!(check_bytecode_header(b"FZB\x00\x01\x00\x00\x00").is_ok());
    match check_bytecode_header(b"FZB\x00") {
        Err(Error::InvalidBytecode(m)) => assert_eq!(m, "invalid bytecode header"),
        other => panic!("unexpected {:?}", other),
    }
    assert!(check_bytecode_header(b"XZB\x00\x01\x00\x00\x00").is_err());
}

#[test]
fn a_lazy_pool_of_valid_size_is_always_built() {
    let failing = || -> Result<u32, Error> { Err(Error::runtime("no engine")) };
    let pool: Pool<u32> = Pool::new(65536, TimeSpan::zero(), true, failing).unwrap();
    assert_eq!(pool.size(), 65536);
    assert!(matches!(Pool::<u32>::new(65537, TimeSpan::zero(), true, failing), Err(Error::InvalidConfig(_))));
}
