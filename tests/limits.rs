use fusabi_host::{LimitTracker, LimitViolation, Limits, TimeSpan};

#[test]
fn test_default_limits() {
    let limits = Limits::default();
    assert!(limits.timeout.is_some());
    assert!(limits.memory_bytes.is_some());
    assert!(limits.max_instructions.is_some());
}

#[test]
fn test_unlimited() {
    let limits = Limits::unlimited();
    assert!(limits.timeout.is_none());
    assert!(limits.memory_bytes.is_none());
}

#[test]
fn test_strict_limits() {
    let limits = Limits::strict();
    assert_eq!(limits.max_fs_ops, Some(0));
    assert_eq!(limits.max_net_ops, Some(0));
}

#[test]
fn test_builder_pattern() {
    let limits = Limits::default()
        .with_timeout(TimeSpan::from_secs(10))
        .with_memory_mb(32);

    assert_eq!(limits.timeout, Some(TimeSpan::from_secs(10)));
    assert_eq!(limits.memory_bytes, Some(32 * 1024 * 1024));
}

#[test]
fn test_limit_checks() {
    let limits = Limits::default().with_memory_bytes(1000);

    assert!(limits.check_memory(500).is_ok());
    assert!(limits.check_memory(1500).is_err());
}

#[test]
fn test_limit_tracker() {
    let limits = Limits::default().with_max_instructions(100);
    let mut tracker = LimitTracker::new(limits);

    assert!(tracker.record_instructions(50).is_ok());
    assert!(tracker.record_instructions(60).is_err());
}

#[test]
fn test_limits_enforcement() {
    let limits = Limits::default().with_max_instructions(100);

    assert!(limits.check_instructions(50).is_ok());
    assert!(limits.check_instructions(150).is_err());
}

#[test]
fn default_and_strict_values() {
    let d = Limits::default();
    assert_eq!(d.timeout, Some(TimeSpan::from_secs(30)));
    assert_eq!(d.memory_bytes, Some(64 * 1024 * 1024));
    assert_eq!(d.max_instructions, Some(10_000_000));
    assert_eq!(d.max_stack_depth, Some(1000));
    assert_eq!(d.max_output_bytes, Some(1024 * 1024));
    assert_eq!(d.max_fs_ops, Some(100));
    assert_eq!(d.max_net_ops, Some(10));
    assert_eq!(d.max_concurrent_tasks, Some(16));
    let s = Limits::strict();
    assert_eq!(s.timeout, Some(TimeSpan::from_secs(5)));
    assert_eq!(s.memory_bytes, Some(16 * 1024 * 1024));
    assert_eq!(s.max_output_bytes, Some(64 * 1024));
    assert_eq!(s.no_timeout().timeout, None);
}

#[test]
fn checks_report_limit_and_actual() {
    let limits = Limits::unlimited()
        .with_timeout(TimeSpan::from_millis(10))
        .with_max_stack_depth(2)
        .with_max_instructions(5);
    assert_eq!(limits.check_time(TimeSpan::from_millis(10)), Ok(()));
    assert_eq!(
        limits.check_time(TimeSpan::from_millis(11)),
        Err(LimitViolation::TimeExceeded { limit: TimeSpan::from_millis(10), actual: TimeSpan::from_millis(11) })
    );
    assert_eq!(limits.check_stack_depth(3), Err(LimitViolation::StackDepthExceeded { limit: 2, actual: 3 }));
    assert_eq!(limits.check_instructions(5), Ok(()));
    assert_eq!(Limits::unlimited().check_memory(usize::MAX), Ok(()));
}

#[test]
fn instruction_violation_persists_once_crossed() {
    let mut tracker = LimitTracker::new(Limits::unlimited().with_max_instructions(10));
    assert!(tracker.record_instructions(11).is_err());
    for _ in 0..3 {
        assert_eq!(
            tracker.record_instructions(0),
            Err(LimitViolation::InstructionsExceeded { limit: 10, actual: 11 })
        );
        assert!(tracker.record_memory(0).is_ok());
    }
    assert!(tracker.record_instructions(u64::MAX).is_err());
    assert_eq!(tracker.instructions_executed(), u64::MAX);
    tracker.reset();
    assert_eq!(tracker.instructions_executed(), 0);
    assert!(tracker.record_instructions(10).is_ok());
}

#[test]
fn tracker_counters() {
    let limits = Limits::unlimited()
        .with_max_stack_depth(1)
        .with_max_output_bytes(4)
        .with_max_fs_ops(1)
        .with_max_net_ops(0)
        .with_memory_bytes(100);
    let mut t = LimitTracker::new(limits);
    t.pop_stack();
    assert!(t.push_stack().is_ok());
    assert_eq!(t.push_stack(), Err(LimitViolation::StackDepthExceeded { limit: 1, actual: 2 }));
    t.pop_stack();
    t.pop_stack();
    assert!(t.push_stack().is_ok());
    assert!(t.record_output(4).is_ok());
    assert_eq!(t.record_output(1), Err(LimitViolation::OutputSizeExceeded { limit: 4, actual: 5 }));
    assert!(t.record_fs_op().is_ok());
    assert_eq!(t.record_fs_op(), Err(LimitViolation::FsOpsExceeded { limit: 1 }));
    assert_eq!(t.record_net_op(), Err(LimitViolation::NetOpsExceeded { limit: 0 }));
    assert!(t.record_memory(150).is_err());
    assert!(t.record_memory(50).is_ok());
    assert_eq!(t.memory_used(), 50);
    assert!(t.check_timeout().is_ok());
    assert!(LimitTracker::new(Limits::unlimited().with_timeout(TimeSpan::zero())).elapsed().as_nanos() < u64::MAX);
}

#[test]
fn time_spans_saturate() {
    assert_eq!(TimeSpan::from_secs(2).as_nanos(), 2_000_000_000);
    assert_eq!(TimeSpan::from_millis(3).as_millis(), 3);
    assert_eq!(TimeSpan::from_secs(u64::MAX).as_nanos(), u64::MAX);
}
