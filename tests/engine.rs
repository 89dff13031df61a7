use fusabi_host::{
    Capabilities, Capability, EngineConfig, Error, ExecutionState, LimitViolation, Limits, Sandbox,
    SandboxConfig,
};

fn state(limits: Limits) -> ExecutionState {
    let sandbox = Sandbox::from_parts(SandboxConfig::default(), None);
    ExecutionState::new(1, Capabilities::safe_defaults(), limits, sandbox)
}

#[test]
fn test_execution_context_capabilities() {
    let st = state(Limits::default());
    assert!(st.has_capability(Capability::TimeRead));
    assert!(!st.has_capability(Capability::FsWrite));
    assert!(matches!(st.require_capability(Capability::FsWrite), Err(Error::CapabilityDenied { .. })));
    assert_eq!(st.engine_id(), 1);
}

#[test]
fn cancellation_is_reported_before_any_reset() {
    let mut st = state(Limits::unlimited().with_max_instructions(5));
    assert!(st.record_instructions(10).is_err());
    st.cancel();
    assert!(st.is_cancelled());
    assert_eq!(st.begin(Limits::unlimited().with_max_instructions(5)), Err(Error::Cancelled));
    assert!(st.is_cancelled());
    assert_eq!(
        st.record_instructions(0),
        Err(Error::LimitViolation(LimitViolation::InstructionsExceeded { limit: 5, actual: 10 }))
    );
    st.reset(Limits::unlimited().with_max_instructions(5));
    assert!(!st.is_cancelled());
    assert_eq!(st.begin(Limits::unlimited().with_max_instructions(5)), Ok(()));
    assert_eq!(st.record_instructions(5), Ok(()));
}

#[test]
fn recording_through_the_state_maps_violations() {
    let limits = Limits::unlimited()
        .with_memory_bytes(10)
        .with_max_output_bytes(1)
        .with_max_fs_ops(0)
        .with_max_net_ops(0);
    let mut st = state(limits);
    assert_eq!(st.record_memory(11), Err(Error::LimitViolation(LimitViolation::MemoryExceeded { limit: 10, actual: 11 })));
    assert_eq!(st.record_output(2), Err(Error::LimitViolation(LimitViolation::OutputSizeExceeded { limit: 1, actual: 2 })));
    assert_eq!(st.record_fs_op(), Err(Error::LimitViolation(LimitViolation::FsOpsExceeded { limit: 0 })));
    assert_eq!(st.record_net_op(), Err(Error::LimitViolation(LimitViolation::NetOpsExceeded { limit: 0 })));
    assert!(st.check_timeout().is_ok());
    assert!(st.sandbox().check_env("ANY").is_ok());
}

#[test]
fn engine_config_presets() {
    let strict = EngineConfig::strict();
    assert!(strict.capabilities.is_empty());
    assert_eq!(strict.limits, Limits::strict());
    assert!(strict.sandbox.isolate_temp);
    let open = EngineConfig::permissive();
    assert_eq!(open.capabilities, Capabilities::all());
    assert_eq!(open.limits, Limits::unlimited());
    let cfg = EngineConfig::new().with_debug(true).with_metadata("name", "test-engine");
    assert!(cfg.debug);
    assert_eq!(cfg.metadata.get("name"), Some(&"test-engine".to_string()));
    assert_eq!(cfg.capabilities, Capabilities::safe_defaults());
}
