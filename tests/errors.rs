use fusabi_host::{Error, LimitViolation, TimeSpan, ValueConversionError, ValueType};

#[test]
fn test_error_display() {
    let err = Error::compilation("syntax error at line 5");
    assert_eq!(err.to_string(), "compilation error: syntax error at line 5");

    let err = Error::PoolExhausted { count: 4 };
    assert_eq!(err.to_string(), "engine pool exhausted, all 4 engines busy");
}

#[test]
fn test_error_classification() {
    assert!(Error::PoolTimeout.is_transient());
    assert!(Error::PoolExhausted { count: 4 }.is_transient());
    assert!(!Error::Compilation("test".into()).is_transient());

    assert!(Error::EnginePoisoned("panic".into()).is_fatal());
    assert!(Error::PoolShutdown.is_fatal());
    assert!(!Error::PoolTimeout.is_fatal());
}

#[test]
fn classification_of_remaining_kinds() {
    assert!(Error::Timeout(TimeSpan::from_millis(5)).is_transient());
    assert!(Error::Internal("x".into()).is_fatal());
    assert!(!Error::Cancelled.is_transient());
    assert!(!Error::Cancelled.is_fatal());
    assert!(!Error::sandbox_violation("x").is_fatal());
}

#[test]
fn messages_of_each_kind() {
    assert_eq!(Error::runtime("boom").to_string(), "runtime error: boom");
    assert_eq!(Error::capability_denied("fs:write").to_string(), "capability denied: fs:write");
    assert_eq!(Error::invalid_config("bad").to_string(), "invalid configuration: bad");
    assert_eq!(
        Error::version_mismatch("0.18", "0.20").to_string(),
        "version incompatibility: expected 0.18, got 0.20"
    );
    assert_eq!(Error::host_function("h").to_string(), "host function error: h");
    assert_eq!(Error::invalid_bytecode("b").to_string(), "invalid bytecode: b");
    assert_eq!(Error::PoolTimeout.to_string(), "timeout waiting for engine from pool");
    assert_eq!(Error::PoolShutdown.to_string(), "engine pool has been shut down");
    assert_eq!(Error::Cancelled.to_string(), "execution cancelled");
    assert_eq!(Error::Timeout(TimeSpan::from_millis(1500)).to_string(), "execution timeout after 1500ms");
    assert_eq!(
        Error::LimitViolation(LimitViolation::MemoryExceeded { limit: 10, actual: 12 }).to_string(),
        "limit violation: memory limit exceeded: 10 bytes (actual: 12 bytes)"
    );
    assert_eq!(
        LimitViolation::TimeExceeded { limit: TimeSpan::from_secs(5), actual: TimeSpan::from_millis(5001) }.to_string(),
        "execution time limit exceeded: 5000ms (actual: 5001ms)"
    );
    assert_eq!(
        LimitViolation::InstructionsExceeded { limit: 100, actual: 110 }.to_string(),
        "instruction limit exceeded: 100 (actual: 110)"
    );
    assert_eq!(
        LimitViolation::FsOpsExceeded { limit: 0 }.to_string(),
        "filesystem operation limit exceeded: 0 operations"
    );
    assert_eq!(
        Error::ValueConversion(ValueConversionError::type_mismatch(ValueType::Int, ValueType::String)).to_string(),
        "value conversion error: type mismatch: expected int, got string"
    );
    assert_eq!(ValueConversionError::missing_field("id").to_string(), "missing field: id");
    assert_eq!(ValueConversionError::custom("plain").to_string(), "plain");
}
