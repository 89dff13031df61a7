use fusabi_host::is_compatible_version;

#[test]
fn test_version_compatibility() {
    assert!(is_compatible_version("0.18.0"));
    assert!(is_compatible_version("0.18.5"));
    assert!(is_compatible_version("0.19.0"));
    assert!(!is_compatible_version("0.17.0"));
    assert!(!is_compatible_version("0.20.0"));
    assert!(!is_compatible_version("1.0.0"));
    assert!(!is_compatible_version("invalid"));
}

#[test]
fn version_parts_follow_integer_parsing() {
    assert!(is_compatible_version("0.19"));
    assert!(is_compatible_version("+0.+18.x"));
    assert!(is_compatible_version("00.018.1.2"));
    assert!(!is_compatible_version("0."));
    assert!(!is_compatible_version(".18"));
    assert!(!is_compatible_version("0.18a.0"));
    assert!(!is_compatible_version("0. 18"));
    assert!(!is_compatible_version("-0.18"));
    assert!(!is_compatible_version("4294967296.18"));
    assert!(!is_compatible_version("0.4294967314"));
}
