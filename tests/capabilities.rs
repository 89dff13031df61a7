use fusabi_host::{Capabilities, Capability, Error};

#[test]
fn test_capability_name_roundtrip() {
    for cap in Capability::all() {
        let name = cap.name();
        let parsed = Capability::from_name(name);
        assert_eq!(parsed, Some(*cap), "Failed roundtrip for {:?}", cap);
    }
}

#[test]
fn test_capabilities_none() {
    let caps = Capabilities::none();
    assert!(caps.is_empty());
    assert!(!caps.has(Capability::FsRead));
}

#[test]
fn test_capabilities_all() {
    let caps = Capabilities::all();
    assert_eq!(caps.len(), Capability::all().len());
    assert!(caps.has(Capability::FsRead));
    assert!(caps.has(Capability::NetRequest));
}

#[test]
fn test_capabilities_safe_defaults() {
    let caps = Capabilities::safe_defaults();
    assert!(caps.has(Capability::TimeRead));
    assert!(caps.has(Capability::Logging));
    assert!(!caps.has(Capability::FsWrite));
    assert!(!caps.has(Capability::ProcessExec));
}

#[test]
fn test_capabilities_builder() {
    let caps = Capabilities::none()
        .with(Capability::FsRead)
        .with(Capability::NetRequest)
        .without(Capability::FsRead);

    assert!(!caps.has(Capability::FsRead));
    assert!(caps.has(Capability::NetRequest));
}

#[test]
fn test_capabilities_require() {
    let caps = Capabilities::none().with(Capability::FsRead);

    assert!(caps.require(Capability::FsRead).is_ok());
    assert!(caps.require(Capability::FsWrite).is_err());
}

#[test]
fn test_capabilities_from_names() {
    let caps = Capabilities::from_names(&["fs:read", "net:request", "invalid"]);
    assert!(caps.has(Capability::FsRead));
    assert!(caps.has(Capability::NetRequest));
    assert_eq!(caps.len(), 2);
}

#[test]
fn test_dangerous_capabilities() {
    assert!(Capability::FsWrite.is_dangerous());
    assert!(Capability::ProcessExec.is_dangerous());
    assert!(!Capability::FsRead.is_dangerous());
    assert!(!Capability::TimeRead.is_dangerous());

    let caps = Capabilities::none().with(Capability::FsWrite);
    assert!(caps.has_dangerous());

    let safe = Capabilities::safe_defaults();
    assert!(!safe.has_dangerous());
}

#[test]
fn test_capabilities_merge() {
    let a = Capabilities::none().with(Capability::FsRead);
    let b = Capabilities::none().with(Capability::NetRequest);
    let merged = a.merge(&b);

    assert!(merged.has(Capability::FsRead));
    assert!(merged.has(Capability::NetRequest));
}

#[test]
fn test_capabilities_intersect() {
    let a = Capabilities::none()
        .with(Capability::FsRead)
        .with(Capability::NetRequest);
    let b = Capabilities::none()
        .with(Capability::NetRequest)
        .with(Capability::TimeRead);
    let intersected = a.intersect(&b);

    assert!(!intersected.has(Capability::FsRead));
    assert!(intersected.has(Capability::NetRequest));
    assert!(!intersected.has(Capability::TimeRead));
}

#[test]
fn test_capabilities_enforcement() {
    let caps = Capabilities::none().with(Capability::FsRead);

    assert!(caps.require(Capability::FsRead).is_ok());
    assert!(caps.require(Capability::FsWrite).is_err());
    assert!(caps.require(Capability::ProcessExec).is_err());
}

#[test]
fn capability_names_are_the_documented_strings() {
    let expected = [
        "fs:read", "fs:write", "fs:execute", "net:request", "net:listen", "process:exec",
        "env:read", "env:write", "time:read", "random", "stdin:read", "stdout:write",
        "stderr:write", "metrics", "logging", "async:spawn", "crypto", "serialize",
    ];
    let all = Capability::all();
    assert_eq!(all.len(), expected.len());
    for (cap, name) in all.iter().zip(expected.iter()) {
        assert_eq!(cap.name(), *name);
    }
    assert_eq!(Capability::from_name("FS:READ"), None);
    assert_eq!(Capability::from_name(""), None);
}

#[test]
fn dangerous_set_is_write_exec_listen_class() {
    let dangerous: Vec<Capability> =
        Capability::all().iter().copied().filter(|c| c.is_dangerous()).collect();
    assert_eq!(
        dangerous,
        vec![Capability::FsWrite, Capability::NetListen, Capability::ProcessExec, Capability::EnvWrite]
    );
    for cap in Capabilities::safe_defaults().granted() {
        assert!(!cap.is_dangerous());
    }
    assert_eq!(Capabilities::safe_defaults().len(), 6);
}

#[test]
fn merge_and_intersect_bound_their_operands() {
    let a = Capabilities::none().with(Capability::FsRead).with(Capability::Crypto);
    let b = Capabilities::none().with(Capability::Crypto).with(Capability::Metrics);
    let m = a.merge(&b);
    let i = a.intersect(&b);
    for &cap in Capability::all() {
        assert_eq!(m.has(cap), a.has(cap) || b.has(cap));
        assert_eq!(i.has(cap), a.has(cap) && b.has(cap));
    }
    assert_eq!(m.len(), 3);
    assert_eq!(i.len(), 1);
}

#[test]
fn require_names_the_denied_capability() {
    let err = Capabilities::none().require(Capability::NetListen).unwrap_err();
    match err {
        Error::CapabilityDenied { capability } => assert_eq!(capability, "net:listen"),
        other => panic!("unexpected error {:?}", other),
    }
}

#[test]
fn grant_revoke_and_equality_as_sets() {
    let mut caps = Capabilities::none();
    caps.grant(Capability::Random);
    caps.grant(Capability::Random);
    assert_eq!(caps.len(), 1);
    caps.revoke(Capability::Random);
    assert!(caps.is_empty());

    let a = Capabilities::none().with(Capability::FsRead).with(Capability::Logging);
    let b = Capabilities::none().with(Capability::Logging).with(Capability::FsRead);
    assert_eq!(a, b);
    assert_ne!(a, Capabilities::none());
    assert_eq!(Capabilities::all().with(Capability::FsRead), Capabilities::all());
}

#[test]
fn names_round_trip_through_sets() {
    let caps = Capabilities::none().with(Capability::StdinRead).with(Capability::AsyncSpawn);
    let names = caps.to_names();
    assert_eq!(names, vec!["stdin:read", "async:spawn"]);
    let back = Capabilities::from_names(&names);
    assert_eq!(back, caps);
    let with_all = Capabilities::none().with_all(&[Capability::Crypto, Capability::Crypto, Capability::Serialize]);
    assert_eq!(with_all.granted(), vec![Capability::Crypto, Capability::Serialize]);
}

#[test]
fn names_are_distinct_and_one_per_capability() {
    let caps = Capabilities::all().without(Capability::Random);
    let names = caps.to_names();
    assert_eq!(names.len(), caps.len());
    assert_eq!(names.len(), 17);
    let mut sorted = names.clone();
    sorted.sort();
    sorted.dedup();
    assert_eq!(sorted.len(), names.len());
    assert_eq!(caps.granted().len(), 17);
}
