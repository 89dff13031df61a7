use fusabi_host::sandbox::{host_matches_pattern, path_starts_with};
use fusabi_host::{Error, NetPolicy, PathPolicy, Sandbox, SandboxConfig};

#[test]
fn test_path_policy_deny_all() {
    let policy = PathPolicy::DenyAll;
    assert!(!policy.is_allowed("/any/path"));
}

#[test]
fn test_path_policy_allow_all() {
    let policy = PathPolicy::AllowAll;
    assert!(policy.is_allowed("/any/path"));
}

#[test]
fn test_path_policy_allowlist() {
    let policy = PathPolicy::allow(&["/tmp", "/home/user/data"]);
    assert!(!policy.is_allowed("/etc/passwd"));
}

#[test]
fn test_net_policy_deny_all() {
    let policy = NetPolicy::DenyAll;
    assert!(!policy.is_allowed("example.com"));
}

#[test]
fn test_net_policy_allow_all() {
    let policy = NetPolicy::AllowAll;
    assert!(policy.is_allowed("example.com"));
}

#[test]
fn test_net_policy_allowlist() {
    let policy = NetPolicy::allow(&["example.com", "*.trusted.org"]);
    assert!(policy.is_allowed("example.com"));
    assert!(policy.is_allowed("api.trusted.org"));
    assert!(policy.is_allowed("trusted.org"));
    assert!(!policy.is_allowed("malicious.com"));
}

#[test]
fn test_net_policy_denylist() {
    let policy = NetPolicy::deny(&["evil.com", "*.malware.net"]);
    assert!(policy.is_allowed("example.com"));
    assert!(!policy.is_allowed("evil.com"));
    assert!(!policy.is_allowed("download.malware.net"));
}

#[test]
fn test_sandbox_config_locked() {
    let config = SandboxConfig::locked();
    assert!(!config.can_read("/etc/passwd"));
    assert!(!config.can_write("/tmp/file"));
    assert!(!config.can_connect("example.com"));
    assert!(!config.can_access_env("PATH"));
}

#[test]
fn test_sandbox_config_permissive() {
    let config = SandboxConfig::permissive();
    assert!(config.can_read("/etc/passwd"));
    assert!(config.can_connect("example.com"));
    assert!(config.can_access_env("PATH"));
}

#[test]
fn test_sandbox_config_builder() {
    let config = SandboxConfig::locked()
        .with_allowed_hosts(&["api.example.com"])
        .with_env_vars(&["HOME", "USER"]);

    assert!(config.can_connect("api.example.com"));
    assert!(!config.can_connect("other.com"));
    assert!(config.can_access_env("HOME"));
    assert!(!config.can_access_env("SECRET"));
}

#[test]
fn test_sandbox_path_policy() {
    let policy = PathPolicy::DenyAll;
    assert!(!policy.is_allowed("/any/path"));

    let policy = PathPolicy::AllowAll;
    assert!(policy.is_allowed("/any/path"));
}

#[test]
fn test_sandbox_net_policy() {
    let policy = NetPolicy::allow(&["api.example.com", "*.trusted.org"]);

    assert!(policy.is_allowed("api.example.com"));
    assert!(policy.is_allowed("sub.trusted.org"));
    assert!(!policy.is_allowed("evil.com"));
}

#[test]
fn wildcard_matches_bare_domain_and_subdomains_only() {
    let policy = NetPolicy::allow(&["*.trusted.org"]);
    assert!(policy.is_allowed("trusted.org"));
    assert!(policy.is_allowed("api.trusted.org"));
    assert!(!policy.is_allowed("nottrusted.org"));
    assert!(policy.is_allowed("API.Trusted.ORG"));
    assert!(NetPolicy::allow(&["*.Trusted.Org"]).is_allowed("x.trusted.org"));
    assert!(host_matches_pattern("a.b.c", "*.b.c"));
    assert!(!host_matches_pattern("ab.c", "*.b.c"));
    assert!(!host_matches_pattern("A.b.c", "a.b.c"));
}

#[test]
fn path_containment_is_by_component() {
    assert!(path_starts_with("/tmp/x", "/tmp"));
    assert!(path_starts_with("/tmp", "/tmp/"));
    assert!(path_starts_with("/tmp//./x/", "/tmp/x"));
    assert!(!path_starts_with("/tmpfoo", "/tmp"));
    assert!(!path_starts_with("tmp/x", "/tmp"));
    assert!(path_starts_with("/anything", "/"));
    let policy = PathPolicy::deny(&["/definitely/not/here"]);
    assert!(policy.is_allowed("/definitely/not/herein"));
    assert!(!policy.is_allowed("/definitely/not/here/file"));
    assert!(PathPolicy::allow(&["/no/such/dir"]).allows_resolved("/no/such/dir/a"));
}

#[test]
fn sandbox_checks_name_the_resource() {
    let config = SandboxConfig::locked().with_env_vars(&["HOME"]).with_working_dir("/work");
    assert_eq!(config.working_dir, Some("/work".to_string()));
    let sandbox = Sandbox::from_parts(config, Some("/tmp/iso".to_string()));
    assert_eq!(sandbox.temp_dir(), Some("/tmp/iso"));
    assert!(sandbox.check_env("HOME").is_ok());
    match sandbox.check_env("SECRET") {
        Err(Error::SandboxViolation(m)) => assert_eq!(m, "environment variable access denied: SECRET"),
        other => panic!("unexpected {:?}", other),
    }
    match sandbox.check_read("/etc/passwd") {
        Err(Error::SandboxViolation(m)) => assert_eq!(m, "read access denied: /etc/passwd"),
        other => panic!("unexpected {:?}", other),
    }
    match sandbox.check_write("/x") {
        Err(Error::SandboxViolation(m)) => assert_eq!(m, "write access denied: /x"),
        other => panic!("unexpected {:?}", other),
    }
    match sandbox.check_connect("h") {
        Err(Error::SandboxViolation(m)) => assert_eq!(m, "network access denied: h"),
        other => panic!("unexpected {:?}", other),
    }
    let open = Sandbox::from_parts(SandboxConfig::permissive().with_temp_isolation(), None);
    assert!(open.config().isolate_temp);
    assert!(open.check_write("/x").is_ok());
    assert!(open.check_connect("h").is_ok());
    assert_eq!(open.temp_dir(), None);
    assert!(SandboxConfig::default().can_access_env("ANY"));
}

#[test]
fn uncanonical_paths_are_compared_as_written() {
    let policy = PathPolicy::allow(&["/tmp", "/home/user/data"]);
    assert!(!policy.allows_path("/etc/passwd", None));
    assert!(policy.allows_path("/home/user/data/x", None));
    assert!(!policy.allows_path("/home/user/data/x", Some("/elsewhere/x")));
    assert!(policy.allows_path("/elsewhere/x", Some("/tmp/x")));
    assert!(!PathPolicy::deny(&["/tmp"]).allows_path("/tmp/a", None));
    assert!(PathPolicy::allow(&["/no/such/dir"]).is_allowed("/no/such/dir/file"));
}

#[test]
fn a_leading_dot_is_a_component_of_relative_paths() {
    assert!(!path_starts_with("./data/x", "data"));
    assert!(path_starts_with("./data/x", "./data"));
    assert!(path_starts_with("data/./x", "data/x"));
    assert!(path_starts_with("/./data/x", "/data"));
}
