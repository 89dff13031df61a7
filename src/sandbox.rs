//! Path and network access policies, and the sandbox that enforces them.
use vstd::prelude::*;
use vstd::string::*;
use crate::error::Error;
use crate::text::{chars_of, ends_with, is_suffix, str_eq};

verus! {

// ---------------------------------------------------------------------------
// Paths
// ---------------------------------------------------------------------------

/// Adds the segment `cur` to `done`, unless it is empty, or `.` where
/// `keep_dot` does not hold.
pub open spec fn flush_segment(done: Seq<Seq<char>>, cur: Seq<char>, keep_dot: bool) -> Seq<Seq<char>> {
    if cur.len() == 0 || (cur == seq!['.'] && !keep_dot) {
        done
    } else {
        done.push(cur)
    }
}

/// Completed segments and the pending segment after reading `i` characters.
pub open spec fn scan_segments(s: Seq<char>, i: nat) -> (Seq<Seq<char>>, Seq<char>)
    decreases i,
{
    if i == 0 || i > s.len() {
        (Seq::empty(), Seq::empty())
    } else {
        let prev = scan_segments(s, (i - 1) as nat);
        if s[i - 1] == '/' {
            (flush_segment(prev.0, prev.1, keeps_dot(s, prev.0)), Seq::empty())
        } else {
            (prev.0, prev.1.push(s[i - 1]))
        }
    }
}

/// Whether a `.` piece is kept: only as the first piece of a relative path.
pub open spec fn keeps_dot(s: Seq<char>, done: Seq<Seq<char>>) -> bool {
    done.len() == 0 && !is_absolute(s)
}

/// The components of a path: the pieces between `/` separators, without
/// empty pieces and without `.`, except a `.` that opens a relative path.
pub open spec fn path_segments(s: Seq<char>) -> Seq<Seq<char>> {
    let st = scan_segments(s, s.len());
    flush_segment(st.0, st.1, keeps_dot(s, st.0))
}

/// Whether a path starts at the root.
pub open spec fn is_absolute(s: Seq<char>) -> bool {
    s.len() > 0 && s[0] == '/'
}

/// Whether `path` lies within `base`: both absolute or both relative, and the
/// components of `base` are the first components of `path`.
pub open spec fn path_within(path: Seq<char>, base: Seq<char>) -> bool {
    let p = path_segments(path);
    let b = path_segments(base);
    is_absolute(path) == is_absolute(base) && b.len() <= p.len() && p.subrange(0, b.len() as int)
        == b
}

/// The views of a list of strings.
pub open spec fn string_views(v: Seq<String>) -> Seq<Seq<char>> {
    v.map_values(|s: String| s@)
}

/// The views of a list of character vectors.
pub open spec fn char_vec_views(v: Seq<Vec<char>>) -> Seq<Seq<char>> {
    v.map_values(|s: Vec<char>| s@)
}

fn push_segment(done: &mut Vec<Vec<char>>, cur: Vec<char>, keep_dot: bool)
    ensures
        char_vec_views(final(done)@) == flush_segment(char_vec_views(old(done)@), cur@, keep_dot),
{
    let n = cur.len();
    if n == 0 {
        return;
    }
    if n == 1 && cur[0] == '.' && !keep_dot {
        assert(cur@ =~= seq!['.']);
        return;
    }
    assert(cur@ != seq!['.'] || keep_dot) by {
        if cur@ == seq!['.'] {
            assert(cur@[0] == '.');
        }
    }
    let ghost before = done@;
    done.push(cur);
    assert(char_vec_views(done@) =~= char_vec_views(before).push(cur@));
}

/// The components of a path, as [`path_segments`] defines them.
pub fn segments_of(s: &str) -> (r: Vec<Vec<char>>)
    ensures
        char_vec_views(r@) == path_segments(s@),
{
    let chars = chars_of(s);
    let n = chars.len();
    let absolute = n > 0 && chars[0] == '/';
    let mut done: Vec<Vec<char>> = Vec::new();
    let mut cur: Vec<char> = Vec::new();
    let mut i: usize = 0;
    assert(char_vec_views(done@) =~= Seq::<Seq<char>>::empty());
    while i < n
        invariant
            n == s@.len(),
            chars@ == s@,
            absolute == is_absolute(s@),
            i <= n,
            char_vec_views(done@) == scan_segments(s@, i as nat).0,
            cur@ == scan_segments(s@, i as nat).1,
        decreases n - i,
    {
        let c = chars[i];
        if c == '/' {
            let mut taken: Vec<char> = Vec::new();
            std::mem::swap(&mut cur, &mut taken);
            let keep_dot = done.len() == 0 && !absolute;
            push_segment(&mut done, taken, keep_dot);
        } else {
            cur.push(c);
        }
        i = i + 1;
    }
    let keep_dot = done.len() == 0 && !absolute;
    push_segment(&mut done, cur, keep_dot);
    done
}

fn char_vecs_eq(a: &Vec<char>, b: &Vec<char>) -> (r: bool)
    ensures
        r == (a@ == b@),
{
    if a.len() != b.len() {
        return false;
    }
    let mut i: usize = 0;
    while i < a.len()
        invariant
            a@.len() == b@.len(),
            i <= a@.len(),
            forall|j: int| 0 <= j < i ==> a@[j] == b@[j],
        decreases a@.len() - i,
    {
        if a[i] != b[i] {
            return false;
        }
        i = i + 1;
    }
    assert(a@ =~= b@);
    true
}

/// Whether `path` lies within `base`, component by component.
pub fn path_starts_with(path: &str, base: &str) -> (r: bool)
    ensures
        r == path_within(path@, base@),
{
    let abs_p = path.unicode_len() > 0 && path.get_char(0) == '/';
    let abs_b = base.unicode_len() > 0 && base.get_char(0) == '/';
    if abs_p != abs_b {
        return false;
    }
    let p = segments_of(path);
    let b = segments_of(base);
    let ghost pv = char_vec_views(p@);
    let ghost bv = char_vec_views(b@);
    if b.len() > p.len() {
        return false;
    }
    let mut i: usize = 0;
    while i < b.len()
        invariant
            pv == char_vec_views(p@),
            bv == char_vec_views(b@),
            pv == path_segments(path@),
            bv == path_segments(base@),
            is_absolute(path@) == is_absolute(base@),
            b@.len() <= p@.len(),
            i <= b@.len(),
            forall|j: int| 0 <= j < i ==> pv[j] == bv[j],
        decreases b@.len() - i,
    {
        if !char_vecs_eq(&p[i], &b[i]) {
            assert(pv[i as int] == p@[i as int]@);
            assert(bv[i as int] == b@[i as int]@);
            assert(pv.subrange(0, bv.len() as int)[i as int] != bv[i as int]);
            return false;
        }
        i = i + 1;
    }
    assert(pv.subrange(0, bv.len() as int) =~= bv);
    true
}

/// Relies on std::path::Path::canonicalize: the canonical form of `path` as
/// the filesystem resolves it now, or `None` where that fails.
#[verifier::external_body]
fn canonical_path(path: &str) -> Option<String> {
    std::path::Path::new(path).canonicalize().ok().map(|p| p.to_string_lossy().into_owned())
}

fn copy_strings(items: &[&str]) -> (r: Vec<String>)
    ensures
        string_views(r@) == items@.map_values(|s: &str| s@),
{
    let mut v: Vec<String> = Vec::new();
    let mut i: usize = 0;
    while i < items.len()
        invariant
            i <= items@.len(),
            string_views(v@) == items@.subrange(0, i as int).map_values(|s: &str| s@),
        decreases items@.len() - i,
    {
        let ghost before = v@;
        v.push(items[i].to_owned());
        proof {
            assert(string_views(v@) =~= string_views(before).push(items@[i as int]@));
            assert(items@.subrange(0, i + 1).map_values(|s: &str| s@) =~= items@.subrange(
                0,
                i as int,
            ).map_values(|s: &str| s@).push(items@[i as int]@));
        }
        i = i + 1;
    }
    assert(items@.subrange(0, items@.len() as int) =~= items@);
    v
}

/// Policy for filesystem path access.
#[derive(Debug, Clone)]
pub enum PathPolicy {
    /// Deny all filesystem access.
    DenyAll,
    /// Allow only paths within the listed ones.
    AllowList(Vec<String>),
    /// Deny paths within the listed ones, allow all others.
    DenyList(Vec<String>),
    /// Allow all filesystem access.
    AllowAll,
}

/// Whether `path` lies within one of `bases`.
pub open spec fn within_any(path: Seq<char>, bases: Seq<Seq<char>>) -> bool {
    exists|i: int| 0 <= i < bases.len() && path_within(path, #[trigger] bases[i])
}

fn within_any_exec(path: &str, bases: &Vec<String>) -> (r: bool)
    ensures
        r == within_any(path@, string_views(bases@)),
{
    let ghost views = string_views(bases@);
    let mut i: usize = 0;
    while i < bases.len()
        invariant
            views == string_views(bases@),
            i <= bases@.len(),
            forall|j: int| 0 <= j < i ==> !path_within(path@, #[trigger] views[j]),
        decreases bases@.len() - i,
    {
        if path_starts_with(path, bases[i].as_str()) {
            assert(path_within(path@, views[i as int]));
            return true;
        }
        i = i + 1;
    }
    false
}

impl PathPolicy {
    /// The path a policy compares: the canonical form where canonicalizing
/// succeeded, else the path as written.
pub open spec fn resolved_path(path: Seq<char>, canonical: Option<Seq<char>>) -> Seq<char> {
    match canonical {
        Some(c) => c,
        None => path,
    }
}

/// Whether the policy admits a path that is already resolved.
    pub open spec fn spec_allows(&self, resolved: Seq<char>) -> bool {
        match self {
            PathPolicy::DenyAll => false,
            PathPolicy::AllowAll => true,
            PathPolicy::AllowList(v) => within_any(resolved, string_views(v@)),
            PathPolicy::DenyList(v) => !within_any(resolved, string_views(v@)),
        }
    }

    /// Check a path that has already been resolved against this policy.
    pub fn allows_resolved(&self, resolved: &str) -> (r: bool)
        ensures
            r == self.spec_allows(resolved@),
    {
        match self {
            PathPolicy::DenyAll => false,
            PathPolicy::AllowAll => true,
            PathPolicy::AllowList(v) => within_any_exec(resolved, v),
            PathPolicy::DenyList(v) => !within_any_exec(resolved, v),
        }
    }

    /// Check if a path is allowed: the path is resolved on the filesystem
    /// where possible, and taken as written otherwise.
    pub fn is_allowed(&self, path: &str) -> (r: bool)
        ensures
            self is DenyAll ==> !r,
            self is AllowAll ==> r,
            exists|canonical: Option<Seq<char>>|
                r == self.spec_allows(PathPolicy::resolved_path(path@, canonical)),
    {
        match self {
            PathPolicy::DenyAll => {
                assert(!self.spec_allows(PathPolicy::resolved_path(path@, None)));
                false
            },
            PathPolicy::AllowAll => {
                assert(self.spec_allows(PathPolicy::resolved_path(path@, None)));
                true
            },
            _ => {
                let canonical = canonical_path(path);
                let r = match &canonical {
                    Some(c) => self.allows_path(path, Some(c.as_str())),
                    None => self.allows_path(path, None),
                };
                proof {
                    let cv = match canonical {
                        Some(c) => Some(c@),
                        None => None,
                    };
                    assert(r == self.spec_allows(PathPolicy::resolved_path(path@, cv)));
                }
                r
            },
        }
    }

    /// Check a path against this policy given what canonicalizing it gave:
    /// the canonical form where there is one, else the path as written, so
    /// that the comparison is textual.
    pub fn allows_path(&self, path: &str, canonical: Option<&str>) -> (r: bool)
        ensures
            r == self.spec_allows(
                match canonical {
                    Some(c) => c@,
                    None => path@,
                },
            ),
    {
        match canonical {
            Some(c) => self.allows_resolved(c),
            None => self.allows_resolved(path),
        }
    }

    /// Create an allowlist policy with the given paths.
    pub fn allow(paths: &[&str]) -> (r: Self)
        ensures
            r matches PathPolicy::AllowList(v) && string_views(v@) == paths@.map_values(
                |s: &str| s@,
            ),
    {
        PathPolicy::AllowList(copy_strings(paths))
    }

    /// Create a denylist policy with the given paths.
    pub fn deny(paths: &[&str]) -> (r: Self)
        ensures
            r matches PathPolicy::DenyList(v) && string_views(v@) == paths@.map_values(
                |s: &str| s@,
            ),
    {
        PathPolicy::DenyList(copy_strings(paths))
    }
}

impl Default for PathPolicy {
    fn default() -> (r: Self)
        ensures
            r is DenyAll,
    {
        PathPolicy::DenyAll
    }
}

// ---------------------------------------------------------------------------
// Hosts
// ---------------------------------------------------------------------------

/// The lower-case form of a string, as `str::to_lowercase` computes it.
pub uninterp spec fn lower_of(s: Seq<char>) -> Seq<char>;

/// Relies on str::to_lowercase: the result depends on the characters alone.
#[verifier::external_body]
fn lowercase(s: &str) -> (r: String)
    ensures
        r@ == lower_of(s@),
{
    s.to_lowercase()
}

/// Whether a lower-cased host matches a lower-cased pattern: `*.domain`
/// matches `domain` itself and every name ending in `.domain`; any other
/// pattern matches only itself.
pub open spec fn host_matches(host: Seq<char>, pattern: Seq<char>) -> bool {
    if pattern.len() >= 2 && pattern[0] == '*' && pattern[1] == '.' {
        is_suffix(pattern.subrange(1, pattern.len() as int), host) || host == pattern.subrange(
            2,
            pattern.len() as int,
        )
    } else {
        host == pattern
    }
}

/// Match a lower-cased host against a lower-cased pattern.
pub fn host_matches_pattern(host: &str, pattern: &str) -> (r: bool)
    ensures
        r == host_matches(host@, pattern@),
{
    let n = pattern.unicode_len();
    if n >= 2 && pattern.get_char(0) == '*' && pattern.get_char(1) == '.' {
        let dotted = pattern.substring_char(1, n);
        let bare = pattern.substring_char(2, n);
        ends_with(host, dotted) || str_eq(host, bare)
    } else {
        str_eq(host, pattern)
    }
}

/// Whether `host` matches one of `patterns`, both compared in lower case.
pub open spec fn matches_any(host: Seq<char>, patterns: Seq<Seq<char>>) -> bool {
    exists|i: int|
        0 <= i < patterns.len() && host_matches(lower_of(host), lower_of(#[trigger] patterns[i]))
}

fn matches_any_exec(host: &str, patterns: &Vec<String>) -> (r: bool)
    ensures
        r == matches_any(host@, string_views(patterns@)),
{
    let ghost views = string_views(patterns@);
    let host_lower = lowercase(host);
    let mut i: usize = 0;
    while i < patterns.len()
        invariant
            views == string_views(patterns@),
            host_lower@ == lower_of(host@),
            i <= patterns@.len(),
            forall|j: int|
                0 <= j < i ==> !host_matches(lower_of(host@), lower_of(#[trigger] views[j])),
        decreases patterns@.len() - i,
    {
        let pattern_lower = lowercase(patterns[i].as_str());
        if host_matches_pattern(host_lower.as_str(), pattern_lower.as_str()) {
            assert(host_matches(lower_of(host@), lower_of(views[i as int])));
            return true;
        }
        i = i + 1;
    }
    false
}

/// Policy for network access.
#[derive(Debug, Clone)]
pub enum NetPolicy {
    /// Deny all network access.
    DenyAll,
    /// Allow only matching hosts.
    AllowList(Vec<String>),
    /// Deny matching hosts, allow all others.
    DenyList(Vec<String>),
    /// Allow all network access.
    AllowAll,
}

impl NetPolicy {
    /// Whether the policy admits `host`.
    pub open spec fn spec_allows(&self, host: Seq<char>) -> bool {
        match self {
            NetPolicy::DenyAll => false,
            NetPolicy::AllowAll => true,
            NetPolicy::AllowList(v) => matches_any(host, string_views(v@)),
            NetPolicy::DenyList(v) => !matches_any(host, string_views(v@)),
        }
    }

    /// Check if a host is allowed by this policy.
    pub fn is_allowed(&self, host: &str) -> (r: bool)
        ensures
            r == self.spec_allows(host@),
    {
        match self {
            NetPolicy::DenyAll => false,
            NetPolicy::AllowAll => true,
            NetPolicy::AllowList(v) => matches_any_exec(host, v),
            NetPolicy::DenyList(v) => !matches_any_exec(host, v),
        }
    }

    /// Create an allowlist policy with the given hosts.
    pub fn allow(hosts: &[&str]) -> (r: Self)
        ensures
            r matches NetPolicy::AllowList(v) && string_views(v@) == hosts@.map_values(
                |s: &str| s@,
            ),
    {
        NetPolicy::AllowList(copy_strings(hosts))
    }

    /// Create a denylist policy with the given hosts.
    pub fn deny(hosts: &[&str]) -> (r: Self)
        ensures
            r matches NetPolicy::DenyList(v) && string_views(v@) == hosts@.map_values(
                |s: &str| s@,
            ),
    {
        NetPolicy::DenyList(copy_strings(hosts))
    }
}

impl Default for NetPolicy {
    fn default() -> (r: Self)
        ensures
            r is DenyAll,
    {
        NetPolicy::DenyAll
    }
}

// ---------------------------------------------------------------------------
// Configuration and enforcement
// ---------------------------------------------------------------------------

/// Whether `name` is one of `names`.
pub open spec fn listed(name: Seq<char>, names: Seq<Seq<char>>) -> bool {
    exists|i: int| 0 <= i < names.len() && #[trigger] names[i] == name
}

fn listed_exec(name: &str, names: &Vec<String>) -> (r: bool)
    ensures
        r == listed(name@, string_views(names@)),
{
    let ghost views = string_views(names@);
    let mut i: usize = 0;
    while i < names.len()
        invariant
            views == string_views(names@),
            i <= names@.len(),
            forall|j: int| 0 <= j < i ==> #[trigger] views[j] != name@,
        decreases names@.len() - i,
    {
        if str_eq(names[i].as_str(), name) {
            assert(views[i as int] == name@);
            return true;
        }
        i = i + 1;
    }
    false
}

/// Configuration for the sandbox environment.
#[derive(Debug, Clone)]
pub struct SandboxConfig {
    /// Policy for filesystem read access.
    pub fs_read: PathPolicy,
    /// Policy for filesystem write access.
    pub fs_write: PathPolicy,
    /// Policy for outgoing network requests.
    pub net_outgoing: NetPolicy,
    /// Policy for incoming network connections.
    pub net_incoming: NetPolicy,
    /// Allowed environment variable names; `None` leaves every variable accessible.
    pub env_vars: Option<Vec<String>>,
    /// Working directory for the script.
    pub working_dir: Option<String>,
    /// Whether to isolate the temp directory.
    pub isolate_temp: bool,
}

impl Default for SandboxConfig {
    fn default() -> (r: Self)
        ensures
            r.fs_read is DenyAll,
            r.fs_write is DenyAll,
            r.net_outgoing is DenyAll,
            r.net_incoming is DenyAll,
            r.env_vars is None,
            r.working_dir is None,
            !r.isolate_temp,
    {
        SandboxConfig {
            fs_read: PathPolicy::DenyAll,
            fs_write: PathPolicy::DenyAll,
            net_outgoing: NetPolicy::DenyAll,
            net_incoming: NetPolicy::DenyAll,
            env_vars: None,
            working_dir: None,
            isolate_temp: false,
        }
    }
}

impl SandboxConfig {
    /// Whether the environment variable `name` is accessible.
    pub open spec fn spec_can_access_env(&self, name: Seq<char>) -> bool {
        match self.env_vars {
            None => true,
            Some(v) => listed(name, string_views(v@)),
        }
    }

    /// Create a completely locked-down sandbox configuration.
    pub fn locked() -> (r: Self)
        ensures
            r.fs_read is DenyAll,
            r.fs_write is DenyAll,
            r.net_outgoing is DenyAll,
            r.net_incoming is DenyAll,
            r.env_vars matches Some(v) && v@.len() == 0,
            r.working_dir is None,
            r.isolate_temp,
    {
        SandboxConfig {
            fs_read: PathPolicy::DenyAll,
            fs_write: PathPolicy::DenyAll,
            net_outgoing: NetPolicy::DenyAll,
            net_incoming: NetPolicy::DenyAll,
            env_vars: Some(Vec::new()),
            working_dir: None,
            isolate_temp: true,
        }
    }

    /// Create a permissive sandbox configuration.
    pub fn permissive() -> (r: Self)
        ensures
            r.fs_read is AllowAll,
            r.fs_write is AllowAll,
            r.net_outgoing is AllowAll,
            r.net_incoming is AllowAll,
            r.env_vars is None,
            r.working_dir is None,
            !r.isolate_temp,
    {
        SandboxConfig {
            fs_read: PathPolicy::AllowAll,
            fs_write: PathPolicy::AllowAll,
            net_outgoing: NetPolicy::AllowAll,
            net_incoming: NetPolicy::AllowAll,
            env_vars: None,
            working_dir: None,
            isolate_temp: false,
        }
    }

    /// Allow reading from the given paths only.
    pub fn with_read_paths(self, paths: &[&str]) -> (r: Self)
        ensures
            r.fs_read matches PathPolicy::AllowList(v) && string_views(v@) == paths@.map_values(
                |s: &str| s@,
            ),
            r.fs_write == self.fs_write,
            r.net_outgoing == self.net_outgoing,
            r.net_incoming == self.net_incoming,
            r.env_vars == self.env_vars,
            r.working_dir == self.working_dir,
            r.isolate_temp == self.isolate_temp,
    {
        SandboxConfig { fs_read: PathPolicy::allow(paths), ..self }
    }

    /// Allow writing to the given paths only.
    pub fn with_write_paths(self, paths: &[&str]) -> (r: Self)
        ensures
            r.fs_write matches PathPolicy::AllowList(v) && string_views(v@) == paths@.map_values(
                |s: &str| s@,
            ),
            r.fs_read == self.fs_read,
            r.net_outgoing == self.net_outgoing,
            r.net_incoming == self.net_incoming,
            r.env_vars == self.env_vars,
            r.working_dir == self.working_dir,
            r.isolate_temp == self.isolate_temp,
    {
        SandboxConfig { fs_write: PathPolicy::allow(paths), ..self }
    }

    /// Allow outgoing requests to the given hosts only.
    pub fn with_allowed_hosts(self, hosts: &[&str]) -> (r: Self)
        ensures
            r.net_outgoing matches NetPolicy::AllowList(v) && string_views(v@)
                == hosts@.map_values(|s: &str| s@),
            r.fs_read == self.fs_read,
            r.fs_write == self.fs_write,
            r.net_incoming == self.net_incoming,
            r.env_vars == self.env_vars,
            r.working_dir == self.working_dir,
            r.isolate_temp == self.isolate_temp,
    {
        SandboxConfig { net_outgoing: NetPolicy::allow(hosts), ..self }
    }

    /// Allow access to the given environment variables only.
    pub fn with_env_vars(self, vars: &[&str]) -> (r: Self)
        ensures
            r.env_vars matches Some(v) && string_views(v@) == vars@.map_values(|s: &str| s@),
            r.fs_read == self.fs_read,
            r.fs_write == self.fs_write,
            r.net_outgoing == self.net_outgoing,
            r.net_incoming == self.net_incoming,
            r.working_dir == self.working_dir,
            r.isolate_temp == self.isolate_temp,
    {
        SandboxConfig { env_vars: Some(copy_strings(vars)), ..self }
    }

    /// Set the working directory.
    pub fn with_working_dir(self, path: &str) -> (r: Self)
        ensures
            r.working_dir matches Some(d) && d@ == path@,
            r.fs_read == self.fs_read,
            r.fs_write == self.fs_write,
            r.net_outgoing == self.net_outgoing,
            r.net_incoming == self.net_incoming,
            r.env_vars == self.env_vars,
            r.isolate_temp == self.isolate_temp,
    {
        SandboxConfig { working_dir: Some(path.to_owned()), ..self }
    }

    /// Enable temp directory isolation.
    pub fn with_temp_isolation(self) -> (r: Self)
        ensures
            r.isolate_temp,
            r.fs_read == self.fs_read,
            r.fs_write == self.fs_write,
            r.net_outgoing == self.net_outgoing,
            r.net_incoming == self.net_incoming,
            r.env_vars == self.env_vars,
            r.working_dir == self.working_dir,
    {
        SandboxConfig { isolate_temp: true, ..self }
    }

    /// Check if reading from a path is allowed.
    pub fn can_read(&self, path: &str) -> (r: bool)
        ensures
            self.fs_read is DenyAll ==> !r,
            self.fs_read is AllowAll ==> r,
            exists|canonical: Option<Seq<char>>|
                r == self.fs_read.spec_allows(PathPolicy::resolved_path(path@, canonical)),
    {
        self.fs_read.is_allowed(path)
    }

    /// Check if writing to a path is allowed.
    pub fn can_write(&self, path: &str) -> (r: bool)
        ensures
            self.fs_write is DenyAll ==> !r,
            self.fs_write is AllowAll ==> r,
            exists|canonical: Option<Seq<char>>|
                r == self.fs_write.spec_allows(PathPolicy::resolved_path(path@, canonical)),
    {
        self.fs_write.is_allowed(path)
    }

    /// Check if connecting to a host is allowed.
    pub fn can_connect(&self, host: &str) -> (r: bool)
        ensures
            r == self.net_outgoing.spec_allows(host@),
    {
        self.net_outgoing.is_allowed(host)
    }

    /// Check if an environment variable is accessible.
    pub fn can_access_env(&self, name: &str) -> (r: bool)
        ensures
            r == self.spec_can_access_env(name@),
    {
        match &self.env_vars {
            None => true,
            Some(allowed) => listed_exec(name, allowed),
        }
    }
}

/// `prefix` followed by `subject`, as a new string.
pub(crate) fn denial(prefix: &str, subject: &str) -> (r: String)
    ensures
        r@ == prefix@ + subject@,
{
    let mut m = String::from_str(prefix);
    m.append(subject);
    m
}

/// The enforcement object built from a [`SandboxConfig`], with the isolated
/// directory that was created for it, if any.
#[derive(Debug)]
pub struct Sandbox {
    config: SandboxConfig,
    temp_dir: Option<String>,
}

impl Sandbox {
    /// Assemble a sandbox from its configuration and the isolated directory
    /// already created for it.
    pub fn from_parts(config: SandboxConfig, temp_dir: Option<String>) -> (r: Sandbox)
        ensures
            r.spec_config() == config,
            r.spec_temp_dir() == temp_dir,
    {
        Sandbox { config, temp_dir }
    }

    /// The configuration enforced.
    pub closed spec fn spec_config(&self) -> SandboxConfig {
        self.config
    }

    /// The isolated directory, if any.
    pub closed spec fn spec_temp_dir(&self) -> Option<String> {
        self.temp_dir
    }

    /// Get the sandbox configuration.
    pub fn config(&self) -> (r: &SandboxConfig)
        ensures
            *r == self.spec_config(),
    {
        &self.config
    }

    /// Get the isolated temp directory, if any.
    pub fn temp_dir(&self) -> (r: Option<&str>)
        ensures
            match self.spec_temp_dir() {
                Some(d) => r matches Some(s) && s@ == d@,
                None => r is None,
            },
    {
        match &self.temp_dir {
            Some(d) => Some(d.as_str()),
            None => None,
        }
    }

    /// Check read permission and return an error if denied.
    pub fn check_read(&self, path: &str) -> (r: Result<(), Error>)
        ensures
            self.spec_config().fs_read is DenyAll ==> r is Err,
            self.spec_config().fs_read is AllowAll ==> r is Ok,
            exists|canonical: Option<Seq<char>>|
                (r is Ok) == self.spec_config().fs_read.spec_allows(PathPolicy::resolved_path(path@, canonical)),
            r matches Err(e) ==> e matches Error::SandboxViolation(m) && m@ == "read access denied: "@
                + path@,
    {
        if self.config.can_read(path) {
            Ok(())
        } else {
            Err(Error::SandboxViolation(denial("read access denied: ", path)))
        }
    }

    /// Check write permission and return an error if denied.
    pub fn check_write(&self, path: &str) -> (r: Result<(), Error>)
        ensures
            self.spec_config().fs_write is DenyAll ==> r is Err,
            self.spec_config().fs_write is AllowAll ==> r is Ok,
            exists|canonical: Option<Seq<char>>|
                (r is Ok) == self.spec_config().fs_write.spec_allows(PathPolicy::resolved_path(path@, canonical)),
            r matches Err(e) ==> e matches Error::SandboxViolation(m) && m@
                == "write access denied: "@ + path@,
    {
        if self.config.can_write(path) {
            Ok(())
        } else {
            Err(Error::SandboxViolation(denial("write access denied: ", path)))
        }
    }

    /// Check network connection permission and return an error if denied.
    pub fn check_connect(&self, host: &str) -> (r: Result<(), Error>)
        ensures
            (r is Ok) == self.spec_config().net_outgoing.spec_allows(host@),
            r matches Err(e) ==> e matches Error::SandboxViolation(m) && m@
                == "network access denied: "@ + host@,
    {
        if self.config.can_connect(host) {
            Ok(())
        } else {
            Err(Error::SandboxViolation(denial("network access denied: ", host)))
        }
    }

    /// Check environment variable access and return an error if denied.
    pub fn check_env(&self, name: &str) -> (r: Result<(), Error>)
        ensures
            (r is Ok) == self.spec_config().spec_can_access_env(name@),
            r matches Err(e) ==> e matches Error::SandboxViolation(m) && m@
                == "environment variable access denied: "@ + name@,
    {
        if self.config.can_access_env(name) {
            Ok(())
        } else {
            Err(Error::SandboxViolation(denial("environment variable access denied: ", name)))
        }
    }
}

} // verus!
