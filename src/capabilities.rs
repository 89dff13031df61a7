//! Capability flags and capability sets.
use vstd::prelude::*;
use crate::error::Error;

verus! {

/// Number of distinct capabilities.
pub const CAPABILITY_COUNT: u32 = 18;

/// One permission that a script may be granted.
#[derive(Debug, Clone, Copy, PartialEq, Eq, Hash, Structural)]
#[non_exhaustive]
pub enum Capability {
    /// Read from the filesystem.
    FsRead,
    /// Write to the filesystem.
    FsWrite,
    /// Execute filesystem operations (list, delete, etc.).
    FsExecute,
    /// Make network requests.
    NetRequest,
    /// Listen on network ports.
    NetListen,
    /// Execute system processes.
    ProcessExec,
    /// Read environment variables.
    EnvRead,
    /// Modify environment variables.
    EnvWrite,
    /// Read the system time.
    TimeRead,
    /// Use random number generation.
    Random,
    /// Read standard input.
    StdinRead,
    /// Write standard output.
    StdoutWrite,
    /// Write standard error.
    StderrWrite,
    /// Use metrics APIs.
    Metrics,
    /// Use logging APIs.
    Logging,
    /// Spawn asynchronous tasks.
    AsyncSpawn,
    /// Use cryptographic operations.
    Crypto,
    /// Use serialization.
    Serialize,
}

impl Capability {
    /// Position of the capability in the canonical order.
    pub open spec fn index(self) -> u32 {
        match self {
            Capability::FsRead => 0,
            Capability::FsWrite => 1,
            Capability::FsExecute => 2,
            Capability::NetRequest => 3,
            Capability::NetListen => 4,
            Capability::ProcessExec => 5,
            Capability::EnvRead => 6,
            Capability::EnvWrite => 7,
            Capability::TimeRead => 8,
            Capability::Random => 9,
            Capability::StdinRead => 10,
            Capability::StdoutWrite => 11,
            Capability::StderrWrite => 12,
            Capability::Metrics => 13,
            Capability::Logging => 14,
            Capability::AsyncSpawn => 15,
            Capability::Crypto => 16,
            Capability::Serialize => 17,
        }
    }

    /// The capability at a position of the canonical order.
    pub open spec fn at_index(i: u32) -> Capability
        recommends
            i < CAPABILITY_COUNT,
    {
        if i == 0 {
            Capability::FsRead
        } else if i == 1 {
            Capability::FsWrite
        } else if i == 2 {
            Capability::FsExecute
        } else if i == 3 {
            Capability::NetRequest
        } else if i == 4 {
            Capability::NetListen
        } else if i == 5 {
            Capability::ProcessExec
        } else if i == 6 {
            Capability::EnvRead
        } else if i == 7 {
            Capability::EnvWrite
        } else if i == 8 {
            Capability::TimeRead
        } else if i == 9 {
            Capability::Random
        } else if i == 10 {
            Capability::StdinRead
        } else if i == 11 {
            Capability::StdoutWrite
        } else if i == 12 {
            Capability::StderrWrite
        } else if i == 13 {
            Capability::Metrics
        } else if i == 14 {
            Capability::Logging
        } else if i == 15 {
            Capability::AsyncSpawn
        } else if i == 16 {
            Capability::Crypto
        } else {
            Capability::Serialize
        }
    }

    /// The capability's string name.
    pub open spec fn spec_name(self) -> Seq<char> {
        match self {
            Capability::FsRead => "fs:read"@,
            Capability::FsWrite => "fs:write"@,
            Capability::FsExecute => "fs:execute"@,
            Capability::NetRequest => "net:request"@,
            Capability::NetListen => "net:listen"@,
            Capability::ProcessExec => "process:exec"@,
            Capability::EnvRead => "env:read"@,
            Capability::EnvWrite => "env:write"@,
            Capability::TimeRead => "time:read"@,
            Capability::Random => "random"@,
            Capability::StdinRead => "stdin:read"@,
            Capability::StdoutWrite => "stdout:write"@,
            Capability::StderrWrite => "stderr:write"@,
            Capability::Metrics => "metrics"@,
            Capability::Logging => "logging"@,
            Capability::AsyncSpawn => "async:spawn"@,
            Capability::Crypto => "crypto"@,
            Capability::Serialize => "serialize"@,
        }
    }

    /// Write, execute and listen class capabilities.
    pub open spec fn spec_is_dangerous(self) -> bool {
        match self {
            Capability::FsWrite | Capability::ProcessExec | Capability::NetListen
            | Capability::EnvWrite => true,
            _ => false,
        }
    }

    /// The capability named by `s`, if any.
    pub open spec fn spec_from_name(s: Seq<char>) -> Option<Capability> {
        if exists|c: Capability| c.spec_name() == s {
            Some(choose|c: Capability| c.spec_name() == s)
        } else {
            None
        }
    }

    /// The capability at position `i` of the canonical order.
    pub fn from_index(i: u32) -> (c: Capability)
        requires
            i < CAPABILITY_COUNT,
        ensures
            c == Capability::at_index(i),
            c.index() == i,
    {
        if i == 0 {
            Capability::FsRead
        } else if i == 1 {
            Capability::FsWrite
        } else if i == 2 {
            Capability::FsExecute
        } else if i == 3 {
            Capability::NetRequest
        } else if i == 4 {
            Capability::NetListen
        } else if i == 5 {
            Capability::ProcessExec
        } else if i == 6 {
            Capability::EnvRead
        } else if i == 7 {
            Capability::EnvWrite
        } else if i == 8 {
            Capability::TimeRead
        } else if i == 9 {
            Capability::Random
        } else if i == 10 {
            Capability::StdinRead
        } else if i == 11 {
            Capability::StdoutWrite
        } else if i == 12 {
            Capability::StderrWrite
        } else if i == 13 {
            Capability::Metrics
        } else if i == 14 {
            Capability::Logging
        } else if i == 15 {
            Capability::AsyncSpawn
        } else if i == 16 {
            Capability::Crypto
        } else {
            Capability::Serialize
        }
    }

    /// Position of the capability in the canonical order.
    pub fn index_exec(&self) -> (r: u32)
        ensures
            r == self.index(),
            r < CAPABILITY_COUNT,
    {
        match self {
            Capability::FsRead => 0,
            Capability::FsWrite => 1,
            Capability::FsExecute => 2,
            Capability::NetRequest => 3,
            Capability::NetListen => 4,
            Capability::ProcessExec => 5,
            Capability::EnvRead => 6,
            Capability::EnvWrite => 7,
            Capability::TimeRead => 8,
            Capability::Random => 9,
            Capability::StdinRead => 10,
            Capability::StdoutWrite => 11,
            Capability::StderrWrite => 12,
            Capability::Metrics => 13,
            Capability::Logging => 14,
            Capability::AsyncSpawn => 15,
            Capability::Crypto => 16,
            Capability::Serialize => 17,
        }
    }

    /// Parse a capability from its string name.
    pub fn from_name(name: &str) -> (r: Option<Capability>)
        ensures
            r == Capability::spec_from_name(name@),
    {
        let mut i: u32 = 0;
        while i < CAPABILITY_COUNT
            invariant
                i <= CAPABILITY_COUNT,
                forall|j: u32| j < i ==> Capability::at_index(j).spec_name() != name@,
            decreases CAPABILITY_COUNT - i,
        {
            let c = Capability::from_index(i);
            if crate::text::str_eq(name, c.name()) {
                proof {
                    let d = choose|d: Capability| d.spec_name() == name@;
                    lemma_name_injective(c, d);
                }
                return Some(c);
            }
            i = i + 1;
        }
        assert forall|c: Capability| c.spec_name() != name@ by {
            assert(Capability::at_index(c.index()) == c);
        }
        None
    }

    /// Returns true if this is a dangerous capability.
    pub fn is_dangerous(&self) -> (r: bool)
        ensures
            r == self.spec_is_dangerous(),
    {
        match self {
            Capability::FsWrite | Capability::ProcessExec | Capability::NetListen
            | Capability::EnvWrite => true,
            _ => false,
        }
    }

    /// All capabilities, in canonical order.
    pub fn all() -> (r: &'static [Capability])
        ensures
            r@.len() == CAPABILITY_COUNT,
            forall|i: int| 0 <= i < r@.len() ==> #[trigger] r@[i] == Capability::at_index(i as u32),
    {
        let r: &'static [Capability] = &[
            Capability::FsRead,
            Capability::FsWrite,
            Capability::FsExecute,
            Capability::NetRequest,
            Capability::NetListen,
            Capability::ProcessExec,
            Capability::EnvRead,
            Capability::EnvWrite,
            Capability::TimeRead,
            Capability::Random,
            Capability::StdinRead,
            Capability::StdoutWrite,
            Capability::StderrWrite,
            Capability::Metrics,
            Capability::Logging,
            Capability::AsyncSpawn,
            Capability::Crypto,
            Capability::Serialize,
        ];
        r
    }

    /// Get the string name of this capability.
    pub fn name(&self) -> (r: &'static str)
        ensures
            r@ == self.spec_name(),
    {
        match self {
            Capability::FsRead => "fs:read",
            Capability::FsWrite => "fs:write",
            Capability::FsExecute => "fs:execute",
            Capability::NetRequest => "net:request",
            Capability::NetListen => "net:listen",
            Capability::ProcessExec => "process:exec",
            Capability::EnvRead => "env:read",
            Capability::EnvWrite => "env:write",
            Capability::TimeRead => "time:read",
            Capability::Random => "random",
            Capability::StdinRead => "stdin:read",
            Capability::StdoutWrite => "stdout:write",
            Capability::StderrWrite => "stderr:write",
            Capability::Metrics => "metrics",
            Capability::Logging => "logging",
            Capability::AsyncSpawn => "async:spawn",
            Capability::Crypto => "crypto",
            Capability::Serialize => "serialize",
        }
    }
}

/// Distinct capabilities have distinct names.
pub proof fn lemma_name_injective(a: Capability, b: Capability)
    ensures
        a.spec_name() == b.spec_name() ==> a == b,
{
    reveal_strlit("fs:read");
    reveal_strlit("fs:write");
    reveal_strlit("fs:execute");
    reveal_strlit("net:request");
    reveal_strlit("net:listen");
    reveal_strlit("process:exec");
    reveal_strlit("env:read");
    reveal_strlit("env:write");
    reveal_strlit("time:read");
    reveal_strlit("random");
    reveal_strlit("stdin:read");
    reveal_strlit("stdout:write");
    reveal_strlit("stderr:write");
    reveal_strlit("metrics");
    reveal_strlit("logging");
    reveal_strlit("async:spawn");
    reveal_strlit("crypto");
    reveal_strlit("serialize");
    if a.spec_name() == b.spec_name() {
        let n = a.spec_name();
        assert(n.len() == b.spec_name().len());
        assert(n[0] == b.spec_name()[0]);
        assert(n[1] == b.spec_name()[1]);
        assert(n[2] == b.spec_name()[2]);
        assert(n[3] == b.spec_name()[3]);
        assert(n[4] == b.spec_name()[4]);
    }
}

/// Whether bit `i` of `bits` is set.
pub open spec fn bit_set(bits: u32, i: u32) -> bool {
    (bits >> i) & 1u32 == 1u32
}

/// Mask with one bit for each capability.
pub const ALL_BITS: u32 = 0x3FFFF;

proof fn lemma_bit_or(a: u32, b: u32, i: u32)
    requires
        i < 32,
    ensures
        bit_set(a | b, i) == (bit_set(a, i) || bit_set(b, i)),
        a <= ALL_BITS && b <= ALL_BITS ==> a | b <= ALL_BITS,
{
    assert(((a | b) >> i) & 1u32 == 1u32 <==> ((a >> i) & 1u32 == 1u32 || (b >> i) & 1u32
        == 1u32)) by (bit_vector)
        requires
            i < 32,
    ;
    assert(a <= 0x3FFFFu32 && b <= 0x3FFFFu32 ==> a | b <= 0x3FFFFu32) by (bit_vector);
}

proof fn lemma_bit_and(a: u32, b: u32, i: u32)
    requires
        i < 32,
    ensures
        bit_set(a & b, i) == (bit_set(a, i) && bit_set(b, i)),
        a <= ALL_BITS ==> a & b <= ALL_BITS,
{
    assert(((a & b) >> i) & 1u32 == 1u32 <==> ((a >> i) & 1u32 == 1u32 && (b >> i) & 1u32
        == 1u32)) by (bit_vector)
        requires
            i < 32,
    ;
    assert(a <= 0x3FFFFu32 ==> a & b <= 0x3FFFFu32) by (bit_vector);
}

proof fn lemma_bit_single(a: u32, j: u32, i: u32)
    requires
        i < 32,
        j < 18,
    ensures
        bit_set(a | (1u32 << j), i) == (i == j || bit_set(a, i)),
        bit_set(a & !(1u32 << j), i) == (i != j && bit_set(a, i)),
        a <= ALL_BITS ==> a | (1u32 << j) <= ALL_BITS,
        a <= ALL_BITS ==> a & !(1u32 << j) <= ALL_BITS,
{
    assert(((a | (1u32 << j)) >> i) & 1u32 == 1u32 <==> (i == j || (a >> i) & 1u32 == 1u32))
        by (bit_vector)
        requires
            i < 32,
            j < 18,
    ;
    assert(((a & !(1u32 << j)) >> i) & 1u32 == 1u32 <==> (i != j && (a >> i) & 1u32 == 1u32))
        by (bit_vector)
        requires
            i < 32,
            j < 18,
    ;
    assert(a <= 0x3FFFFu32 ==> a | (1u32 << j) <= 0x3FFFFu32) by (bit_vector)
        requires
            j < 18,
    ;
    assert(a <= 0x3FFFFu32 ==> a & !(1u32 << j) <= 0x3FFFFu32) by (bit_vector);
}

proof fn lemma_bit_constants(i: u32)
    requires
        i < 18,
    ensures
        !bit_set(0, i),
        bit_set(ALL_BITS, i),
{
    assert((0u32 >> i) & 1u32 != 1u32) by (bit_vector);
    assert((0x3FFFFu32 >> i) & 1u32 == 1u32) by (bit_vector)
        requires
            i < 18,
    ;
}

proof fn lemma_bits_ext(a: u32, b: u32)
    requires
        a <= ALL_BITS,
        b <= ALL_BITS,
        forall|i: u32| i < 18 ==> bit_set(a, i) == bit_set(b, i),
    ensures
        a == b,
{
    let e0 = bit_set(a, 0) == bit_set(b, 0);
    let e1 = bit_set(a, 1) == bit_set(b, 1);
    let e2 = bit_set(a, 2) == bit_set(b, 2);
    let e3 = bit_set(a, 3) == bit_set(b, 3);
    let e4 = bit_set(a, 4) == bit_set(b, 4);
    let e5 = bit_set(a, 5) == bit_set(b, 5);
    let e6 = bit_set(a, 6) == bit_set(b, 6);
    let e7 = bit_set(a, 7) == bit_set(b, 7);
    let e8 = bit_set(a, 8) == bit_set(b, 8);
    let e9 = bit_set(a, 9) == bit_set(b, 9);
    let e10 = bit_set(a, 10) == bit_set(b, 10);
    let e11 = bit_set(a, 11) == bit_set(b, 11);
    let e12 = bit_set(a, 12) == bit_set(b, 12);
    let e13 = bit_set(a, 13) == bit_set(b, 13);
    let e14 = bit_set(a, 14) == bit_set(b, 14);
    let e15 = bit_set(a, 15) == bit_set(b, 15);
    let e16 = bit_set(a, 16) == bit_set(b, 16);
    let e17 = bit_set(a, 17) == bit_set(b, 17);
    assert(e0 && e1 && e2 && e3 && e4 && e5 && e6 && e7 && e8 && e9 && e10 && e11 && e12 && e13
        && e14 && e15 && e16 && e17);
    assert(a == b) by (bit_vector)
        requires
            a <= 0x3FFFFu32,
            b <= 0x3FFFFu32,
            ((a >> 0u32) & 1u32 == 1u32) == ((b >> 0u32) & 1u32 == 1u32),
            ((a >> 1u32) & 1u32 == 1u32) == ((b >> 1u32) & 1u32 == 1u32),
            ((a >> 2u32) & 1u32 == 1u32) == ((b >> 2u32) & 1u32 == 1u32),
            ((a >> 3u32) & 1u32 == 1u32) == ((b >> 3u32) & 1u32 == 1u32),
            ((a >> 4u32) & 1u32 == 1u32) == ((b >> 4u32) & 1u32 == 1u32),
            ((a >> 5u32) & 1u32 == 1u32) == ((b >> 5u32) & 1u32 == 1u32),
            ((a >> 6u32) & 1u32 == 1u32) == ((b >> 6u32) & 1u32 == 1u32),
            ((a >> 7u32) & 1u32 == 1u32) == ((b >> 7u32) & 1u32 == 1u32),
            ((a >> 8u32) & 1u32 == 1u32) == ((b >> 8u32) & 1u32 == 1u32),
            ((a >> 9u32) & 1u32 == 1u32) == ((b >> 9u32) & 1u32 == 1u32),
            ((a >> 10u32) & 1u32 == 1u32) == ((b >> 10u32) & 1u32 == 1u32),
            ((a >> 11u32) & 1u32 == 1u32) == ((b >> 11u32) & 1u32 == 1u32),
            ((a >> 12u32) & 1u32 == 1u32) == ((b >> 12u32) & 1u32 == 1u32),
            ((a >> 13u32) & 1u32 == 1u32) == ((b >> 13u32) & 1u32 == 1u32),
            ((a >> 14u32) & 1u32 == 1u32) == ((b >> 14u32) & 1u32 == 1u32),
            ((a >> 15u32) & 1u32 == 1u32) == ((b >> 15u32) & 1u32 == 1u32),
            ((a >> 16u32) & 1u32 == 1u32) == ((b >> 16u32) & 1u32 == 1u32),
            ((a >> 17u32) & 1u32 == 1u32) == ((b >> 17u32) & 1u32 == 1u32),
    ;
}

/// A set of capabilities granted to a script.
#[derive(Debug, Clone, Copy, Eq)]
pub struct Capabilities {
    bits: u32,
}

impl View for Capabilities {
    type V = Set<Capability>;

    closed spec fn view(&self) -> Set<Capability> {
        Set::new(|c: Capability| bit_set(self.bits, c.index()))
    }
}

impl Capabilities {
    #[verifier::type_invariant]
    spec fn inv(self) -> bool {
        self.bits <= ALL_BITS
    }

    /// Create an empty capability set (no permissions).
    pub fn none() -> (r: Self)
        ensures
            r@ == Set::<Capability>::empty(),
    {
        let r = Capabilities { bits: 0 };
        proof {
            assert forall|c: Capability| !r@.contains(c) by {
                lemma_bit_constants(c.index());
            }
            assert(r@ =~= Set::<Capability>::empty());
        }
        r
    }

    /// Create a capability set with all permissions.
    pub fn all() -> (r: Self)
        ensures
            r@ == Set::<Capability>::full(),
    {
        let r = Capabilities { bits: ALL_BITS };
        proof {
            assert forall|c: Capability| r@.contains(c) by {
                lemma_bit_constants(c.index());
            }
            assert(r@ =~= Set::<Capability>::full());
        }
        r
    }

    /// Add a capability.
    pub fn with(self, cap: Capability) -> (r: Self)
        ensures
            r@ == self@.insert(cap),
    {
        proof {
            use_type_invariant(&self);
        }
        let idx = cap.index_exec();
        let bits = self.bits | (1u32 << idx);
        proof {
            lemma_bit_single(self.bits, idx, 0);
        }
        let r = Capabilities { bits };
        proof {
            assert forall|c: Capability| r@.contains(c) == self@.insert(cap).contains(c) by {
                lemma_bit_single(self.bits, idx, c.index());
            }
            lemma_bit_single(self.bits, idx, 0);
            assert(r@ =~= self@.insert(cap));
        }
        r
    }

    /// Remove a capability.
    pub fn without(self, cap: Capability) -> (r: Self)
        ensures
            r@ == self@.remove(cap),
    {
        proof {
            use_type_invariant(&self);
        }
        let idx = cap.index_exec();
        let bits = self.bits & !(1u32 << idx);
        proof {
            lemma_bit_single(self.bits, idx, 0);
        }
        let r = Capabilities { bits };
        proof {
            assert forall|c: Capability| r@.contains(c) == self@.remove(cap).contains(c) by {
                lemma_bit_single(self.bits, idx, c.index());
            }
            lemma_bit_single(self.bits, idx, 0);
            assert(r@ =~= self@.remove(cap));
        }
        r
    }

    /// Grant a capability in place.
    pub fn grant(&mut self, cap: Capability)
        ensures
            final(self)@ == old(self)@.insert(cap),
    {
        *self = self.with(cap);
    }

    /// Revoke a capability in place.
    pub fn revoke(&mut self, cap: Capability)
        ensures
            final(self)@ == old(self)@.remove(cap),
    {
        *self = self.without(cap);
    }

    /// Check if a capability is granted.
    pub fn has(&self, cap: Capability) -> (r: bool)
        ensures
            r == self@.contains(cap),
    {
        let idx = cap.index_exec();
        (self.bits >> idx) & 1u32 == 1u32
    }

    /// Time, random, standard output and error, logging and serialization.
    pub open spec fn spec_safe_defaults() -> Set<Capability> {
        set![
            Capability::TimeRead,
            Capability::Random,
            Capability::StdoutWrite,
            Capability::StderrWrite,
            Capability::Logging,
            Capability::Serialize,
        ]
    }

    /// Create a safe default capability set.
    pub fn safe_defaults() -> (r: Self)
        ensures
            r@ == Self::spec_safe_defaults(),
    {
        let r = Self::none().with(Capability::TimeRead).with(Capability::Random).with(
            Capability::StdoutWrite,
        ).with(Capability::StderrWrite).with(Capability::Logging).with(Capability::Serialize);
        assert(r@ =~= Self::spec_safe_defaults());
        r
    }

    /// Add every capability of `caps`.
    pub fn with_all(self, caps: &[Capability]) -> (r: Self)
        ensures
            r@ == self@.union(caps@.to_set()),
    {
        let mut r = self;
        let mut i: usize = 0;
        while i < caps.len()
            invariant
                i <= caps@.len(),
                r@ == self@.union(caps@.subrange(0, i as int).to_set()),
            decreases caps@.len() - i,
        {
            r = r.with(caps[i]);
            proof {
                assert(caps@.subrange(0, i + 1) =~= caps@.subrange(0, i as int).push(caps@[i as int]));
                assert(caps@.subrange(0, i + 1).to_set() =~= caps@.subrange(0, i as int).to_set().insert(caps@[i as int])) by {
                    caps@.subrange(0, i as int).lemma_push_to_set_commute(caps@[i as int]);
                }
                assert(r@ =~= self@.union(caps@.subrange(0, i + 1).to_set()));
            }
            i = i + 1;
        }
        assert(caps@.subrange(0, caps@.len() as int) =~= caps@);
        r
    }

    /// Get the number of granted capabilities.
    pub fn len(&self) -> (r: usize)
        ensures
            self@.finite(),
            r == self@.len(),
    {
        let mut count: usize = 0;
        let mut i: u32 = 0;
        let ghost mut seen: Set<Capability> = Set::empty();
        while i < CAPABILITY_COUNT
            invariant
                i <= CAPABILITY_COUNT,
                count <= i,
                seen.finite(),
                seen.len() == count,
                seen == Set::new(|c: Capability| c.index() < i && self@.contains(c)),
            decreases CAPABILITY_COUNT - i,
        {
            let c = Capability::from_index(i);
            if self.has(c) {
                proof {
                    assert(!seen.contains(c));
                    seen = seen.insert(c);
                }
                count = count + 1;
            }
            proof {
                assert forall|d: Capability| seen.contains(d) == (d.index() < i + 1 && self@.contains(d)) by {
                    if d.index() == i {
                        assert(Capability::at_index(i) == d);
                    }
                }
                assert(seen =~= Set::new(|d: Capability| d.index() < i + 1 && self@.contains(d)));
            }
            i = i + 1;
        }
        assert(seen =~= self@);
        count
    }

    /// Check if no capabilities are granted.
    pub fn is_empty(&self) -> (r: bool)
        ensures
            r == (self@ == Set::<Capability>::empty()),
    {
        proof {
            use_type_invariant(self);
        }
        let r = self.bits == 0;
        proof {
            if !r {
                assert(exists|i: u32| i < 18 && bit_set(self.bits, i)) by {
                    if forall|i: u32| i < 18 ==> !bit_set(self.bits, i) {
                        assert forall|i: u32| i < 18 implies bit_set(self.bits, i) == bit_set(0, i) by {
                            lemma_bit_constants(i);
                        }
                        lemma_bits_ext(self.bits, 0);
                    }
                }
                let i = choose|i: u32| i < 18 && bit_set(self.bits, i);
                let c = Capability::at_index(i);
                assert(c.index() == i);
                assert(self@.contains(c));
            } else {
                assert forall|c: Capability| !self@.contains(c) by {
                    lemma_bit_constants(c.index());
                }
            }
            if r {
                assert(self@ =~= Set::<Capability>::empty());
            }
        }
        r
    }

    /// Whether some granted capability is dangerous.
    pub open spec fn spec_has_dangerous(self) -> bool {
        exists|c: Capability| self@.contains(c) && c.spec_is_dangerous()
    }

    /// Check if any dangerous capability is granted.
    pub fn has_dangerous(&self) -> (r: bool)
        ensures
            r == self.spec_has_dangerous(),
    {
        let mut i: u32 = 0;
        while i < CAPABILITY_COUNT
            invariant
                i <= CAPABILITY_COUNT,
                forall|c: Capability| c.index() < i ==> !(self@.contains(c) && c.spec_is_dangerous()),
            decreases CAPABILITY_COUNT - i,
        {
            let c = Capability::from_index(i);
            if self.has(c) && c.is_dangerous() {
                return true;
            }
            proof {
                assert forall|d: Capability| d.index() < i + 1 implies !(self@.contains(d) && d.spec_is_dangerous()) by {
                    if d.index() == i {
                        assert(Capability::at_index(i) == d);
                    }
                }
            }
            i = i + 1;
        }
        false
    }

    /// The granted capabilities, without repetition, in canonical order.
    pub fn granted(&self) -> (r: Vec<Capability>)
        ensures
            forall|c: Capability| r@.contains(c) <==> self@.contains(c),
            forall|i: int, j: int| 0 <= i < j < r@.len() ==> r@[i].index() < r@[j].index(),
            r@.len() == self@.len(),
    {
        let mut v: Vec<Capability> = Vec::new();
        let mut i: u32 = 0;
        while i < CAPABILITY_COUNT
            invariant
                i <= CAPABILITY_COUNT,
                forall|c: Capability| v@.contains(c) <==> (c.index() < i && self@.contains(c)),
                forall|a: int, b: int| 0 <= a < b < v@.len() ==> v@[a].index() < v@[b].index(),
                forall|a: int| 0 <= a < v@.len() ==> v@[a].index() < i,
            decreases CAPABILITY_COUNT - i,
        {
            let c = Capability::from_index(i);
            let ghost old_v = v@;
            if self.has(c) {
                v.push(c);
                proof {
                    assert forall|d: Capability| v@.contains(d) <==> (d.index() < i + 1 && self@.contains(d)) by {
                        if d.index() == i {
                            assert(Capability::at_index(i) == d);
                        }
                        if v@.contains(d) {
                            let k = choose|k: int| 0 <= k < v@.len() && v@[k] == d;
                            if k < old_v.len() {
                                assert(old_v.contains(d));
                            }
                        }
                        if old_v.contains(d) {
                            let k = choose|k: int| 0 <= k < old_v.len() && old_v[k] == d;
                            assert(v@[k] == d);
                        }
                        if d == c {
                            assert(v@[old_v.len() as int] == d);
                        }
                    }
                }
            } else {
                proof {
                    assert forall|d: Capability| v@.contains(d) <==> (d.index() < i + 1 && self@.contains(d)) by {
                        if d.index() == i {
                            assert(Capability::at_index(i) == d);
                        }
                    }
                }
            }
            i = i + 1;
        }
        proof {
            assert(v@.no_duplicates()) by {
                assert forall|a: int, b: int| 0 <= a < v@.len() && 0 <= b < v@.len() && a != b implies v@[a] != v@[b] by {
                    if a < b {
                        assert(v@[a].index() < v@[b].index());
                    } else {
                        assert(v@[b].index() < v@[a].index());
                    }
                }
            }
            assert(v@.to_set() =~= self@);
            v@.unique_seq_to_set();
        }
        v
    }

    /// Get capability names as strings, in the order of `granted`.
    pub fn to_names(&self) -> (r: Vec<&'static str>)
        ensures
            forall|c: Capability| self@.contains(c) <==> exists|i: int| 0 <= i < r@.len() && #[trigger] r@[i]@ == c.spec_name(),
            r@.len() == self@.len(),
            forall|i: int, j: int| 0 <= i < j < r@.len() ==> r@[i]@ != r@[j]@,
            forall|i: int|
                0 <= i < r@.len() ==> match Capability::spec_from_name(#[trigger] r@[i]@) {
                    Some(c) => self@.contains(c),
                    None => false,
                },
    {
        let caps = self.granted();
        let mut names: Vec<&'static str> = Vec::new();
        let mut i: usize = 0;
        while i < caps.len()
            invariant
                i <= caps@.len(),
                names@.len() == i,
                forall|k: int| 0 <= k < i ==> #[trigger] names@[k]@ == caps@[k].spec_name(),
            decreases caps@.len() - i,
        {
            names.push(caps[i].name());
            i = i + 1;
        }
        proof {
            assert forall|c: Capability| self@.contains(c) implies exists|k: int| 0 <= k < names@.len() && #[trigger] names@[k]@ == c.spec_name() by {
                assert(caps@.contains(c));
                let k = choose|k: int| 0 <= k < caps@.len() && caps@[k] == c;
                assert(names@[k]@ == c.spec_name());
            }
            assert forall|c: Capability| (exists|k: int| 0 <= k < names@.len() && #[trigger] names@[k]@ == c.spec_name()) implies self@.contains(c) by {
                let k = choose|k: int| 0 <= k < names@.len() && #[trigger] names@[k]@ == c.spec_name();
                lemma_name_injective(caps@[k], c);
                assert(caps@.contains(caps@[k]));
            }
            assert forall|k: int| 0 <= k < names@.len() implies match Capability::spec_from_name(
                #[trigger] names@[k]@,
            ) {
                Some(c) => self@.contains(c),
                None => false,
            } by {
                assert(caps@.contains(caps@[k]));
                lemma_name_round_trip(caps@[k]);
            }
            assert forall|a: int, b: int| 0 <= a < b < names@.len() implies names@[a]@ != names@[b]@ by {
                assert(caps@[a].index() < caps@[b].index());
                lemma_name_injective(caps@[a], caps@[b]);
            }
        }
        names
    }

    /// The capabilities named among `names`; other names are ignored.
    pub open spec fn spec_from_names(names: Seq<Seq<char>>) -> Set<Capability> {
        Set::new(|c: Capability| names.contains(c.spec_name()))
    }

    /// Parse capabilities from string names, dropping unrecognized ones.
    pub fn from_names(names: &[&str]) -> (r: Self)
        ensures
            r@ == Self::spec_from_names(names@.map_values(|s: &str| s@)),
    {
        let ghost views = names@.map_values(|s: &str| s@);
        let mut r = Self::none();
        let mut i: usize = 0;
        while i < names.len()
            invariant
                i <= names@.len(),
                views == names@.map_values(|s: &str| s@),
                r@ == Self::spec_from_names(views.subrange(0, i as int)),
            decreases names@.len() - i,
        {
            let parsed = Capability::from_name(names[i]);
            let ghost prev = r@;
            match parsed {
                Some(c) => {
                    r = r.with(c);
                },
                None => {},
            }
            proof {
                let pre = views.subrange(0, i as int);
                let post = views.subrange(0, i + 1);
                assert(post =~= pre.push(names@[i as int]@));
                assert forall|d: Capability| r@.contains(d) == post.contains(d.spec_name()) by {
                    if pre.contains(d.spec_name()) {
                        let k = choose|k: int| 0 <= k < pre.len() && pre[k] == d.spec_name();
                        assert(post[k] == d.spec_name());
                    }
                    if post.contains(d.spec_name()) {
                        let k = choose|k: int| 0 <= k < post.len() && post[k] == d.spec_name();
                        if k < pre.len() {
                            assert(pre[k] == d.spec_name());
                        } else {
                            lemma_name_round_trip(d);
                        }
                    }
                    if d.spec_name() == names@[i as int]@ {
                        lemma_name_round_trip(d);
                        assert(post[i as int] == d.spec_name());
                    }
                    match parsed {
                        Some(c) => {
                            lemma_name_injective(c, d);
                            if d == c {
                                assert(post[i as int] == d.spec_name());
                            }
                        },
                        None => {},
                    }
                }
                assert(r@ =~= Self::spec_from_names(post));
            }
            i = i + 1;
        }
        assert(views.subrange(0, names@.len() as int) =~= views);
        r
    }

    /// Check that a capability is granted, failing with `CapabilityDenied`
    /// naming it otherwise.
    pub fn require(&self, cap: Capability) -> (r: Result<(), Error>)
        ensures
            (r is Ok) == self@.contains(cap),
            r matches Err(e) ==> (e matches Error::CapabilityDenied { capability } && capability@
                == cap.spec_name()),
    {
        if self.has(cap) {
            Ok(())
        } else {
            Err(Error::capability_denied(cap.name()))
        }
    }

    /// Union of two capability sets.
    pub fn merge(&self, other: &Capabilities) -> (r: Capabilities)
        ensures
            r@ == self@.union(other@),
    {
        proof {
            use_type_invariant(self);
            use_type_invariant(other);
        }
        let bits = self.bits | other.bits;
        proof {
            lemma_bit_or(self.bits, other.bits, 0);
        }
        let r = Capabilities { bits };
        proof {
            assert forall|c: Capability| r@.contains(c) == self@.union(other@).contains(c) by {
                lemma_bit_or(self.bits, other.bits, c.index());
            }
            lemma_bit_or(self.bits, other.bits, 0);
            assert(r@ =~= self@.union(other@));
        }
        r
    }

    /// Intersection of two capability sets.
    pub fn intersect(&self, other: &Capabilities) -> (r: Capabilities)
        ensures
            r@ == self@.intersect(other@),
    {
        proof {
            use_type_invariant(self);
            use_type_invariant(other);
        }
        let bits = self.bits & other.bits;
        proof {
            lemma_bit_and(self.bits, other.bits, 0);
        }
        let r = Capabilities { bits };
        proof {
            assert forall|c: Capability| r@.contains(c) == self@.intersect(other@).contains(c) by {
                lemma_bit_and(self.bits, other.bits, c.index());
            }
            lemma_bit_and(self.bits, other.bits, 0);
            assert(r@ =~= self@.intersect(other@));
        }
        r
    }
}

impl PartialEq for Capabilities {
    fn eq(&self, other: &Capabilities) -> (r: bool) {
        proof {
            use_type_invariant(self);
            use_type_invariant(other);
        }
        let r = self.bits == other.bits;
        proof {
            if self@ == other@ {
                assert forall|i: u32| i < 18 implies bit_set(self.bits, i) == bit_set(
                    other.bits,
                    i,
                ) by {
                    let c = Capability::at_index(i);
                    assert(c.index() == i);
                    assert(self@.contains(c) == other@.contains(c));
                }
                lemma_bits_ext(self.bits, other.bits);
            }
        }
        r
    }
}

impl vstd::std_specs::cmp::PartialEqSpecImpl for Capabilities {
    open spec fn obeys_eq_spec() -> bool {
        true
    }

    /// Two capability sets are equal when they grant the same capabilities.
    open spec fn eq_spec(&self, other: &Capabilities) -> bool {
        self@ == other@
    }
}

/// The safe defaults grant no dangerous capability.
pub proof fn lemma_safe_defaults_not_dangerous(c: Capability)
    ensures
        Capabilities::spec_safe_defaults().contains(c) ==> !c.spec_is_dangerous(),
{
}

/// A merge holds both operands; an intersection is held in both, and holds
/// exactly what both hold.
pub proof fn lemma_merge_intersect_bounds(a: Capabilities, b: Capabilities, c: Capability)
    ensures
        a@.subset_of(a@.union(b@)),
        b@.subset_of(a@.union(b@)),
        a@.intersect(b@).subset_of(a@),
        a@.intersect(b@).subset_of(b@),
        a@.intersect(b@).contains(c) <==> (a@.contains(c) && b@.contains(c)),
{
}

/// Every name maps back to the capability that carries it.
pub proof fn lemma_name_round_trip(c: Capability)
    ensures
        Capability::spec_from_name(c.spec_name()) == Some(c),
{
    let d = choose|d: Capability| d.spec_name() == c.spec_name();
    lemma_name_injective(c, d);
}

} // verus!
