//! Bytecode framing, metadata hints and diagnostics of script compilation.
use vstd::prelude::*;
use vstd::string::*;
use crate::error::Error;
use crate::table::StringTable;
use crate::text::{
    chars_of, contains_seq, decimal, decimal_string, is_first, is_prefix, lemma_first_unique, span_contains,
    span_find, span_has_prefix, strip_repeated, strip_repeated_span, trim, trim_span,
};
use crate::sandbox::{char_vec_views, path_segments, segments_of};
use crate::time::{elapsed_since, instant_now};

verus! {

/// Language version that compiled bytecode declares.
pub const LANGUAGE_VERSION: &'static str = "0.18.0";

/// Bytecode format version written by the compiler; readers accept 0 and 1.
pub const BYTECODE_VERSION: u8 = 1;

/// Length of the fixed bytecode header.
pub const HEADER_LEN: usize = 16;

/// FNV-1a offset basis.
pub const FNV_OFFSET: u64 = 0xcbf29ce484222325;

/// FNV-1a prime.
pub const FNV_PRIME: u64 = 0x100000001b3;

/// Options for compilation.
#[derive(Debug, Clone)]
pub struct CompileOptions {
    /// Optimization level (0-3).
    pub opt_level: u8,
    /// Whether to include debug information.
    pub debug_info: bool,
    /// Whether to strip symbols.
    pub strip: bool,
    /// Target language version.
    pub target_version: Option<String>,
    /// Custom compiler flags.
    pub flags: StringTable,
    /// Source file name (for error messages).
    pub source_name: Option<String>,
}

impl Default for CompileOptions {
    fn default() -> (r: Self)
        ensures
            r.opt_level == 0,
            !r.debug_info,
            !r.strip,
            r.target_version is None,
            r.flags@ == Map::<Seq<char>, Seq<char>>::empty(),
            r.source_name is None,
    {
        CompileOptions {
            opt_level: 0,
            debug_info: false,
            strip: false,
            target_version: None,
            flags: StringTable::new(),
            source_name: None,
        }
    }
}

impl CompileOptions {
    /// Create default compile options.
    pub fn new() -> (r: Self)
        ensures
            r.opt_level == 0,
            !r.debug_info,
            !r.strip,
            r.target_version is None,
            r.flags@ == Map::<Seq<char>, Seq<char>>::empty(),
            r.source_name is None,
    {
        Self::default()
    }

    /// Set the optimization level, capped at 3.
    pub fn with_opt_level(self, level: u8) -> (r: Self)
        ensures
            r.opt_level == if level < 3 { level } else { 3 },
            r.debug_info == self.debug_info,
            r.strip == self.strip,
            r.target_version == self.target_version,
            r.flags == self.flags,
            r.source_name == self.source_name,
    {
        CompileOptions { opt_level: if level < 3 { level } else { 3 }, ..self }
    }

    /// Enable debug information.
    pub fn with_debug_info(self) -> (r: Self)
        ensures
            r == (CompileOptions { debug_info: true, ..self }),
    {
        CompileOptions { debug_info: true, ..self }
    }

    /// Enable symbol stripping.
    pub fn with_strip(self) -> (r: Self)
        ensures
            r == (CompileOptions { strip: true, ..self }),
    {
        CompileOptions { strip: true, ..self }
    }

    /// Set the target version.
    pub fn with_target_version(self, version: &str) -> (r: Self)
        ensures
            r.target_version matches Some(v) && v@ == version@,
            r.opt_level == self.opt_level,
            r.debug_info == self.debug_info,
            r.strip == self.strip,
            r.flags == self.flags,
            r.source_name == self.source_name,
    {
        CompileOptions { target_version: Some(version.to_owned()), ..self }
    }

    /// Add a custom flag, replacing an earlier value of the same key.
    pub fn with_flag(self, key: &str, value: &str) -> (r: Self)
        ensures
            r.flags@ == self.flags@.insert(key@, value@),
            r.opt_level == self.opt_level,
            r.debug_info == self.debug_info,
            r.strip == self.strip,
            r.target_version == self.target_version,
            r.source_name == self.source_name,
    {
        let mut r = self;
        r.flags.insert(key, value);
        r
    }

    /// Set the source name for error messages.
    pub fn with_source_name(self, name: &str) -> (r: Self)
        ensures
            r.source_name matches Some(n) && n@ == name@,
            r.opt_level == self.opt_level,
            r.debug_info == self.debug_info,
            r.strip == self.strip,
            r.target_version == self.target_version,
            r.flags == self.flags,
    {
        CompileOptions { source_name: Some(name.to_owned()), ..self }
    }

    /// Options for development: level 0, debug information, no stripping.
    pub fn development() -> (r: Self)
        ensures
            r.opt_level == 0,
            r.debug_info,
            !r.strip,
            r.target_version is None,
            r.flags@ == Map::<Seq<char>, Seq<char>>::empty(),
            r.source_name is None,
    {
        CompileOptions {
            opt_level: 0,
            debug_info: true,
            strip: false,
            target_version: None,
            flags: StringTable::new(),
            source_name: None,
        }
    }

    /// Options for production: level 2, no debug information, stripped.
    pub fn production() -> (r: Self)
        ensures
            r.opt_level == 2,
            !r.debug_info,
            r.strip,
            r.target_version is None,
            r.flags@ == Map::<Seq<char>, Seq<char>>::empty(),
            r.source_name is None,
    {
        CompileOptions {
            opt_level: 2,
            debug_info: false,
            strip: true,
            target_version: None,
            flags: StringTable::new(),
            source_name: None,
        }
    }
}

/// Information about an exported function.
#[derive(Debug, Clone)]
pub struct ExportInfo {
    /// Function name.
    pub name: String,
    /// Parameter count.
    pub param_count: usize,
    /// Whether the function is async.
    pub is_async: bool,
    /// Documentation comment if available.
    pub doc: Option<String>,
}

/// Information about an imported module.
#[derive(Debug, Clone)]
pub struct ImportInfo {
    /// Module name.
    pub module: String,
    /// Imported items (or "*" for all).
    pub items: Vec<String>,
    /// Version constraint if specified.
    pub version: Option<String>,
}

/// Metadata of compiled bytecode.
#[derive(Debug, Clone)]
pub struct Metadata {
    /// Language version used.
    pub language_version: String,
    /// Compiler version.
    pub compiler_version: String,
    /// Name of the compiled source.
    pub source_name: Option<String>,
    /// Compilation timestamp, in seconds since the Unix epoch.
    pub compiled_at: Option<u64>,
    /// Required capabilities declared in the script.
    pub required_capabilities: Vec<String>,
    /// Exported functions.
    pub exports: Vec<ExportInfo>,
    /// Imported modules.
    pub imports: Vec<ImportInfo>,
    /// Custom metadata entries.
    pub custom: StringTable,
}

impl Metadata {
    /// Check if a capability is required.
    pub fn requires_capability(&self, cap: &str) -> (r: bool)
        ensures
            r == exists|i: int|
                0 <= i < self.required_capabilities@.len()
                    && #[trigger] self.required_capabilities@[i]@ == cap@,
    {
        let mut i: usize = 0;
        while i < self.required_capabilities.len()
            invariant
                i <= self.required_capabilities@.len(),
                forall|j: int| 0 <= j < i ==> #[trigger] self.required_capabilities@[j]@ != cap@,
            decreases self.required_capabilities@.len() - i,
        {
            if crate::text::str_eq(self.required_capabilities[i].as_str(), cap) {
                return true;
            }
            i = i + 1;
        }
        false
    }

    /// Get the first export with the given name.
    pub fn get_export(&self, name: &str) -> (r: Option<&ExportInfo>)
        ensures
            match r {
                Some(e) => e.name@ == name@ && exists|i: int|
                    0 <= i < self.exports@.len() && self.exports@[i] == *e && forall|j: int|
                        0 <= j < i ==> #[trigger] self.exports@[j].name@ != name@,
                None => forall|j: int|
                    0 <= j < self.exports@.len() ==> #[trigger] self.exports@[j].name@ != name@,
            },
    {
        let mut i: usize = 0;
        while i < self.exports.len()
            invariant
                i <= self.exports@.len(),
                forall|j: int| 0 <= j < i ==> #[trigger] self.exports@[j].name@ != name@,
            decreases self.exports@.len() - i,
        {
            if crate::text::str_eq(self.exports[i].name.as_str(), name) {
                return Some(&self.exports[i]);
            }
            i = i + 1;
        }
        None
    }

    /// Check if a module is imported.
    pub fn imports_module(&self, module: &str) -> (r: bool)
        ensures
            r == exists|i: int|
                0 <= i < self.imports@.len() && #[trigger] self.imports@[i].module@ == module@,
    {
        let mut i: usize = 0;
        while i < self.imports.len()
            invariant
                i <= self.imports@.len(),
                forall|j: int| 0 <= j < i ==> #[trigger] self.imports@[j].module@ != module@,
            decreases self.imports@.len() - i,
        {
            if crate::text::str_eq(self.imports[i].module.as_str(), module) {
                return true;
            }
            i = i + 1;
        }
        false
    }
}

/// A source location for diagnostics.
#[derive(Debug, Clone)]
pub struct SourceLocation {
    /// Line number (1-indexed).
    pub line: usize,
    /// Column number (1-indexed).
    pub column: usize,
    /// Source file name.
    pub file: Option<String>,
}

/// A compilation warning.
#[derive(Debug, Clone)]
pub struct CompileWarning {
    /// Warning message.
    pub message: String,
    /// Source location if available.
    pub location: Option<SourceLocation>,
    /// Warning code.
    pub code: Option<String>,
}

/// Statistics about compilation.
#[derive(Debug, Clone)]
pub struct CompileStats {
    /// Source size in bytes.
    pub source_bytes: usize,
    /// Bytecode size in bytes.
    pub bytecode_bytes: usize,
    /// Number of functions.
    pub function_count: usize,
    /// Compilation time in milliseconds.
    pub compile_time_ms: u64,
}

/// Result of compilation.
#[derive(Debug, Clone)]
pub struct CompileResult {
    /// Compiled bytecode.
    pub bytecode: Vec<u8>,
    /// Extracted metadata.
    pub metadata: Metadata,
    /// Compilation warnings.
    pub warnings: Vec<CompileWarning>,
    /// Compilation statistics.
    pub stats: CompileStats,
}

// ---------------------------------------------------------------------------
// Bytecode
// ---------------------------------------------------------------------------

/// The magic number `FZB\0` that opens every bytecode buffer.
pub open spec fn magic() -> Seq<u8> {
    seq![0x46u8, 0x5Au8, 0x42u8, 0x00u8]
}

/// Whether a buffer has a header that readers accept: at least 16 bytes,
/// the magic number, and version 0 or 1.
pub open spec fn header_ok(b: Seq<u8>) -> bool {
    b.len() >= HEADER_LEN && b.subrange(0, 4) == magic() && b[4] <= BYTECODE_VERSION
}

/// The flags byte: bit 0 debug information, bit 1 stripping, bits 4-5 the
/// optimization level.
pub open spec fn flags_byte(o: CompileOptions) -> u8 {
    (if o.debug_info { 1u8 } else { 0u8 }) | (if o.strip { 2u8 } else { 0u8 }) | ((o.opt_level
        & 3u8) << 4u8)
}

/// FNV-1a hash of a byte sequence.
pub open spec fn fnv1a(b: Seq<u8>) -> u64
    decreases b.len(),
{
    if b.len() == 0 {
        FNV_OFFSET
    } else {
        (fnv1a(b.drop_last()) ^ (b.last() as u64)).wrapping_mul(FNV_PRIME)
    }
}

/// Little-endian bytes of a 64-bit value.
pub open spec fn le_bytes(h: u64) -> Seq<u8> {
    Seq::new(8, |k: int| ((h >> (8 * k) as u64) & 0xffu64) as u8)
}

/// The 16-byte header written for `o`.
pub open spec fn header_of(o: CompileOptions) -> Seq<u8> {
    magic() + seq![BYTECODE_VERSION, flags_byte(o)] + Seq::new(10, |i: int| 0u8)
}

/// Bytecode for a source whose UTF-8 bytes are `src`: header, hash, then the source.
pub open spec fn bytecode_of(src: Seq<u8>, o: CompileOptions) -> Seq<u8> {
    header_of(o) + le_bytes(fnv1a(src)) + src
}

/// FNV-1a hash of the UTF-8 bytes of `s`.
fn simple_hash(s: &str) -> (r: u64)
    ensures
        r == fnv1a(s.spec_bytes()),
{
    let bytes = s.as_bytes();
    let mut hash: u64 = FNV_OFFSET;
    let mut i: usize = 0;
    while i < bytes.len()
        invariant
            bytes@ == s.spec_bytes(),
            i <= bytes@.len(),
            hash == fnv1a(bytes@.subrange(0, i as int)),
        decreases bytes@.len() - i,
    {
        assert(bytes@.subrange(0, i + 1).drop_last() =~= bytes@.subrange(0, i as int));
        hash = (hash ^ (bytes[i] as u64)).wrapping_mul(FNV_PRIME);
        i = i + 1;
    }
    assert(bytes@.subrange(0, bytes@.len() as int) =~= bytes@);
    hash
}

fn generate_bytecode(source: &str, options: &CompileOptions) -> (r: Vec<u8>)
    ensures
        r@ == bytecode_of(source.spec_bytes(), *options),
{
    let mut v: Vec<u8> = Vec::new();
    v.push(0x46u8);
    v.push(0x5Au8);
    v.push(0x42u8);
    v.push(0x00u8);
    v.push(BYTECODE_VERSION);
    let debug: u8 = if options.debug_info { 1u8 } else { 0u8 };
    let strip: u8 = if options.strip { 2u8 } else { 0u8 };
    v.push(debug | strip | ((options.opt_level & 3u8) << 4u8));
    let mut k: usize = 0;
    while k < 10
        invariant
            k <= 10,
            v@ == magic() + seq![BYTECODE_VERSION, flags_byte(*options)] + Seq::new(
                k as nat,
                |i: int| 0u8,
            ),
        decreases 10 - k,
    {
        v.push(0u8);
        k = k + 1;
        assert(v@ =~= magic() + seq![BYTECODE_VERSION, flags_byte(*options)] + Seq::new(
            k as nat,
            |i: int| 0u8,
        ));
    }
    let hash = simple_hash(source);
    let ghost head = v@;
    let mut k: usize = 0;
    while k < 8
        invariant
            k <= 8,
            head == header_of(*options),
            hash == fnv1a(source.spec_bytes()),
            v@ == head + le_bytes(hash).subrange(0, k as int),
        decreases 8 - k,
    {
        v.push(((hash >> (8 * k) as u64) & 0xffu64) as u8);
        k = k + 1;
        assert(v@ =~= head + le_bytes(hash).subrange(0, k as int));
    }
    assert(le_bytes(hash).subrange(0, 8) =~= le_bytes(hash));
    let bytes = source.as_bytes();
    let ghost framed = v@;
    let mut i: usize = 0;
    while i < bytes.len()
        invariant
            bytes@ == source.spec_bytes(),
            framed == header_of(*options) + le_bytes(fnv1a(source.spec_bytes())),
            i <= bytes@.len(),
            v@ == framed + bytes@.subrange(0, i as int),
        decreases bytes@.len() - i,
    {
        v.push(bytes[i]);
        i = i + 1;
        assert(v@ =~= framed + bytes@.subrange(0, i as int));
    }
    assert(bytes@.subrange(0, bytes@.len() as int) =~= bytes@);
    v
}

/// The metadata that validation reports for an accepted buffer.
pub open spec fn is_header_metadata(m: Metadata) -> bool {
    &&& m.language_version@ == LANGUAGE_VERSION@
    &&& m.compiler_version@ == LANGUAGE_VERSION@
    &&& m.source_name is None
    &&& m.compiled_at is None
    &&& m.required_capabilities@.len() == 0
    &&& m.exports@.len() == 0
    &&& m.imports@.len() == 0
    &&& m.custom@ == Map::<Seq<char>, Seq<char>>::empty()
}

/// Validate bytecode without executing it.
pub fn validate_bytecode(bytecode: &[u8]) -> (r: Result<Metadata, Error>)
    ensures
        (r is Ok) == header_ok(bytecode@),
        r matches Ok(m) ==> is_header_metadata(m),
        r matches Err(e) ==> validate_error(bytecode@, e),
{
    if bytecode.len() < HEADER_LEN {
        return Err(Error::invalid_bytecode("bytecode too short"));
    }
    if !(bytecode[0] == 0x46u8 && bytecode[1] == 0x5Au8 && bytecode[2] == 0x42u8 && bytecode[3]
        == 0x00u8) {
        assert(bytecode@.subrange(0, 4) != magic()) by {
            if bytecode@.subrange(0, 4) == magic() {
                assert(bytecode@.subrange(0, 4)[0] == bytecode@[0]);
                assert(bytecode@.subrange(0, 4)[1] == bytecode@[1]);
                assert(bytecode@.subrange(0, 4)[2] == bytecode@[2]);
                assert(bytecode@.subrange(0, 4)[3] == bytecode@[3]);
            }
        }
        return Err(Error::invalid_bytecode("invalid magic number"));
    }
    assert(bytecode@.subrange(0, 4) =~= magic());
    let version = bytecode[4];
    if version > BYTECODE_VERSION {
        let mut msg = String::from_str("unsupported bytecode version: ");
        let digits = decimal_string(version as u64);
        msg.append(digits.as_str());
        return Err(Error::InvalidBytecode(msg));
    }
    Ok(Metadata {
        language_version: String::from_str(LANGUAGE_VERSION),
        compiler_version: String::from_str(LANGUAGE_VERSION),
        source_name: None,
        compiled_at: None,
        required_capabilities: Vec::new(),
        exports: Vec::new(),
        imports: Vec::new(),
        custom: StringTable::new(),
    })
}

/// Extract metadata from existing bytecode; the same checks as
/// [`validate_bytecode`].
pub fn extract_bytecode_metadata(bytecode: &[u8]) -> (r: Result<Metadata, Error>)
    ensures
        (r is Ok) == header_ok(bytecode@),
        r matches Ok(m) ==> is_header_metadata(m),
        r matches Err(e) ==> validate_error(bytecode@, e),
{
    validate_bytecode(bytecode)
}

/// The error that validation reports for a rejected buffer.
pub open spec fn validate_error(b: Seq<u8>, e: Error) -> bool {
    if b.len() < HEADER_LEN {
        e matches Error::InvalidBytecode(m) && m@ == "bytecode too short"@
    } else if b.subrange(0, 4) != magic() {
        e matches Error::InvalidBytecode(m) && m@ == "invalid magic number"@
    } else {
        e matches Error::InvalidBytecode(m) && m@ == "unsupported bytecode version: "@ + decimal(
            b[4] as nat,
        )
    }
}

/// Compiled bytecode always passes validation, whatever the source and options.
pub proof fn lemma_compiled_bytecode_valid(src: Seq<u8>, o: CompileOptions)
    ensures
        header_ok(bytecode_of(src, o)),
{
    let b = bytecode_of(src, o);
    assert(b.subrange(0, 4) =~= magic());
    assert(b[4] == BYTECODE_VERSION);
}

// ---------------------------------------------------------------------------
// Source scanning
// ---------------------------------------------------------------------------

/// `x` without one trailing carriage return.
pub open spec fn strip_cr(x: Seq<char>) -> Seq<char> {
    if x.len() > 0 && x.last() == '\r' {
        x.drop_last()
    } else {
        x
    }
}

/// Lines completed after reading `i` characters, and where the pending line starts.
pub open spec fn scan_lines(s: Seq<char>, i: nat) -> (Seq<Seq<char>>, int)
    decreases i,
{
    if i == 0 || i > s.len() {
        (Seq::empty(), 0)
    } else {
        let prev = scan_lines(s, (i - 1) as nat);
        if s[i - 1] == '\n' {
            (prev.0.push(strip_cr(s.subrange(prev.1, i - 1))), i as int)
        } else {
            prev
        }
    }
}

/// The lines of `s`: split at `\n`, a `\r` before it dropped, no empty line
/// after a final `\n`.
pub open spec fn lines_of(s: Seq<char>) -> Seq<Seq<char>> {
    let st = scan_lines(s, s.len());
    if st.1 < s.len() {
        st.0.push(s.subrange(st.1, s.len() as int))
    } else {
        st.0
    }
}

/// Whether a span lies within a text of `n` characters.
pub open spec fn span_within(p: (usize, usize), n: nat) -> bool {
    p.0 <= p.1 <= n
}

/// The texts of character spans of `s`.
pub open spec fn span_texts(s: Seq<char>, spans: Seq<(usize, usize)>) -> Seq<Seq<char>> {
    spans.map_values(|p: (usize, usize)| s.subrange(p.0 as int, p.1 as int))
}

proof fn lemma_scan_lines_start(s: Seq<char>, i: nat)
    requires
        i <= s.len(),
    ensures
        0 <= scan_lines(s, i).1 <= i,
    decreases i,
{
    if i > 0 {
        lemma_scan_lines_start(s, (i - 1) as nat);
    }
}

fn push_span(spans: &mut Vec<(usize, usize)>, a: usize, b: usize, n: usize)
    requires
        a <= b <= n,
        forall|k: int| 0 <= k < old(spans)@.len() ==> span_within(#[trigger] old(spans)@[k], n as nat),
    ensures
        final(spans)@ == old(spans)@.push((a, b)),
        forall|k: int| 0 <= k < final(spans)@.len() ==> span_within(#[trigger] final(spans)@[k], n as nat),
{
    let ghost before = spans@;
    spans.push((a, b));
    assert forall|k: int| 0 <= k < spans@.len() implies span_within(#[trigger] spans@[k], n as nat) by {
        if k < before.len() {
            assert(spans@[k] == before[k]);
        }
    }
}

/// Spans of the lines of `s`, as [`lines_of`] defines them.
fn line_spans(s: &Vec<char>) -> (r: Vec<(usize, usize)>)
    ensures
        span_texts(s@, r@) == lines_of(s@),
        forall|k: int| 0 <= k < r@.len() ==> span_within(#[trigger] r@[k], s@.len() as nat),
{
    let n = s.len();
    let mut spans: Vec<(usize, usize)> = Vec::new();
    let mut start: usize = 0;
    let mut i: usize = 0;
    assert(span_texts(s@, spans@) =~= Seq::<Seq<char>>::empty());
    while i < n
        invariant
            n == s@.len(),
            i <= n,
            start <= i,
            span_texts(s@, spans@) == scan_lines(s@, i as nat).0,
            start == scan_lines(s@, i as nat).1,
            forall|k: int| 0 <= k < spans@.len() ==> span_within(#[trigger] spans@[k], n as nat),
        decreases n - i,
    {
        proof {
            lemma_scan_lines_start(s@, i as nat);
        }
        if s[i] == '\n' {
            let end = if i > start && s[i - 1] == '\r' { i - 1 } else { i };
            let ghost before = spans@;
            push_span(&mut spans, start, end, n);
            proof {
                let line = s@.subrange(start as int, i as int);
                if i > start && s@[i - 1] == '\r' {
                    assert(strip_cr(line) =~= s@.subrange(start as int, end as int));
                } else {
                    assert(strip_cr(line) =~= s@.subrange(start as int, end as int));
                }
                assert(span_texts(s@, spans@) =~= span_texts(s@, before).push(s@.subrange(start as int, end as int)));
            }
            start = i + 1;
        }
        i = i + 1;
    }
    if start < n {
        let ghost before = spans@;
        push_span(&mut spans, start, n, n);
        assert(span_texts(s@, spans@) =~= span_texts(s@, before).push(s@.subrange(start as int, n as int)));
    }
    spans
}

/// What follows `prefix` on a line that starts with it once trimmed: every
/// leading repetition of `prefix` removed, then trimmed.
pub open spec fn prefixed_item(line: Seq<char>, prefix: Seq<char>) -> Option<Seq<char>> {
    let t = trim(line);
    if is_prefix(prefix, t) {
        Some(trim(strip_repeated(t, prefix)))
    } else {
        None
    }
}

/// The capability a line declares with `@require <name>`.
pub open spec fn requirement_of(line: Seq<char>) -> Option<Seq<char>> {
    prefixed_item(line, "@require "@)
}

/// The module a line imports with `import <module>`.
pub open spec fn import_of(line: Seq<char>) -> Option<Seq<char>> {
    prefixed_item(line, "import "@)
}

/// The function a line exports with `export fn <name>(` or `pub fn <name>(`,
/// and whether the rest of the line mentions `async`.
pub open spec fn export_of(line: Seq<char>) -> Option<(Seq<char>, bool)> {
    let t = trim(line);
    if is_prefix("export fn "@, t) || is_prefix("pub fn "@, t) {
        let rest = strip_repeated(strip_repeated(t, "export fn "@), "pub fn "@);
        if exists|k: int| is_first(rest, '(', k) {
            let k = choose|k: int| is_first(rest, '(', k);
            Some((trim(rest.subrange(0, k)), contains_seq("async"@, rest)))
        } else {
            None
        }
    } else {
        None
    }
}

/// The items `f` finds in `ls`, line by line.
pub open spec fn collect_lines<T>(ls: Seq<Seq<char>>, f: spec_fn(Seq<char>) -> Option<T>) -> Seq<T>
    decreases ls.len(),
{
    if ls.len() == 0 {
        Seq::empty()
    } else {
        let prev = collect_lines(ls.drop_last(), f);
        match f(ls.last()) {
            Some(x) => prev.push(x),
            None => prev,
        }
    }
}

fn prefixed_item_span(s: &Vec<char>, a: usize, b: usize, prefix: &str) -> (r: Option<(usize, usize)>)
    requires
        a <= b <= s@.len(),
    ensures
        match r {
            Some(p) => p.0 <= p.1 <= s@.len() && prefixed_item(s@.subrange(a as int, b as int), prefix@)
                == Some(s@.subrange(p.0 as int, p.1 as int)),
            None => prefixed_item(s@.subrange(a as int, b as int), prefix@) is None,
        },
{
    let (ta, tb) = trim_span(s, a, b);
    if span_has_prefix(s, ta, tb, prefix) {
        let rest = strip_repeated_span(s, ta, tb, prefix);
        let (x, y) = trim_span(s, rest, tb);
        Some((x, y))
    } else {
        None
    }
}

fn export_span(s: &Vec<char>, a: usize, b: usize) -> (r: Option<(usize, usize, bool)>)
    requires
        a <= b <= s@.len(),
    ensures
        match r {
            Some(p) => p.0 <= p.1 <= s@.len() && export_of(s@.subrange(a as int, b as int)) == Some(
                (s@.subrange(p.0 as int, p.1 as int), p.2),
            ),
            None => export_of(s@.subrange(a as int, b as int)) is None,
        },
{
    let (ta, tb) = trim_span(s, a, b);
    if span_has_prefix(s, ta, tb, "export fn ") || span_has_prefix(s, ta, tb, "pub fn ") {
        let r1 = strip_repeated_span(s, ta, tb, "export fn ");
        let r2 = strip_repeated_span(s, r1, tb, "pub fn ");
        let ghost rest = s@.subrange(r2 as int, tb as int);
        match span_find(s, r2, tb, '(') {
            Some(k) => {
                let (x, y) = trim_span(s, r2, r2 + k);
                let is_async = span_contains(s, r2, tb, "async");
                proof {
                    let c = choose|c: int| is_first(rest, '(', c);
                    lemma_first_unique(rest, '(', c, k as int);
                    assert(rest.subrange(0, k as int) =~= s@.subrange(r2 as int, r2 + k));
                }
                Some((x, y, is_async))
            },
            None => {
                assert(!exists|k: int| is_first(rest, '(', k));
                None
            },
        }
    } else {
        None
    }
}

/// The warning kinds a line raises: 1 for a TODO/FIXME mark, 2 for `let _`.
pub open spec fn warning_kinds(line: Seq<char>) -> Seq<nat> {
    (if contains_seq("TODO"@, line) || contains_seq("FIXME"@, line) {
        seq![1nat]
    } else {
        Seq::empty()
    }) + (if contains_seq("let _"@, line) {
        seq![2nat]
    } else {
        Seq::empty()
    })
}

/// The warnings raised by `ls`, as pairs of a 1-based line number and a kind.
pub open spec fn expected_warnings(ls: Seq<Seq<char>>) -> Seq<(nat, nat)>
    decreases ls.len(),
{
    if ls.len() == 0 {
        Seq::empty()
    } else {
        expected_warnings(ls.drop_last()) + warning_kinds(ls.last()).map_values(
            |k: nat| (ls.len(), k),
        )
    }
}

/// Whether `w` is the warning of `kind` at `line`.
pub open spec fn warning_is(w: CompileWarning, line: nat, kind: nat) -> bool {
    &&& match w.location {
        Some(loc) => loc.line == line && loc.column == 1 && loc.file is None,
        None => false,
    }
    &&& match w.code {
        Some(c) => c@ == (if kind == 1 { "W001"@ } else { "W002"@ }),
        None => false,
    }
    &&& w.message@ == (if kind == 1 {
        "unresolved TODO/FIXME comment"@
    } else {
        "unused variable"@
    })
}

fn make_warning(line: usize, kind: u8) -> (r: CompileWarning)
    requires
        kind == 1 || kind == 2,
    ensures
        warning_is(r, line as nat, kind as nat),
{
    let (message, code) = if kind == 1 {
        ("unresolved TODO/FIXME comment", "W001")
    } else {
        ("unused variable", "W002")
    };
    CompileWarning {
        message: String::from_str(message),
        location: Some(SourceLocation { line, column: 1, file: None }),
        code: Some(String::from_str(code)),
    }
}

fn check_warnings(s: &Vec<char>, spans: &Vec<(usize, usize)>) -> (r: Vec<CompileWarning>)
    requires
        forall|k: int| 0 <= k < spans@.len() ==> span_within(#[trigger] spans@[k], s@.len() as nat),
    ensures
        r@.len() == expected_warnings(span_texts(s@, spans@)).len(),
        forall|i: int|
            0 <= i < r@.len() ==> warning_is(
                r@[i],
                expected_warnings(span_texts(s@, spans@))[i].0,
                expected_warnings(span_texts(s@, spans@))[i].1,
            ),
{
    let ghost texts = span_texts(s@, spans@);
    let mut warnings: Vec<CompileWarning> = Vec::new();
    let mut k: usize = 0;
    while k < spans.len()
        invariant
            texts == span_texts(s@, spans@),
            forall|j: int| 0 <= j < spans@.len() ==> span_within(#[trigger] spans@[j], s@.len() as nat),
            k <= spans@.len(),
            warnings@.len() == expected_warnings(texts.subrange(0, k as int)).len(),
            forall|i: int|
                0 <= i < warnings@.len() ==> warning_is(
                    warnings@[i],
                    expected_warnings(texts.subrange(0, k as int))[i].0,
                    expected_warnings(texts.subrange(0, k as int))[i].1,
                ),
        decreases spans@.len() - k,
    {
        let (a, b) = spans[k];
        let ghost line = texts[k as int];
        assert(line == s@.subrange(a as int, b as int));
        let ghost prev = expected_warnings(texts.subrange(0, k as int));
        assert(texts.subrange(0, k + 1).drop_last() =~= texts.subrange(0, k as int));
        let todo = span_contains(s, a, b, "TODO") || span_contains(s, a, b, "FIXME");
        let unused = span_contains(s, a, b, "let _");
        let ghost before = warnings@;
        if todo {
            warnings.push(make_warning(k + 1, 1));
        }
        if unused {
            warnings.push(make_warning(k + 1, 2));
        }
        proof {
            let added = warning_kinds(line).map_values(|x: nat| ((k + 1) as nat, x));
            assert(expected_warnings(texts.subrange(0, k + 1)) =~= prev + added);
            assert forall|i: int| 0 <= i < warnings@.len() implies warning_is(
                warnings@[i],
                (prev + added)[i].0,
                (prev + added)[i].1,
            ) by {
                if i >= before.len() {
                    if todo {
                        if i == before.len() {
                            assert(added[0] == ((k + 1) as nat, 1nat));
                        } else {
                            assert(added[1] == ((k + 1) as nat, 2nat));
                        }
                    } else {
                        assert(added[0] == ((k + 1) as nat, 2nat));
                    }
                }
            }
        }
        k = k + 1;
    }
    assert(texts.subrange(0, spans@.len() as int) =~= texts);
    warnings
}

// ---------------------------------------------------------------------------
// Compilation
// ---------------------------------------------------------------------------

/// Whether `m` holds the metadata hints of the source `s` compiled with `o`.
pub open spec fn metadata_of_source(m: Metadata, s: Seq<char>, o: CompileOptions) -> bool {
    let ls = lines_of(s);
    &&& m.language_version@ == LANGUAGE_VERSION@
    &&& m.compiler_version@ == crate::VERSION@
    &&& match o.source_name {
        Some(n) => m.source_name matches Some(x) && x@ == n@,
        None => m.source_name is None,
    }
    &&& m.compiled_at is Some
    &&& m.required_capabilities@.len() == requirements_of(ls).len()
    &&& forall|i: int|
        0 <= i < m.required_capabilities@.len() ==> #[trigger] m.required_capabilities@[i]@
            == requirements_of(ls)[i]
    &&& m.imports@.len() == imports_of(ls).len()
    &&& forall|i: int| 0 <= i < m.imports@.len() ==> import_record(#[trigger] m.imports@[i], imports_of(ls)[i])
    &&& m.exports@.len() == exports_of(ls).len()
    &&& forall|i: int| 0 <= i < m.exports@.len() ==> export_record(#[trigger] m.exports@[i], exports_of(ls)[i])
    &&& m.custom@ == Map::<Seq<char>, Seq<char>>::empty()
}

/// Relies on std::time::SystemTime::now and duration_since: seconds since
/// the Unix epoch, or `None` when the clock reads earlier than the epoch.
#[verifier::external_body]
fn unix_seconds_now() -> Option<u64> {
    std::time::SystemTime::now().duration_since(std::time::UNIX_EPOCH).ok().map(|d| d.as_secs())
}

/// The requirements a source declares, one string per `@require` line.
pub open spec fn requirements_of(ls: Seq<Seq<char>>) -> Seq<Seq<char>> {
    collect_lines(ls, |l: Seq<char>| requirement_of(l))
}

/// The modules a source imports, one per `import` line.
pub open spec fn imports_of(ls: Seq<Seq<char>>) -> Seq<Seq<char>> {
    collect_lines(ls, |l: Seq<char>| import_of(l))
}

/// The functions a source exports, with their `async` marks.
pub open spec fn exports_of(ls: Seq<Seq<char>>) -> Seq<(Seq<char>, bool)> {
    collect_lines(ls, |l: Seq<char>| export_of(l))
}

fn collect_requirements(source: &str, s: &Vec<char>, spans: &Vec<(usize, usize)>) -> (r: Vec<String>)
    requires
        s@ == source@,
        forall|k: int| 0 <= k < spans@.len() ==> span_within(#[trigger] spans@[k], s@.len() as nat),
    ensures
        r@.len() == requirements_of(span_texts(s@, spans@)).len(),
        forall|i: int| 0 <= i < r@.len() ==> #[trigger] r@[i]@ == requirements_of(span_texts(s@, spans@))[i],
{
    let ghost texts = span_texts(s@, spans@);
    let mut reqs: Vec<String> = Vec::new();
    let mut k: usize = 0;
    while k < spans.len()
        invariant
            s@ == source@,
            texts == span_texts(s@, spans@),
            forall|j: int| 0 <= j < spans@.len() ==> span_within(#[trigger] spans@[j], s@.len() as nat),
            k <= spans@.len(),
            reqs@.len() == requirements_of(texts.subrange(0, k as int)).len(),
            forall|i: int| 0 <= i < reqs@.len() ==> #[trigger] reqs@[i]@ == requirements_of(texts.subrange(0, k as int))[i],
        decreases spans@.len() - k,
    {
        let (a, b) = spans[k];
        let ghost line = texts[k as int];
        assert(line == s@.subrange(a as int, b as int));
        assert(texts.subrange(0, k + 1).drop_last() =~= texts.subrange(0, k as int));
        let ghost before = requirements_of(texts.subrange(0, k as int));
        let ghost after = requirements_of(texts.subrange(0, k + 1));
        match prefixed_item_span(s, a, b, "@require ") {
            Some((x, y)) => {
                let ghost prev = reqs@;
                reqs.push(source.substring_char(x, y).to_owned());
                assert(after == before.push(s@.subrange(x as int, y as int)));
                assert forall|i: int| 0 <= i < reqs@.len() implies #[trigger] reqs@[i]@ == after[i] by {
                    if i < prev.len() {
                        assert(reqs@[i] == prev[i]);
                    }
                }
            },
            None => {
                assert(after == before);
            },
        }
        k = k + 1;
    }
    assert(texts.subrange(0, spans@.len() as int) =~= texts);
    reqs
}

/// Whether `m` is the record of importing `module`.
pub open spec fn import_record(m: ImportInfo, module: Seq<char>) -> bool {
    &&& m.module@ == module
    &&& m.items@.len() == 1
    &&& m.items@[0]@ == "*"@
    &&& m.version is None
}

fn collect_imports(source: &str, s: &Vec<char>, spans: &Vec<(usize, usize)>) -> (r: Vec<ImportInfo>)
    requires
        s@ == source@,
        forall|k: int| 0 <= k < spans@.len() ==> span_within(#[trigger] spans@[k], s@.len() as nat),
    ensures
        r@.len() == imports_of(span_texts(s@, spans@)).len(),
        forall|i: int| 0 <= i < r@.len() ==> import_record(#[trigger] r@[i], imports_of(span_texts(s@, spans@))[i]),
{
    let ghost texts = span_texts(s@, spans@);
    let mut imports: Vec<ImportInfo> = Vec::new();
    let mut k: usize = 0;
    while k < spans.len()
        invariant
            s@ == source@,
            texts == span_texts(s@, spans@),
            forall|j: int| 0 <= j < spans@.len() ==> span_within(#[trigger] spans@[j], s@.len() as nat),
            k <= spans@.len(),
            imports@.len() == imports_of(texts.subrange(0, k as int)).len(),
            forall|i: int| 0 <= i < imports@.len() ==> import_record(#[trigger] imports@[i], imports_of(texts.subrange(0, k as int))[i]),
        decreases spans@.len() - k,
    {
        let (a, b) = spans[k];
        let ghost line = texts[k as int];
        assert(line == s@.subrange(a as int, b as int));
        assert(texts.subrange(0, k + 1).drop_last() =~= texts.subrange(0, k as int));
        let ghost before = imports_of(texts.subrange(0, k as int));
        let ghost after = imports_of(texts.subrange(0, k + 1));
        match prefixed_item_span(s, a, b, "import ") {
            Some((x, y)) => {
                let ghost prev = imports@;
                let mut items: Vec<String> = Vec::new();
                items.push(String::from_str("*"));
                imports.push(ImportInfo {
                    module: source.substring_char(x, y).to_owned(),
                    items,
                    version: None,
                });
                assert(after == before.push(s@.subrange(x as int, y as int)));
                assert forall|i: int| 0 <= i < imports@.len() implies import_record(#[trigger] imports@[i], after[i]) by {
                    if i < prev.len() {
                        assert(imports@[i] == prev[i]);
                    }
                }
            },
            None => {
                assert(after == before);
            },
        }
        k = k + 1;
    }
    assert(texts.subrange(0, spans@.len() as int) =~= texts);
    imports
}

/// Whether `e` is the record of exporting `item`.
pub open spec fn export_record(e: ExportInfo, item: (Seq<char>, bool)) -> bool {
    &&& e.name@ == item.0
    &&& e.is_async == item.1
    &&& e.param_count == 0
    &&& e.doc is None
}

fn collect_exports(source: &str, s: &Vec<char>, spans: &Vec<(usize, usize)>) -> (r: Vec<ExportInfo>)
    requires
        s@ == source@,
        forall|k: int| 0 <= k < spans@.len() ==> span_within(#[trigger] spans@[k], s@.len() as nat),
    ensures
        r@.len() == exports_of(span_texts(s@, spans@)).len(),
        forall|i: int| 0 <= i < r@.len() ==> export_record(#[trigger] r@[i], exports_of(span_texts(s@, spans@))[i]),
{
    let ghost texts = span_texts(s@, spans@);
    let mut exports: Vec<ExportInfo> = Vec::new();
    let mut k: usize = 0;
    while k < spans.len()
        invariant
            s@ == source@,
            texts == span_texts(s@, spans@),
            forall|j: int| 0 <= j < spans@.len() ==> span_within(#[trigger] spans@[j], s@.len() as nat),
            k <= spans@.len(),
            exports@.len() == exports_of(texts.subrange(0, k as int)).len(),
            forall|i: int| 0 <= i < exports@.len() ==> export_record(#[trigger] exports@[i], exports_of(texts.subrange(0, k as int))[i]),
        decreases spans@.len() - k,
    {
        let (a, b) = spans[k];
        let ghost line = texts[k as int];
        assert(line == s@.subrange(a as int, b as int));
        assert(texts.subrange(0, k + 1).drop_last() =~= texts.subrange(0, k as int));
        let ghost before = exports_of(texts.subrange(0, k as int));
        let ghost after = exports_of(texts.subrange(0, k + 1));
        match export_span(s, a, b) {
            Some((x, y, is_async)) => {
                let ghost prev = exports@;
                exports.push(ExportInfo {
                    name: source.substring_char(x, y).to_owned(),
                    param_count: 0,
                    is_async,
                    doc: None,
                });
                assert(after == before.push((s@.subrange(x as int, y as int), is_async)));
                assert forall|i: int| 0 <= i < exports@.len() implies export_record(#[trigger] exports@[i], after[i]) by {
                    if i < prev.len() {
                        assert(exports@[i] == prev[i]);
                    }
                }
            },
            None => {
                assert(after == before);
            },
        }
        k = k + 1;
    }
    assert(texts.subrange(0, spans@.len() as int) =~= texts);
    exports
}

fn extract_metadata(source: &str, s: &Vec<char>, spans: &Vec<(usize, usize)>, options: &CompileOptions) -> (r: Metadata)
    requires
        s@ == source@,
        span_texts(s@, spans@) == lines_of(s@),
        forall|k: int| 0 <= k < spans@.len() ==> span_within(#[trigger] spans@[k], s@.len() as nat),
    ensures
        metadata_of_source(r, source@, *options),
{
    let required_capabilities = collect_requirements(source, s, spans);
    let imports = collect_imports(source, s, spans);
    let exports = collect_exports(source, s, spans);
    let source_name = match &options.source_name {
        Some(n) => Some(n.clone()),
        None => None,
    };
    let compiled_at = match unix_seconds_now() {
        Some(t) => Some(t),
        None => Some(0),
    };
    Metadata {
        language_version: String::from_str(LANGUAGE_VERSION),
        compiler_version: String::from_str(crate::VERSION),
        source_name,
        compiled_at,
        required_capabilities,
        exports,
        imports,
        custom: StringTable::new(),
    }
}

/// Whether `c` is what compiling the source `source` with `o` yields.
pub open spec fn compiled_from(c: CompileResult, source: &str, o: CompileOptions) -> bool {
    &&& c.bytecode@ == bytecode_of(source.spec_bytes(), o)
    &&& metadata_of_source(c.metadata, source@, o)
    &&& c.warnings@.len() == expected_warnings(lines_of(source@)).len()
    &&& forall|i: int|
        0 <= i < c.warnings@.len() ==> warning_is(
            #[trigger] c.warnings@[i],
            expected_warnings(lines_of(source@))[i].0,
            expected_warnings(lines_of(source@))[i].1,
        )
    &&& c.stats.source_bytes == source.spec_bytes().len()
    &&& c.stats.bytecode_bytes == c.bytecode@.len()
    &&& c.stats.function_count == 1
}

/// Compile source code to bytecode, with metadata hints and warnings.
/// Empty or white-space-only source is rejected.
pub fn compile_source(source: &str, options: &CompileOptions) -> (r: Result<CompileResult, Error>)
    ensures
        (r is Err) == (trim(source@).len() == 0),
        r matches Err(e) ==> (e matches Error::Compilation(m) && m@ == "empty source"@),
        r matches Ok(c) ==> compiled_from(c, source, *options),
{
    let start = instant_now();
    let chars = chars_of(source);
    let n = chars.len();
    let (ta, tb) = trim_span(&chars, 0, n);
    assert(chars@.subrange(0, n as int) =~= source@);
    if ta == tb {
        return Err(Error::compilation("empty source"));
    }
    let bytecode = generate_bytecode(source, options);
    let spans = line_spans(&chars);
    let metadata = extract_metadata(source, &chars, &spans, options);
    let warnings = check_warnings(&chars, &spans);
    let elapsed = elapsed_since(&start);
    let source_bytes = source.len();
    let bytecode_bytes = bytecode.len();
    Ok(CompileResult {
        bytecode,
        metadata,
        warnings,
        stats: CompileStats {
            source_bytes,
            bytecode_bytes,
            function_count: 1,
            compile_time_ms: elapsed.as_millis(),
        },
    })
}

// ---------------------------------------------------------------------------
// Source files
// ---------------------------------------------------------------------------

/// Whether `k` is the last position of a `.` in `x`.
pub open spec fn is_last_dot(x: Seq<char>, k: int) -> bool {
    0 <= k < x.len() && x[k] == '.' && forall|j: int| k < j < x.len() ==> x[j] != '.'
}

/// The extension of a path, as `Path::extension` reads it: the text after
/// the last `.` of the final component, unless that `.` opens the name.
pub open spec fn extension_of(path: Seq<char>) -> Option<Seq<char>> {
    let segs = path_segments(path);
    if segs.len() == 0 || segs.last() == seq!['.', '.'] {
        None
    } else {
        let name = segs.last();
        if exists|k: int| is_last_dot(name, k) {
            let k = choose|k: int| is_last_dot(name, k);
            if k > 0 {
                Some(name.subrange(k + 1, name.len() as int))
            } else {
                None
            }
        } else {
            None
        }
    }
}

/// Whether a path names a script source: extension `fsx` or `fusabi`.
pub open spec fn is_source_path(path: Seq<char>) -> bool {
    extension_of(path) == Some("fsx"@) || extension_of(path) == Some("fusabi"@)
}

proof fn lemma_last_dot_unique(x: Seq<char>, a: int, b: int)
    requires
        is_last_dot(x, a),
        is_last_dot(x, b),
    ensures
        a == b,
{
}

fn span_equals(v: &Vec<char>, a: usize, b: usize, lit: &str) -> (r: bool)
    requires
        a <= b <= v@.len(),
    ensures
        r == (v@.subrange(a as int, b as int) == lit@),
{
    if b - a != lit.unicode_len() {
        return false;
    }
    let r = span_has_prefix(v, a, b, lit);
    assert(v@.subrange(a as int, b as int).subrange(0, lit@.len() as int) =~= v@.subrange(a as int, b as int));
    r
}

/// Check that a path names a script source, failing with a compilation
/// error that quotes the path otherwise.
pub fn check_source_path(path: &str) -> (r: Result<(), Error>)
    ensures
        (r is Ok) == is_source_path(path@),
        r matches Err(e) ==> (e matches Error::Compilation(m) && m@
            == "expected .fsx or .fusabi file, got: "@ + path@),
{
    let segs = segments_of(path);
    let ghost views = char_vec_views(segs@);
    let failure = Err(Error::Compilation(crate::sandbox::denial("expected .fsx or .fusabi file, got: ", path)));
    if segs.len() == 0 {
        return failure;
    }
    let name = &segs[segs.len() - 1];
    assert(views.last() == name@);
    let n = name.len();
    if n == 2 && name[0] == '.' && name[1] == '.' {
        assert(name@ =~= seq!['.', '.']);
        return failure;
    }
    assert(name@ != seq!['.', '.']) by {
        if name@ == seq!['.', '.'] {
            assert(name@[0] == '.' && name@[1] == '.');
        }
    }
    let mut k: usize = n;
    while k > 0 && name[k - 1] != '.'
        invariant
            k <= n,
            n == name@.len(),
            forall|j: int| k <= j < n ==> name@[j] != '.',
        decreases k,
    {
        k = k - 1;
    }
    if k == 0 {
        assert(!exists|j: int| is_last_dot(name@, j));
        return failure;
    }
    let dot = k - 1;
    proof {
        let c = choose|c: int| is_last_dot(name@, c);
        assert(is_last_dot(name@, dot as int));
        lemma_last_dot_unique(name@, c, dot as int);
    }
    if dot == 0 {
        return failure;
    }
    if span_equals(name, dot + 1, n, "fsx") || span_equals(name, dot + 1, n, "fusabi") {
        Ok(())
    } else {
        failure
    }
}

} // verus!
