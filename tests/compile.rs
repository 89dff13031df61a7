use fusabi_host::compile::{check_source_path, CompileWarning, LANGUAGE_VERSION};
use fusabi_host::{
    compile_source, extract_bytecode_metadata, validate_bytecode, CompileOptions, Error,
};

#[test]
fn test_compile_source() {
    let result = compile_source("42", &CompileOptions::default()).unwrap();

    assert!(!result.bytecode.is_empty());
    assert!(result.bytecode.starts_with(b"FZB\x00"));
    assert_eq!(result.stats.source_bytes, 2);
}

#[test]
fn test_compile_empty_source() {
    let result = compile_source("", &CompileOptions::default());
    assert!(matches!(result, Err(Error::Compilation(_))));

    let result = compile_source("   ", &CompileOptions::default());
    assert!(matches!(result, Err(Error::Compilation(_))));
}

#[test]
fn test_compile_options_builder() {
    let opts = CompileOptions::new()
        .with_opt_level(2)
        .with_debug_info()
        .with_source_name("test.fsx");

    assert_eq!(opts.opt_level, 2);
    assert!(opts.debug_info);
    assert_eq!(opts.source_name, Some("test.fsx".to_string()));
}

#[test]
fn compile_test_compile_options_presets() {
    let dev = CompileOptions::development();
    assert_eq!(dev.opt_level, 0);
    assert!(dev.debug_info);

    let prod = CompileOptions::production();
    assert_eq!(prod.opt_level, 2);
    assert!(prod.strip);
}

#[test]
fn integration_test_compile_options_presets() {
    let dev = CompileOptions::development();
    assert_eq!(dev.opt_level, 0);
    assert!(dev.debug_info);
    assert!(!dev.strip);

    let prod = CompileOptions::production();
    assert_eq!(prod.opt_level, 2);
    assert!(!prod.debug_info);
    assert!(prod.strip);
}

#[test]
fn test_validate_bytecode() {
    let result = compile_source("42", &CompileOptions::default()).unwrap();
    let metadata = validate_bytecode(&result.bytecode).unwrap();

    assert_eq!(metadata.language_version, "0.18.0");
}

#[test]
fn test_validate_invalid_bytecode() {
    assert!(validate_bytecode(b"invalid").is_err());
    assert!(validate_bytecode(b"FZB").is_err());
    assert!(validate_bytecode(b"XXX\x00").is_err());
}

#[test]
fn compile_test_metadata_extraction() {
    let source = r#"
@require fs:read
import json

export fn main() {
    // TODO: implement
}
"#;

    let result = compile_source(source, &CompileOptions::default()).unwrap();

    assert!(result.metadata.requires_capability("fs:read"));
    assert!(result.metadata.imports_module("json"));
    assert!(result.metadata.get_export("main").is_some());
}

#[test]
fn integration_test_metadata_extraction() {
    let source = r#"
@require fs:read
@require net:request
import json
import http

export fn main() { }
export fn helper() { }
"#;

    let result = compile_source(source, &CompileOptions::default()).unwrap();
    let metadata = &result.metadata;

    assert!(metadata.requires_capability("fs:read"));
    assert!(metadata.requires_capability("net:request"));
    assert!(metadata.imports_module("json"));
    assert!(metadata.imports_module("http"));
    assert!(metadata.get_export("main").is_some());
    assert!(metadata.get_export("helper").is_some());
}

#[test]
fn test_compile_warnings() {
    let source = "// TODO: fix this";
    let result = compile_source(source, &CompileOptions::default()).unwrap();

    assert!(!result.warnings.is_empty());
    assert!(result.warnings[0].message.contains("TODO"));
}

fn warning_summary(w: &CompileWarning) -> (usize, usize, String, String) {
    let loc = w.location.as_ref().unwrap();
    (loc.line, loc.column, w.code.clone().unwrap(), w.message.clone())
}

#[test]
fn bytecode_layout_is_header_hash_then_source() {
    let opts = CompileOptions::new().with_opt_level(7).with_debug_info().with_strip();
    assert_eq!(opts.opt_level, 3);
    let result = compile_source("42", &opts).unwrap();
    let b = &result.bytecode;
    assert_eq!(&b[0..4], b"FZB\x00");
    assert_eq!(b[4], 1);
    assert_eq!(b[5], 0x01 | 0x02 | (3 << 4));
    assert_eq!(&b[6..16], &[0u8; 10]);
    assert_eq!(&b[16..24], &[35, 146, 177, 180, 7, 126, 238, 7]);
    assert_eq!(&b[24..], b"42");
    assert_eq!(result.stats.bytecode_bytes, 26);
    assert_eq!(result.stats.function_count, 1);
}

#[test]
fn validation_reports_each_fault() {
    let mut b = compile_source("1 + 2", &CompileOptions::default()).unwrap().bytecode;
    assert!(validate_bytecode(&b).is_ok());
    assert!(extract_bytecode_metadata(&b).is_ok());

    match validate_bytecode(&b[..15]) {
        Err(Error::InvalidBytecode(m)) => assert_eq!(m, "bytecode too short"),
        other => panic!("unexpected {:?}", other),
    }
    b[4] = 2;
    match validate_bytecode(&b) {
        Err(Error::InvalidBytecode(m)) => assert_eq!(m, "unsupported bytecode version: 2"),
        other => panic!("unexpected {:?}", other),
    }
    b[4] = 0;
    assert!(validate_bytecode(&b).is_ok());
    b[0] = b'X';
    match validate_bytecode(&b) {
        Err(Error::InvalidBytecode(m)) => assert_eq!(m, "invalid magic number"),
        other => panic!("unexpected {:?}", other),
    }
    let meta = validate_bytecode(&[0x46, 0x5A, 0x42, 0, 1, 0, 0, 0, 0, 0, 0, 0, 0, 0, 0, 0]).unwrap();
    assert_eq!(meta.compiler_version, LANGUAGE_VERSION);
    assert!(meta.required_capabilities.is_empty());
}

#[test]
fn compiled_output_validates_for_every_preset() {
    for opts in [CompileOptions::default(), CompileOptions::development(), CompileOptions::production()] {
        let r = compile_source("x", &opts).unwrap();
        assert!(validate_bytecode(&r.bytecode).is_ok());
    }
}

#[test]
fn metadata_hints_are_trimmed_and_repeated_prefixes_dropped() {
    let source = "  @require   env:read  \r\nimport import  net \npub fn  go (a) async\nexport fn noparen\nlet _x = 1 // FIXME\n";
    let opts = CompileOptions::new().with_source_name("a.fsx");
    let r = compile_source(source, &opts).unwrap();
    let m = &r.metadata;
    assert_eq!(m.required_capabilities, vec!["env:read".to_string()]);
    assert_eq!(m.imports.len(), 1);
    assert_eq!(m.imports[0].module, "net");
    assert_eq!(m.imports[0].items, vec!["*".to_string()]);
    assert_eq!(m.exports.len(), 1);
    assert_eq!(m.exports[0].name, "go");
    assert!(m.exports[0].is_async);
    assert_eq!(m.source_name, Some("a.fsx".to_string()));
    assert!(m.compiled_at.is_some());
    assert_eq!(m.language_version, "0.18.0");
    assert_eq!(m.compiler_version, fusabi_host::VERSION);

    let w: Vec<_> = r.warnings.iter().map(warning_summary).collect();
    assert_eq!(
        w,
        vec![
            (5, 1, "W001".to_string(), "unresolved TODO/FIXME comment".to_string()),
            (5, 1, "W002".to_string(), "unused variable".to_string()),
        ]
    );
}

#[test]
fn flags_replace_earlier_values() {
    let opts = CompileOptions::new().with_flag("mode", "a").with_flag("mode", "b").with_target_version("0.19.0");
    assert_eq!(opts.flags.get("mode"), Some(&"b".to_string()));
    assert_eq!(opts.flags.get("other"), None);
    assert_eq!(opts.target_version, Some("0.19.0".to_string()));
}

#[test]
fn whitespace_only_sources_are_rejected() {
    match compile_source("\t\n \u{3000}", &CompileOptions::default()) {
        Err(Error::Compilation(m)) => assert_eq!(m, "empty source"),
        other => panic!("unexpected {:?}", other.map(|r| r.bytecode)),
    }
}

#[test]
fn source_files_need_a_script_extension() {
    assert!(check_source_path("main.fsx").is_ok());
    assert!(check_source_path("dir/lib.fusabi").is_ok());
    assert!(check_source_path("a.b.fsx/").is_ok());
    assert!(check_source_path(".fsx").is_err());
    assert!(check_source_path("noext").is_err());
    assert!(check_source_path("..").is_err());
    match check_source_path("test.txt") {
        Err(Error::Compilation(m)) => assert_eq!(m, "expected .fsx or .fusabi file, got: test.txt"),
        other => panic!("unexpected {:?}", other),
    }
}
