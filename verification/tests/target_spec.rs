use hxnu_target_spec::{
    ensure_build_std_flag, ensure_panic_abort_codegen, ensure_target_arg, extract_target_arg,
    has_build_std_flag, has_panic_abort_codegen, has_target_arg, is_host_side_compilation,
    should_inject_rustc_defaults, target_id_from_triple, validate_target_spec, PointerWidth,
    RawTargetSpec, TargetId, TARGET_TRIPLE_AARCH64, TARGET_TRIPLE_POWERPC64,
    TARGET_TRIPLE_POWERPC64LE, TARGET_TRIPLE_X86_64,
};

#[test]
fn adds_default_target_when_missing() {
    let mut args = vec!["rustc".into(), "main.rs".into()];
    ensure_target_arg(&mut args);
    assert!(has_target_arg(&args));
    assert!(args
        .windows(2)
        .any(|window| { window[0] == "--target" && window[1] == TARGET_TRIPLE_X86_64 }));
}

#[test]
fn keeps_existing_target() {
    let mut args = vec!["rustc".into(), "--target=aarch64-unknown-hxnu".into()];
    ensure_target_arg(&mut args);
    assert_eq!(args.len(), 2);
    assert_eq!(extract_target_arg(&args), Some(TARGET_TRIPLE_AARCH64));
}

#[test]
fn resolves_target_ids() {
    assert_eq!(
        target_id_from_triple(TARGET_TRIPLE_X86_64),
        Some(TargetId::X86_64)
    );
    assert_eq!(
        target_id_from_triple(TARGET_TRIPLE_AARCH64),
        Some(TargetId::Aarch64)
    );
    assert_eq!(
        target_id_from_triple(TARGET_TRIPLE_POWERPC64LE),
        Some(TargetId::Powerpc64Le)
    );
    assert_eq!(
        target_id_from_triple(TARGET_TRIPLE_POWERPC64),
        Some(TargetId::Powerpc64)
    );
}

#[test]
fn adds_panic_abort_when_missing() {
    let mut args = vec!["rustc".into()];
    ensure_panic_abort_codegen(&mut args);
    assert!(has_panic_abort_codegen(&args));
}

#[test]
fn adds_build_std_when_missing() {
    let mut args = vec!["cargo".into(), "build".into()];
    ensure_build_std_flag(&mut args);
    assert!(has_build_std_flag(&args));
}

#[test]
fn validates_target_spec_for_expected_target() {
    let raw = RawTargetSpec {
        arch: "aarch64".to_string(),
        llvm_target: "aarch64-unknown-none-elf".to_string(),
        target_endian: "little".to_string(),
        target_pointer_width: PointerWidth::Text("64".to_string()),
        linker: None,
    };
    let summary = validate_target_spec(raw, Some(TargetId::Aarch64)).expect("valid spec");
    assert_eq!(summary.arch, "aarch64");
    assert_eq!(summary.target_pointer_width, "64");
    assert_eq!(summary.target_id, Some(TargetId::Aarch64));
}

#[test]
fn skips_injection_for_version_query() {
    let args = vec!["rustc".to_string(), "-vV".to_string()];
    assert!(!should_inject_rustc_defaults(&args));
}

#[test]
fn detects_host_build_script() {
    let args = vec![
        "rustc".to_string(),
        "--crate-name".to_string(),
        "build_script_build".to_string(),
    ];
    assert!(is_host_side_compilation(&args));
}

#[test]
fn detects_host_proc_macro_compile() {
    let args = vec![
        "rustc".to_string(),
        "--crate-type".to_string(),
        "proc-macro".to_string(),
    ];
    assert!(is_host_side_compilation(&args));
}

#[test]
fn ignores_probe_with_proc_macro_crate_type() {
    let args = vec![
        "rustc".to_string(),
        "-".to_string(),
        "--print=file-names".to_string(),
        "--crate-type".to_string(),
        "bin".to_string(),
        "--crate-type".to_string(),
        "proc-macro".to_string(),
    ];
    assert!(!is_host_side_compilation(&args));
}
