use hxnu_target_spec::{
    validate_target_spec, PointerWidth, RawTargetSpec, TargetId, TargetSpecError,
};

fn raw(arch: &str, llvm: &str, endian: &str, width: PointerWidth) -> RawTargetSpec {
    RawTargetSpec {
        arch: arch.to_string(),
        llvm_target: llvm.to_string(),
        target_endian: endian.to_string(),
        target_pointer_width: width,
        linker: Some("rust-lld".to_string()),
    }
}

fn text64() -> PointerWidth {
    PointerWidth::Text("64".to_string())
}

#[test]
fn pointer_width_text_forms() {
    assert_eq!(PointerWidth::Number(64).as_string(), "64");
    assert_eq!(PointerWidth::Number(0).as_string(), "0");
    assert_eq!(PointerWidth::Number(65535).as_string(), "65535");
    assert_eq!(PointerWidth::Text("32".to_string()).as_string(), "32");
}

#[test]
fn numeric_width_passes_and_summary_keeps_fields() {
    let spec = raw("x86_64", "x86_64-unknown-none", "little", PointerWidth::Number(64));
    let summary = validate_target_spec(spec, Some(TargetId::X86_64)).expect("valid");
    assert_eq!(summary.target_id, Some(TargetId::X86_64));
    assert_eq!(summary.llvm_target, "x86_64-unknown-none");
    assert_eq!(summary.target_endian, "little");
    assert_eq!(summary.target_pointer_width, "64");
    assert_eq!(summary.linker.as_deref(), Some("rust-lld"));
}

#[test]
fn wrong_pointer_width_is_rejected() {
    let err = validate_target_spec(
        raw("x86_64", "x86_64-unknown-none", "little", PointerWidth::Number(32)),
        Some(TargetId::X86_64),
    )
    .unwrap_err();
    assert!(matches!(&err, TargetSpecError::InvalidPointerWidth { found } if found == "32"));
    assert_eq!(err.message(), "invalid target-pointer-width 32, expected 64");
    let err = validate_target_spec(
        raw("x86_64", "x86_64", "little", PointerWidth::Text("064".to_string())),
        None,
    )
    .unwrap_err();
    assert_eq!(err.message(), "invalid target-pointer-width 064, expected 64");
}

#[test]
fn arch_mismatch_is_rejected() {
    let err = validate_target_spec(
        raw("x86_64", "aarch64-unknown-none", "little", text64()),
        Some(TargetId::Aarch64),
    )
    .unwrap_err();
    assert_eq!(err.message(), "invalid arch x86_64, expected aarch64");
}

#[test]
fn endian_mismatch_is_rejected() {
    let err = validate_target_spec(
        raw("powerpc64", "powerpc64-unknown-none", "little", text64()),
        Some(TargetId::Powerpc64),
    )
    .unwrap_err();
    assert_eq!(err.message(), "invalid target-endian little, expected big");
}

#[test]
fn llvm_target_mismatch_is_rejected() {
    let err = validate_target_spec(
        raw("powerpc64", "powerpc64-unknown-none", "little", text64()),
        Some(TargetId::Powerpc64Le),
    )
    .unwrap_err();
    assert_eq!(
        err.message(),
        "invalid llvm-target powerpc64-unknown-none, expected powerpc64le-compatible target"
    );
}

#[test]
fn generic_checks() {
    let err = validate_target_spec(raw("", "x", "little", text64()), None).unwrap_err();
    assert!(matches!(err, TargetSpecError::EmptyArch));
    assert_eq!(err.message(), "invalid arch: empty");
    let err = validate_target_spec(raw("riscv64", "x", "middle", text64()), None).unwrap_err();
    assert_eq!(err.message(), "invalid target-endian middle, expected little or big");
    let ok = validate_target_spec(raw("riscv64", "riscv64-unknown-none", "big", text64()), None)
        .expect("valid");
    assert_eq!(ok.target_id, None);
    assert_eq!(ok.arch, "riscv64");
}

#[test]
fn passing_for_a_target_passes_generically() {
    for t in [TargetId::X86_64, TargetId::Aarch64, TargetId::Powerpc64Le, TargetId::Powerpc64] {
        let spec = raw(t.expected_arch(), t.as_triple(), t.expected_endian(), text64());
        assert!(validate_target_spec(spec.clone(), Some(t)).is_ok());
        assert!(validate_target_spec(spec, None).is_ok());
    }
}
