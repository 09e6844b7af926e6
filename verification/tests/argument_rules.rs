use hxnu_target_spec::{
    compile_subcommand, ensure_build_std_flag, ensure_panic_abort_codegen, ensure_target_arg,
    ensure_unstable_options_flag, extract_target_arg, has_build_std_flag,
    has_panic_abort_codegen, has_target_arg, has_unstable_options_flag,
    is_host_side_compilation, merged_rustflags, parse_subcommand, prepare_cargo_args,
    prepare_rustc_args, rustc_target_to_validate, selected_target_id,
    selected_target_or_default, should_inject_build_std, should_inject_rustc_defaults,
    should_inject_target, TargetId,
};

fn strings(items: &[&str]) -> Vec<String> {
    items.iter().map(|s| s.to_string()).collect()
}

#[test]
fn target_flag_as_last_argument_has_no_value() {
    let args = strings(&["rustc", "--target"]);
    assert_eq!(extract_target_arg(&args), None);
    assert!(!has_target_arg(&args));
}

#[test]
fn first_target_flag_wins() {
    let args = strings(&["rustc", "--target", "powerpc64-unknown-hxnu", "--target=x"]);
    assert_eq!(extract_target_arg(&args), Some("powerpc64-unknown-hxnu"));
    assert_eq!(selected_target_id(&args), Some(TargetId::Powerpc64));
}

#[test]
fn unknown_or_missing_target_selects_default() {
    let unknown = strings(&["rustc", "--target=riscv64-unknown-hxnu"]);
    assert_eq!(selected_target_id(&unknown), None);
    assert_eq!(selected_target_or_default(&unknown), TargetId::X86_64);
    let missing = strings(&["rustc", "main.rs"]);
    assert_eq!(selected_target_or_default(&missing), TargetId::X86_64);
    let given = strings(&["rustc", "--target=powerpc64le-unknown-hxnu"]);
    assert_eq!(selected_target_or_default(&given), TargetId::Powerpc64Le);
}

#[test]
fn ensure_target_is_idempotent() {
    let mut args = strings(&["rustc"]);
    ensure_target_arg(&mut args);
    let once = args.clone();
    ensure_target_arg(&mut args);
    assert_eq!(args, once);
    assert_eq!(args, strings(&["rustc", "--target", "x86_64-unknown-hxnu"]));
}

#[test]
fn dangling_target_flag_gets_a_value() {
    let mut args = strings(&["rustc", "--target"]);
    ensure_target_arg(&mut args);
    assert!(has_target_arg(&args));
}

#[test]
fn panic_abort_forms() {
    assert!(has_panic_abort_codegen(&strings(&["rustc", "-C", "panic=abort"])));
    assert!(has_panic_abort_codegen(&strings(&["rustc", "-Cpanic=abort"])));
    assert!(has_panic_abort_codegen(&strings(&["--codegen=panic=abort"])));
    assert!(!has_panic_abort_codegen(&strings(&["rustc", "-C", "panic=unwind"])));
    assert!(!has_panic_abort_codegen(&strings(&["rustc", "-C"])));
    assert!(!has_panic_abort_codegen(&strings(&["panic=abort"])));
}

#[test]
fn ensure_panic_abort_appends_pair_once() {
    let mut args = strings(&["rustc", "-C"]);
    ensure_panic_abort_codegen(&mut args);
    assert_eq!(args, strings(&["rustc", "-C", "-C", "panic=abort"]));
    ensure_panic_abort_codegen(&mut args);
    assert_eq!(args.len(), 4);
}

#[test]
fn unstable_options_forms() {
    assert!(has_unstable_options_flag(&strings(&["-Z", "unstable-options"])));
    assert!(has_unstable_options_flag(&strings(&["-Zunstable-options"])));
    assert!(!has_unstable_options_flag(&strings(&["-Z", "build-std=core"])));
    let mut args = strings(&["rustc"]);
    ensure_unstable_options_flag(&mut args);
    assert_eq!(args, strings(&["rustc", "-Z", "unstable-options"]));
    ensure_unstable_options_flag(&mut args);
    assert_eq!(args.len(), 3);
}

#[test]
fn build_std_forms() {
    assert!(has_build_std_flag(&strings(&["-Zbuild-std=core"])));
    assert!(has_build_std_flag(&strings(&["-Z", "build-std=core"])));
    assert!(!has_build_std_flag(&strings(&["-Z", "unstable-options"])));
    // The value after -Z is consumed: it is not scanned on its own.
    assert!(!has_build_std_flag(&strings(&["-Z", "-Z", "build-std=core"])));
}

#[test]
fn build_std_after_dangling_z_is_swallowed() {
    let mut args = strings(&["cargo", "-Z"]);
    ensure_build_std_flag(&mut args);
    assert_eq!(
        args,
        strings(&["cargo", "-Z", "-Z", "build-std=core,alloc,compiler_builtins"])
    );
    assert!(!has_build_std_flag(&args));
}

#[test]
fn information_queries_are_recognised() {
    for query in [
        "-V", "--version", "-vV", "-h", "--help", "--print", "--explain", "-Whelp", "-Chelp",
        "-Zhelp",
    ] {
        assert!(!should_inject_rustc_defaults(&strings(&["rustc", query])));
    }
    assert!(should_inject_rustc_defaults(&strings(&["rustc", "--print=cfg"])));
    assert!(should_inject_rustc_defaults(&strings(&["rustc", "main.rs"])));
}

#[test]
fn host_side_detection() {
    assert!(is_host_side_compilation(&strings(&["rustc", "--crate-type=proc-macro"])));
    assert!(!is_host_side_compilation(&strings(&["rustc", "--crate-type=lib"])));
    assert!(!is_host_side_compilation(&strings(&["rustc", "main.rs"])));
    assert!(!is_host_side_compilation(&strings(&[
        "rustc",
        "--crate-type",
        "proc-macro",
        "--print",
    ])));
    assert!(!is_host_side_compilation(&strings(&["rustc", "--crate-name", "build_script_main"])));
    assert!(!is_host_side_compilation(&strings(&["rustc", "--crate-type"])));
}

#[test]
fn cargo_subcommand_parsing() {
    let args = strings(&["--manifest-path", "x/Cargo.toml", "-v", "build", "--release"]);
    assert_eq!(parse_subcommand(&args), Some("build"));
    assert_eq!(compile_subcommand(&args), Some("build"));
    assert!(should_inject_target(&args));
    assert!(should_inject_build_std(&args));
    let meta = strings(&["-Z", "unstable-options", "metadata"]);
    assert_eq!(parse_subcommand(&meta), Some("metadata"));
    assert_eq!(compile_subcommand(&meta), None);
    assert!(!should_inject_target(&meta));
    assert_eq!(parse_subcommand(&strings(&["-j"])), None);
    assert_eq!(parse_subcommand(&strings(&["--verbose"])), None);
}

#[test]
fn cargo_args_keep_given_target() {
    let args = strings(&["check", "--target", "aarch64-unknown-hxnu"]);
    let planned = prepare_cargo_args(&args);
    assert_eq!(
        planned,
        strings(&[
            "check",
            "--target",
            "aarch64-unknown-hxnu",
            "-Z",
            "build-std=core,alloc,compiler_builtins",
        ])
    );
}

#[test]
fn rustflags_without_existing() {
    assert_eq!(merged_rustflags(None), "-C panic=abort");
    assert_eq!(merged_rustflags(Some(String::new())), " -C panic=abort");
}

#[test]
fn rustc_args_for_target_compilation() {
    let mut args = strings(&["rustc", "main.rs"]);
    prepare_rustc_args(&mut args);
    assert_eq!(
        args,
        strings(&[
            "rustc",
            "main.rs",
            "--target",
            "x86_64-unknown-hxnu",
            "-C",
            "panic=abort",
            "-Z",
            "unstable-options",
        ])
    );
}

#[test]
fn rustc_args_for_queries_and_host_builds() {
    let mut query = strings(&["rustc", "--version"]);
    prepare_rustc_args(&mut query);
    assert_eq!(query, strings(&["rustc", "--version"]));

    let mut host = strings(&["rustc", "--crate-type", "proc-macro"]);
    prepare_rustc_args(&mut host);
    assert_eq!(host, strings(&["rustc", "--crate-type", "proc-macro"]));

    let mut host_with_target =
        strings(&["rustc", "--crate-name", "build_script_build", "--target=aarch64-unknown-hxnu"]);
    prepare_rustc_args(&mut host_with_target);
    assert_eq!(
        host_with_target,
        strings(&[
            "rustc",
            "--crate-name",
            "build_script_build",
            "--target=aarch64-unknown-hxnu",
            "-Z",
            "unstable-options",
        ])
    );
}

#[test]
fn rustc_validation_target() {
    assert_eq!(rustc_target_to_validate(&strings(&["rustc"])), Some(TargetId::X86_64));
    assert_eq!(
        rustc_target_to_validate(&strings(&["rustc", "--target", "aarch64-unknown-hxnu"])),
        Some(TargetId::Aarch64)
    );
    assert_eq!(
        rustc_target_to_validate(&strings(&["rustc", "--target=custom.json"])),
        None
    );
}
