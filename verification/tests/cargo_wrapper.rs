use hxnu_target_spec::{merged_rustflags, prepare_cargo_args, TARGET_TRIPLE};

#[test]
fn compile_subcommand_adds_target_and_build_std() {
    let args = vec!["build".to_string()];
    let planned = prepare_cargo_args(&args);

    assert!(planned
        .windows(2)
        .any(|w| w[0] == "--target" && w[1] == TARGET_TRIPLE));
    assert!(planned
        .iter()
        .any(|arg| arg == "build-std=core,alloc,compiler_builtins"));
}

#[test]
fn metadata_subcommand_keeps_args() {
    let args = vec![
        "metadata".to_string(),
        "--format-version".to_string(),
        "1".to_string(),
    ];
    let planned = prepare_cargo_args(&args);
    assert_eq!(planned, args);
}

#[test]
fn rustflags_merge_keeps_existing_abort() {
    let merged = merged_rustflags(Some("-C panic=abort -C debuginfo=2".to_string()));
    assert_eq!(merged, "-C panic=abort -C debuginfo=2");
}

#[test]
fn rustflags_merge_appends_abort() {
    let merged = merged_rustflags(Some("-C debuginfo=2".to_string()));
    assert_eq!(merged, "-C debuginfo=2 -C panic=abort");
}
