use hxnu_target_spec::{
    archive_file_name, bundle_dir_name, discover_hxnu_rustc_path, discover_targets_dir_from_exe,
    has_supported_target_specs, hxnu_rustc_candidates, is_prebuilt_lib_file, profile_dir_name,
    sdk_manifest_text, target_json_path, target_json_path_for_triple, targets_dir_candidates,
    BuildProfile, LayoutError, TargetId, BUNDLE_NAME,
};

fn all_specs_in(dir: &str) -> Vec<String> {
    [TargetId::X86_64, TargetId::Aarch64, TargetId::Powerpc64Le, TargetId::Powerpc64]
        .iter()
        .map(|t| target_json_path(dir, *t))
        .collect()
}

#[test]
fn json_paths_join_like_paths() {
    assert_eq!(
        target_json_path("/sdk/targets", TargetId::X86_64),
        "/sdk/targets/x86_64-unknown-hxnu.json"
    );
    assert_eq!(
        target_json_path("/sdk/targets/", TargetId::Aarch64),
        "/sdk/targets/aarch64-unknown-hxnu.json"
    );
    assert_eq!(target_json_path("", TargetId::Powerpc64), "powerpc64-unknown-hxnu.json");
    assert_eq!(
        target_json_path_for_triple("t", "powerpc64le-unknown-hxnu"),
        Some("t/powerpc64le-unknown-hxnu.json".to_string())
    );
    assert_eq!(target_json_path_for_triple("t", "custom"), None);
}

#[test]
fn candidate_directories() {
    assert_eq!(
        targets_dir_candidates("/sdk/bin"),
        vec!["/sdk/bin/../targets", "/sdk/bin/../../targets", "/sdk/bin/targets"]
    );
    assert_eq!(
        hxnu_rustc_candidates("/sdk/bin"),
        vec!["/sdk/bin/hxnu-rustc", "/sdk/bin/../hxnu-rustc"]
    );
}

#[test]
fn targets_dir_is_first_complete_candidate() {
    let mut existing = all_specs_in("/sdk/bin/../../targets");
    existing.extend(all_specs_in("/sdk/bin/targets"));
    assert!(has_supported_target_specs("/sdk/bin/targets", &existing));
    assert!(!has_supported_target_specs("/sdk/bin/../targets", &existing));
    let found =
        discover_targets_dir_from_exe("/sdk/bin/hxnu-cargo", Some("/sdk/bin"), &existing).unwrap();
    assert_eq!(found, "/sdk/bin/../../targets");
}

#[test]
fn incomplete_targets_dir_is_not_used() {
    let mut existing = all_specs_in("/sdk/bin/../targets");
    existing.pop();
    let err = discover_targets_dir_from_exe("/sdk/bin/hxnu-rustc", Some("/sdk/bin"), &existing)
        .unwrap_err();
    assert_eq!(
        err.message(),
        "failed to locate targets directory near executable /sdk/bin/hxnu-rustc; expected x86_64-unknown-hxnu.json,aarch64-unknown-hxnu.json,powerpc64le-unknown-hxnu.json,powerpc64-unknown-hxnu.json"
    );
    let err = discover_targets_dir_from_exe("/", None, &existing).unwrap_err();
    assert!(matches!(err, LayoutError::ExecutableParentMissing));
    assert_eq!(err.message(), "failed to detect executable parent directory");
}

#[test]
fn rustc_binary_lookup() {
    let both = vec!["d/hxnu-rustc".to_string(), "d/../hxnu-rustc".to_string()];
    assert_eq!(discover_hxnu_rustc_path(Some("d"), &both).unwrap(), "d/hxnu-rustc");
    assert_eq!(discover_hxnu_rustc_path(Some("d"), &both[1..]).unwrap(), "d/../hxnu-rustc");
    assert_eq!(discover_hxnu_rustc_path(Some("d"), &[]).unwrap(), "hxnu-rustc");
    let err = discover_hxnu_rustc_path(None, &both).unwrap_err();
    assert_eq!(err.message(), "failed to resolve executable directory");
}

#[test]
fn bundle_names_and_manifest() {
    assert_eq!(BUNDLE_NAME, "hxnu-rustc-compiler-x86_64");
    assert_eq!(bundle_dir_name("0.1.0"), "hxnu-rustc-compiler-x86_64-0.1.0");
    assert_eq!(profile_dir_name(BuildProfile::Debug), "debug");
    assert_eq!(profile_dir_name(BuildProfile::Release), "release");
    assert_eq!(
        sdk_manifest_text("0.1.0", BuildProfile::Release),
        "name=hxnu-rustc-compiler-x86_64\nversion=0.1.0\ntarget=x86_64-unknown-hxnu\nprofile=release\n"
    );
    assert_eq!(
        archive_file_name(Some("hxnu-rustc-compiler-x86_64-0.1.0")),
        "hxnu-rustc-compiler-x86_64-0.1.0.tar.gz"
    );
    assert_eq!(archive_file_name(None), "hxnu-rustc-compiler-x86_64.tar.gz");
}

#[test]
fn prebuilt_library_filter() {
    assert!(is_prebuilt_lib_file("libcore-1234abcd.rlib", "libcore-"));
    assert!(is_prebuilt_lib_file("liballoc-1234abcd.rmeta", "liballoc-"));
    assert!(!is_prebuilt_lib_file("libcore-1234abcd.d", "libcore-"));
    assert!(!is_prebuilt_lib_file("libcompiler_builtins-1.rlib", "libcore-"));
}
