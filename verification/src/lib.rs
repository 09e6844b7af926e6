//! Target identities, command-line argument rules, SDK layout and
//! target-spec checks of the HXNU Rust toolchain wrappers.
pub mod args;
pub mod cargo;
pub mod layout;
pub mod rustc;
pub mod sdk;
pub mod spec_file;
pub mod target;
pub mod text;

pub use args::{
    ensure_build_std_flag, ensure_panic_abort_codegen, ensure_target_arg,
    ensure_unstable_options_flag, extract_target_arg, has_build_std_flag,
    has_panic_abort_codegen, has_target_arg, has_unstable_options_flag,
    is_host_side_compilation, selected_target_id, selected_target_or_default,
    should_inject_rustc_defaults,
};
pub use cargo::{
    compile_subcommand, merged_rustflags, parse_subcommand, prepare_cargo_args,
    should_inject_build_std, should_inject_target,
};
pub use layout::{
    discover_hxnu_rustc_path, discover_targets_dir_from_exe, has_supported_target_specs,
    hxnu_rustc_candidates, target_json_path, target_json_path_for_triple,
    targets_dir_candidates, LayoutError,
};
pub use rustc::{prepare_rustc_args, rustc_target_to_validate};
pub use sdk::{
    archive_file_name, bundle_dir_name, is_prebuilt_lib_file, profile_dir_name,
    sdk_manifest_text, BuildProfile, BUNDLE_NAME,
};
pub use spec_file::{
    validate_target_spec, PointerWidth, RawTargetSpec, RejectionKind, TargetSpecError,
    TargetSpecSummary,
};
pub use target::{
    default_target_id, expected_target_spec_list, supported_targets, target_id_from_triple,
    target_json_filename_for_triple, TargetId, BUILD_STD_COMPONENTS, BUILD_STD_FLAG,
    BUILD_STD_VALUE, PANIC_ABORT, SUPPORTED_TARGETS, TARGET_JSON_AARCH64, TARGET_JSON_FILENAME,
    TARGET_JSON_POWERPC64, TARGET_JSON_POWERPC64LE, TARGET_JSON_X86_64, TARGET_TRIPLE,
    TARGET_TRIPLE_AARCH64, TARGET_TRIPLE_POWERPC64, TARGET_TRIPLE_POWERPC64LE,
    TARGET_TRIPLE_X86_64, UNSTABLE_OPTIONS,
};
