use hxnu_target_spec::{
    default_target_id, expected_target_spec_list, supported_targets, target_id_from_triple,
    target_json_filename_for_triple, TargetId, BUILD_STD_VALUE, SUPPORTED_TARGETS,
    TARGET_JSON_FILENAME, TARGET_TRIPLE,
};

#[test]
fn target_properties() {
    let t = TargetId::X86_64;
    assert_eq!(t.as_triple(), "x86_64-unknown-hxnu");
    assert_eq!(t.json_filename(), "x86_64-unknown-hxnu.json");
    assert_eq!(t.expected_arch(), "x86_64");
    assert_eq!(t.expected_endian(), "little");
    assert_eq!(t.expected_llvm_prefix(), "x86_64");
    let p = TargetId::Powerpc64;
    assert_eq!(p.expected_arch(), "powerpc64");
    assert_eq!(p.expected_endian(), "big");
    assert_eq!(p.expected_llvm_prefix(), "powerpc64");
    let le = TargetId::Powerpc64Le;
    assert_eq!(le.expected_arch(), "powerpc64");
    assert_eq!(le.expected_endian(), "little");
    assert_eq!(le.expected_llvm_prefix(), "powerpc64le");
    assert_eq!(TargetId::Aarch64.json_filename(), "aarch64-unknown-hxnu.json");
}

#[test]
fn triples_round_trip_and_json_names_follow_triples() {
    for t in supported_targets() {
        assert_eq!(target_id_from_triple(t.as_triple()), Some(*t));
        assert_eq!(t.json_filename(), format!("{}.json", t.as_triple()));
        assert_eq!(target_json_filename_for_triple(t.as_triple()), Some(t.json_filename()));
    }
    assert_eq!(target_id_from_triple("x86_64-unknown-linux-gnu"), None);
    assert_eq!(target_id_from_triple(""), None);
    assert_eq!(target_json_filename_for_triple("powerpc64"), None);
}

#[test]
fn defaults_and_lists() {
    assert_eq!(default_target_id(), TargetId::X86_64);
    assert_eq!(supported_targets(), &SUPPORTED_TARGETS[..]);
    assert_eq!(supported_targets()[0], default_target_id());
    assert_eq!(TARGET_TRIPLE, default_target_id().as_triple());
    assert_eq!(TARGET_JSON_FILENAME, default_target_id().json_filename());
    assert_eq!(BUILD_STD_VALUE, "build-std=core,alloc,compiler_builtins");
    assert_eq!(
        expected_target_spec_list(),
        "x86_64-unknown-hxnu.json,aarch64-unknown-hxnu.json,powerpc64le-unknown-hxnu.json,powerpc64-unknown-hxnu.json"
    );
}
