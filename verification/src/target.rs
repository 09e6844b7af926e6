//! The HXNU targets: their triples, spec-file names and expected properties.
use vstd::prelude::*;
use vstd::string::*;

use crate::text::str_eq;

verus! {

pub const TARGET_TRIPLE_X86_64: &'static str = "x86_64-unknown-hxnu";

pub const TARGET_TRIPLE_AARCH64: &'static str = "aarch64-unknown-hxnu";

pub const TARGET_TRIPLE_POWERPC64LE: &'static str = "powerpc64le-unknown-hxnu";

pub const TARGET_TRIPLE_POWERPC64: &'static str = "powerpc64-unknown-hxnu";

pub const TARGET_JSON_X86_64: &'static str = "x86_64-unknown-hxnu.json";

pub const TARGET_JSON_AARCH64: &'static str = "aarch64-unknown-hxnu.json";

pub const TARGET_JSON_POWERPC64LE: &'static str = "powerpc64le-unknown-hxnu.json";

pub const TARGET_JSON_POWERPC64: &'static str = "powerpc64-unknown-hxnu.json";

/// The default target triple.
pub const TARGET_TRIPLE: &'static str = TARGET_TRIPLE_X86_64;

/// The spec-file name of the default target.
pub const TARGET_JSON_FILENAME: &'static str = TARGET_JSON_X86_64;

pub const BUILD_STD_COMPONENTS: &'static str = "core,alloc,compiler_builtins";

pub const BUILD_STD_FLAG: &'static str = "-Z";

pub const BUILD_STD_VALUE: &'static str = "build-std=core,alloc,compiler_builtins";

pub const PANIC_ABORT: &'static str = "panic=abort";

pub const UNSTABLE_OPTIONS: &'static str = "unstable-options";

/// One of the supported HXNU targets.
#[derive(Debug, Copy, Clone, PartialEq, Eq, Structural)]
pub enum TargetId {
    X86_64,
    Aarch64,
    Powerpc64Le,
    Powerpc64,
}

/// The supported targets, the default one first.
pub const SUPPORTED_TARGETS: [TargetId; 4] = [
    TargetId::X86_64,
    TargetId::Aarch64,
    TargetId::Powerpc64Le,
    TargetId::Powerpc64,
];

/// The supported targets in the order in which lookups try them.
pub open spec fn supported_seq() -> Seq<TargetId> {
    seq![TargetId::X86_64, TargetId::Aarch64, TargetId::Powerpc64Le, TargetId::Powerpc64]
}

/// The triple of a target.
pub open spec fn triple_of(t: TargetId) -> Seq<char> {
    match t {
        TargetId::X86_64 => TARGET_TRIPLE_X86_64@,
        TargetId::Aarch64 => TARGET_TRIPLE_AARCH64@,
        TargetId::Powerpc64Le => TARGET_TRIPLE_POWERPC64LE@,
        TargetId::Powerpc64 => TARGET_TRIPLE_POWERPC64@,
    }
}

/// The name of the JSON spec file of a target.
pub open spec fn json_filename_of(t: TargetId) -> Seq<char> {
    match t {
        TargetId::X86_64 => TARGET_JSON_X86_64@,
        TargetId::Aarch64 => TARGET_JSON_AARCH64@,
        TargetId::Powerpc64Le => TARGET_JSON_POWERPC64LE@,
        TargetId::Powerpc64 => TARGET_JSON_POWERPC64@,
    }
}

/// The `arch` a target's spec file must declare.
pub open spec fn arch_of(t: TargetId) -> Seq<char> {
    match t {
        TargetId::X86_64 => "x86_64"@,
        TargetId::Aarch64 => "aarch64"@,
        TargetId::Powerpc64Le | TargetId::Powerpc64 => "powerpc64"@,
    }
}

/// The `target-endian` a target's spec file must declare.
pub open spec fn endian_of(t: TargetId) -> Seq<char> {
    match t {
        TargetId::X86_64 | TargetId::Aarch64 | TargetId::Powerpc64Le => "little"@,
        TargetId::Powerpc64 => "big"@,
    }
}

/// The prefix a target's `llvm-target` must start with.
pub open spec fn llvm_prefix_of(t: TargetId) -> Seq<char> {
    match t {
        TargetId::X86_64 => "x86_64"@,
        TargetId::Aarch64 => "aarch64"@,
        TargetId::Powerpc64Le => "powerpc64le"@,
        TargetId::Powerpc64 => "powerpc64"@,
    }
}

/// The first supported target whose triple is `triple`.
pub open spec fn target_for_triple(triple: Seq<char>) -> Option<TargetId> {
    if triple == triple_of(TargetId::X86_64) {
        Some(TargetId::X86_64)
    } else if triple == triple_of(TargetId::Aarch64) {
        Some(TargetId::Aarch64)
    } else if triple == triple_of(TargetId::Powerpc64Le) {
        Some(TargetId::Powerpc64Le)
    } else if triple == triple_of(TargetId::Powerpc64) {
        Some(TargetId::Powerpc64)
    } else {
        None
    }
}

impl TargetId {
    /// The target triple, such as `x86_64-unknown-hxnu`.
    pub fn as_triple(self) -> (r: &'static str)
        ensures
            r@ == triple_of(self),
    {
        match self {
            TargetId::X86_64 => TARGET_TRIPLE_X86_64,
            TargetId::Aarch64 => TARGET_TRIPLE_AARCH64,
            TargetId::Powerpc64Le => TARGET_TRIPLE_POWERPC64LE,
            TargetId::Powerpc64 => TARGET_TRIPLE_POWERPC64,
        }
    }

    /// The name of the target's JSON spec file.
    pub fn json_filename(self) -> (r: &'static str)
        ensures
            r@ == json_filename_of(self),
    {
        match self {
            TargetId::X86_64 => TARGET_JSON_X86_64,
            TargetId::Aarch64 => TARGET_JSON_AARCH64,
            TargetId::Powerpc64Le => TARGET_JSON_POWERPC64LE,
            TargetId::Powerpc64 => TARGET_JSON_POWERPC64,
        }
    }

    /// The `arch` that the target's spec file must declare.
    pub fn expected_arch(self) -> (r: &'static str)
        ensures
            r@ == arch_of(self),
    {
        match self {
            TargetId::X86_64 => "x86_64",
            TargetId::Aarch64 => "aarch64",
            TargetId::Powerpc64Le | TargetId::Powerpc64 => "powerpc64",
        }
    }

    /// The `target-endian` that the target's spec file must declare.
    pub fn expected_endian(self) -> (r: &'static str)
        ensures
            r@ == endian_of(self),
    {
        match self {
            TargetId::X86_64 | TargetId::Aarch64 | TargetId::Powerpc64Le => "little",
            TargetId::Powerpc64 => "big",
        }
    }

    /// The prefix that the target's `llvm-target` must start with.
    pub fn expected_llvm_prefix(self) -> (r: &'static str)
        ensures
            r@ == llvm_prefix_of(self),
    {
        match self {
            TargetId::X86_64 => "x86_64",
            TargetId::Aarch64 => "aarch64",
            TargetId::Powerpc64Le => "powerpc64le",
            TargetId::Powerpc64 => "powerpc64",
        }
    }
}

/// The target used when none is given.
pub fn default_target_id() -> (r: TargetId)
    ensures
        r == TargetId::X86_64,
{
    TargetId::X86_64
}

/// All supported targets, the default one first.
pub fn supported_targets() -> (r: &'static [TargetId])
    ensures
        r@ == supported_seq(),
{
    let r: &'static [TargetId] = &SUPPORTED_TARGETS;
    assert(r@ =~= supported_seq());
    r
}

/// The supported target whose triple is `triple`, if any.
pub fn target_id_from_triple(triple: &str) -> (r: Option<TargetId>)
    ensures
        r == target_for_triple(triple@),
{
    let targets = supported_targets();
    let mut i: usize = 0;
    while i < targets.len()
        invariant
            targets@ == supported_seq(),
            i <= 4,
            forall|j: int| 0 <= j < i ==> triple@ != #[trigger] triple_of(supported_seq()[j]),
        decreases 4 - i,
    {
        let target = targets[i];
        if str_eq(target.as_triple(), triple) {
            assert(triple_of(supported_seq()[0]) == triple_of(TargetId::X86_64));
            assert(triple_of(supported_seq()[1]) == triple_of(TargetId::Aarch64));
            assert(triple_of(supported_seq()[2]) == triple_of(TargetId::Powerpc64Le));
            return Some(target);
        }
        i = i + 1;
    }
    assert(triple_of(supported_seq()[0]) == triple_of(TargetId::X86_64));
    assert(triple_of(supported_seq()[1]) == triple_of(TargetId::Aarch64));
    assert(triple_of(supported_seq()[2]) == triple_of(TargetId::Powerpc64Le));
    assert(triple_of(supported_seq()[3]) == triple_of(TargetId::Powerpc64));
    None
}

/// The spec-file name of the supported target whose triple is `triple`.
pub fn target_json_filename_for_triple(triple: &str) -> (r: Option<&'static str>)
    ensures
        r is Some == target_for_triple(triple@) is Some,
        r matches Some(name) ==> name@ == json_filename_of(target_for_triple(triple@)->0),
{
    match target_id_from_triple(triple) {
        Some(t) => Some(t.json_filename()),
        None => None,
    }
}

/// Joins the strings of `parts` with `sep` between neighbours.
pub open spec fn joined(parts: Seq<Seq<char>>, sep: Seq<char>) -> Seq<char>
    decreases parts.len(),
{
    if parts.len() == 0 {
        seq![]
    } else if parts.len() == 1 {
        parts[0]
    } else {
        joined(parts.drop_last(), sep) + sep + parts.last()
    }
}

/// The spec-file names of all supported targets, in order.
pub open spec fn spec_file_names() -> Seq<Seq<char>> {
    supported_seq().map_values(|t: TargetId| json_filename_of(t))
}

/// The comma-separated list of the spec files that a targets directory
/// must hold.
pub fn expected_target_spec_list() -> (r: String)
    ensures
        r@ == joined(spec_file_names(), ","@),
{
    let targets = supported_targets();
    let mut r = String::new();
    let mut i: usize = 0;
    while i < targets.len()
        invariant
            targets@ == supported_seq(),
            i <= 4,
            r@ == joined(spec_file_names().take(i as int), ","@),
        decreases 4 - i,
    {
        let ghost before = r@;
        if i > 0 {
            r.append(",");
        }
        r.append(targets[i].json_filename());
        proof {
            let names = spec_file_names();
            assert(names.take(i + 1).drop_last() =~= names.take(i as int));
            assert(names.take(i + 1).last() == json_filename_of(supported_seq()[i as int]));
            if i == 0 {
                assert(before =~= seq![]);
                assert(r@ =~= names.take(1)[0]);
            }
        }
        i = i + 1;
    }
    assert(spec_file_names().take(4) =~= spec_file_names());
    r
}

} // verus!

verus! {

/// Looking up the triple of a supported target gives back that target: no
/// two supported targets share a triple.
pub proof fn lemma_triple_round_trip(t: TargetId)
    ensures
        target_for_triple(triple_of(t)) == Some(t),
{
    reveal_strlit("x86_64-unknown-hxnu");
    reveal_strlit("aarch64-unknown-hxnu");
    reveal_strlit("powerpc64le-unknown-hxnu");
    reveal_strlit("powerpc64-unknown-hxnu");
    let x = triple_of(TargetId::X86_64);
    let a = triple_of(TargetId::Aarch64);
    let l = triple_of(TargetId::Powerpc64Le);
    let p = triple_of(TargetId::Powerpc64);
    assert(x[0] != a[0]);
    assert(x[0] != l[0]);
    assert(x[0] != p[0]);
    assert(a[0] != l[0]);
    assert(a[0] != p[0]);
    assert(l[9] != p[9]);
}

/// A triple that looks up to a target is that target's triple.
pub proof fn lemma_triple_lookup_sound(triple: Seq<char>)
    ensures
        target_for_triple(triple) matches Some(t) ==> triple == triple_of(t),
{
}

/// Each target's spec-file name is its triple followed by `.json`.
pub proof fn lemma_json_filename_is_triple_dot_json(t: TargetId)
    ensures
        json_filename_of(t) == triple_of(t) + ".json"@,
{
    reveal_strlit("x86_64-unknown-hxnu");
    reveal_strlit("aarch64-unknown-hxnu");
    reveal_strlit("powerpc64le-unknown-hxnu");
    reveal_strlit("powerpc64-unknown-hxnu");
    reveal_strlit("x86_64-unknown-hxnu.json");
    reveal_strlit("aarch64-unknown-hxnu.json");
    reveal_strlit("powerpc64le-unknown-hxnu.json");
    reveal_strlit("powerpc64-unknown-hxnu.json");
    reveal_strlit(".json");
    assert(json_filename_of(t) =~= triple_of(t) + ".json"@);
}

} // verus!
