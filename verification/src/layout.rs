//! Where the SDK keeps its pieces: the targets directory and its spec files,
//! and the `hxnu-rustc` binary beside the wrappers. The file system is
//! given as the list of the paths that exist.
use vstd::prelude::*;
use vstd::string::*;

use crate::target::{
    expected_target_spec_list, json_filename_of, joined, spec_file_names, supported_seq,
    supported_targets, target_for_triple, target_id_from_triple, TargetId,
};
use crate::text::{join, join_path, lemma_views_push, list_contains, owned, views};

verus! {

/// The path of a target's spec file in a targets directory.
pub open spec fn spec_path(targets_dir: Seq<char>, t: TargetId) -> Seq<char> {
    join_path(targets_dir, json_filename_of(t))
}

/// The directories, relative to the executable's directory, that may be
/// the SDK's targets directory, in the order they are tried.
pub open spec fn candidate_dirs(exe_dir: Seq<char>) -> Seq<Seq<char>> {
    seq![
        join_path(exe_dir, "../targets"@),
        join_path(exe_dir, "../../targets"@),
        join_path(exe_dir, "targets"@),
    ]
}

/// A directory holds the spec files of all supported targets.
pub open spec fn holds_all_specs(dir: Seq<char>, existing: Seq<Seq<char>>) -> bool {
    forall|i: int| 0 <= i < 4 ==> existing.contains(#[trigger] spec_path(dir, supported_seq()[i]))
}

/// The first candidate directory that holds all spec files.
pub open spec fn discovered_targets_dir(exe_dir: Seq<char>, existing: Seq<Seq<char>>) -> Option<
    Seq<char>,
> {
    let c = candidate_dirs(exe_dir);
    if holds_all_specs(c[0], existing) {
        Some(c[0])
    } else if holds_all_specs(c[1], existing) {
        Some(c[1])
    } else if holds_all_specs(c[2], existing) {
        Some(c[2])
    } else {
        None
    }
}

/// Where the `hxnu-rustc` binary is looked for: beside the executable, then
/// one directory up.
pub open spec fn rustc_candidates(exe_dir: Seq<char>) -> Seq<Seq<char>> {
    seq![join_path(exe_dir, "hxnu-rustc"@), join_path(exe_dir, "../hxnu-rustc"@)]
}

/// The `hxnu-rustc` to run: the first candidate that exists, else the name
/// alone, to be found on the search path.
pub open spec fn chosen_rustc(exe_dir: Seq<char>, existing: Seq<Seq<char>>) -> Seq<char> {
    let c = rustc_candidates(exe_dir);
    if existing.contains(c[0]) {
        c[0]
    } else if existing.contains(c[1]) {
        c[1]
    } else {
        "hxnu-rustc"@
    }
}

/// Why the SDK layout could not be resolved.
#[derive(Debug, Clone)]
pub enum LayoutError {
    /// The executable has no parent directory, so no targets directory.
    ExecutableParentMissing,
    /// The executable has no parent directory, so no `hxnu-rustc` beside it.
    ExecutableDirUnresolved,
    /// No candidate directory holds all spec files.
    TargetsDirNotFound { exe: String, expected: String },
}

/// The text of a layout error.
pub open spec fn layout_message(e: LayoutError) -> Seq<char> {
    match e {
        LayoutError::ExecutableParentMissing => "failed to detect executable parent directory"@,
        LayoutError::ExecutableDirUnresolved => "failed to resolve executable directory"@,
        LayoutError::TargetsDirNotFound { exe, expected } =>
            "failed to locate targets directory near executable "@ + exe@ + "; expected "@
                + expected@,
    }
}

impl LayoutError {
    /// The text of the error.
    pub fn message(&self) -> (r: String)
        ensures
            r@ == layout_message(*self),
    {
        match self {
            LayoutError::ExecutableParentMissing => owned(
                "failed to detect executable parent directory",
            ),
            LayoutError::ExecutableDirUnresolved => owned(
                "failed to resolve executable directory",
            ),
            LayoutError::TargetsDirNotFound { exe, expected } => {
                let mut r = owned("failed to locate targets directory near executable ");
                r.append(exe.as_str());
                r.append("; expected ");
                r.append(expected.as_str());
                r
            },
        }
    }
}

/// The path of `target`'s spec file in `targets_dir`.
pub fn target_json_path(targets_dir: &str, target: TargetId) -> (r: String)
    ensures
        r@ == spec_path(targets_dir@, target),
{
    join(targets_dir, target.json_filename())
}

/// The path of the spec file of the supported target whose triple is
/// `triple`, if there is one.
pub fn target_json_path_for_triple(targets_dir: &str, triple: &str) -> (r: Option<String>)
    ensures
        r is Some == target_for_triple(triple@) is Some,
        r matches Some(p) ==> p@ == spec_path(targets_dir@, target_for_triple(triple@)->0),
{
    match target_id_from_triple(triple) {
        Some(target) => Some(target_json_path(targets_dir, target)),
        None => None,
    }
}

/// Whether `targets_dir` holds the spec files of all supported targets,
/// where `existing_files` lists the paths that exist.
pub fn has_supported_target_specs(targets_dir: &str, existing_files: &[String]) -> (r: bool)
    ensures
        r == holds_all_specs(targets_dir@, views(existing_files@)),
{
    let targets = supported_targets();
    let mut i: usize = 0;
    while i < targets.len()
        invariant
            targets@ == supported_seq(),
            i <= 4,
            forall|j: int|
                0 <= j < i ==> views(existing_files@).contains(
                    #[trigger] spec_path(targets_dir@, supported_seq()[j]),
                ),
        decreases 4 - i,
    {
        let path = target_json_path(targets_dir, targets[i]);
        if !list_contains(existing_files, path.as_str()) {
            return false;
        }
        i = i + 1;
    }
    true
}

/// The candidate targets directories for an executable in `exe_dir`.
pub fn targets_dir_candidates(exe_dir: &str) -> (r: Vec<String>)
    ensures
        views(r@) == candidate_dirs(exe_dir@),
{
    let mut r: Vec<String> = Vec::new();
    let first = join(exe_dir, "../targets");
    r.push(first);
    let ghost one = r@;
    let second = join(exe_dir, "../../targets");
    r.push(second);
    proof {
        lemma_views_push(one, second);
    }
    let ghost two = r@;
    let third = join(exe_dir, "targets");
    r.push(third);
    proof {
        lemma_views_push(two, third);
        assert(views(one) =~= seq![first@]);
        assert(views(r@) =~= candidate_dirs(exe_dir@));
    }
    r
}

/// The SDK's targets directory for the executable `exe`, whose directory is
/// `exe_dir`, where `existing_files` lists the paths that exist: the first
/// of `../targets`, `../../targets` and `targets` beside the executable that
/// holds the spec files of all supported targets.
pub fn discover_targets_dir_from_exe(
    exe: &str,
    exe_dir: Option<&str>,
    existing_files: &[String],
) -> (r: Result<String, LayoutError>)
    ensures
        exe_dir is None ==> r matches Err(LayoutError::ExecutableParentMissing),
        exe_dir matches Some(d) ==> match discovered_targets_dir(d@, views(existing_files@)) {
            Some(dir) => r matches Ok(found) && found@ == dir,
            None => r matches Err(LayoutError::TargetsDirNotFound { exe: e, expected })
                && e@ == exe@ && expected@ == joined(spec_file_names(), ","@),
        },
{
    let dir = match exe_dir {
        Some(d) => d,
        None => return Err(LayoutError::ExecutableParentMissing),
    };
    let candidates = targets_dir_candidates(dir);
    let ghost c = candidate_dirs(dir@);
    assert(c.len() == 3);
    assert(views(candidates@).len() == candidates@.len());
    let mut i: usize = 0;
    while i < candidates.len()
        invariant
            views(candidates@) == c,
            candidates@.len() == 3,
            c == candidate_dirs(dir@),
            exe_dir == Some(dir),
            i <= 3,
            forall|j: int| 0 <= j < i ==> !holds_all_specs(#[trigger] c[j], views(existing_files@)),
        decreases 3 - i,
    {
        if has_supported_target_specs(candidates[i].as_str(), existing_files) {
            assert(views(candidates@)[i as int] == candidates@[i as int]@);
            let found = candidates[i].clone();
            return Ok(found);
        }
        i = i + 1;
    }
    Err(
        LayoutError::TargetsDirNotFound {
            exe: owned(exe),
            expected: expected_target_spec_list(),
        },
    )
}

/// Where to look for `hxnu-rustc` next to an executable in `exe_dir`.
pub fn hxnu_rustc_candidates(exe_dir: &str) -> (r: Vec<String>)
    ensures
        views(r@) == rustc_candidates(exe_dir@),
{
    let mut r: Vec<String> = Vec::new();
    let first = join(exe_dir, "hxnu-rustc");
    r.push(first);
    let ghost one = r@;
    let second = join(exe_dir, "../hxnu-rustc");
    r.push(second);
    proof {
        lemma_views_push(one, second);
        assert(views(one) =~= seq![first@]);
        assert(views(r@) =~= rustc_candidates(exe_dir@));
    }
    r
}

/// The `hxnu-rustc` that the cargo wrapper runs, for a wrapper in
/// `exe_dir`, where `existing_files` lists the paths that exist.
pub fn discover_hxnu_rustc_path(exe_dir: Option<&str>, existing_files: &[String]) -> (r: Result<
    String,
    LayoutError,
>)
    ensures
        exe_dir is None ==> r matches Err(LayoutError::ExecutableDirUnresolved),
        exe_dir matches Some(d) ==> r matches Ok(p) && p@ == chosen_rustc(
            d@,
            views(existing_files@),
        ),
{
    let exe_dir = match exe_dir {
        Some(d) => d,
        None => return Err(LayoutError::ExecutableDirUnresolved),
    };
    let sibling = join(exe_dir, "hxnu-rustc");
    if list_contains(existing_files, sibling.as_str()) {
        return Ok(sibling);
    }
    let fallback = join(exe_dir, "../hxnu-rustc");
    if list_contains(existing_files, fallback.as_str()) {
        return Ok(fallback);
    }
    Ok(owned("hxnu-rustc"))
}

} // verus!

verus! {

/// A directory taken as the targets directory holds the spec file of every
/// supported target, the default one included.
pub proof fn law_targets_dir_holds_every_spec(dir: Seq<char>, existing: Seq<Seq<char>>, t: TargetId)
    requires
        holds_all_specs(dir, existing),
    ensures
        existing.contains(spec_path(dir, t)),
{
    match t {
        TargetId::X86_64 => assert(existing.contains(spec_path(dir, supported_seq()[0]))),
        TargetId::Aarch64 => assert(existing.contains(spec_path(dir, supported_seq()[1]))),
        TargetId::Powerpc64Le => assert(existing.contains(spec_path(dir, supported_seq()[2]))),
        TargetId::Powerpc64 => assert(existing.contains(spec_path(dir, supported_seq()[3]))),
    }
}

/// The directory that `discover_targets_dir_from_exe` finds holds the spec
/// file of every supported target.
pub proof fn law_discovered_dir_holds_every_spec(
    exe_dir: Seq<char>,
    existing: Seq<Seq<char>>,
    t: TargetId,
)
    requires
        discovered_targets_dir(exe_dir, existing) is Some,
    ensures
        existing.contains(spec_path(discovered_targets_dir(exe_dir, existing)->0, t)),
{
    law_targets_dir_holds_every_spec(discovered_targets_dir(exe_dir, existing)->0, existing, t);
}

} // verus!
