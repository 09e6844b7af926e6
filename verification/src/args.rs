//! Rules on compiler and cargo command lines: which target they select, and
//! whether they already carry the flags that HXNU builds need.
use vstd::prelude::*;
use vstd::string::*;

use crate::target::{
    target_for_triple, triple_of, TargetId, BUILD_STD_FLAG, BUILD_STD_VALUE, PANIC_ABORT,
    UNSTABLE_OPTIONS,
};
use crate::text::{
    has_prefix, lemma_views_push, owned, starts_with, str_eq, strip_prefix, views,
};

verus! {

// ---------------------------------------------------------------------------
// The selected target
// ---------------------------------------------------------------------------
/// The target named by the first `--target VALUE` or `--target=VALUE`
/// argument at or after position `i`. A `--target` that is the last argument
/// ends the search with no value.
pub open spec fn target_arg_from(a: Seq<Seq<char>>, i: int) -> Option<Seq<char>>
    decreases a.len() - i,
{
    if i < 0 || i >= a.len() {
        None
    } else if a[i] == "--target"@ {
        if i + 1 < a.len() {
            Some(a[i + 1])
        } else {
            None
        }
    } else if has_prefix(a[i], "--target="@) {
        Some(a[i].skip(9))
    } else {
        target_arg_from(a, i + 1)
    }
}

/// The target named on a command line.
pub open spec fn target_arg(a: Seq<Seq<char>>) -> Option<Seq<char>> {
    target_arg_from(a, 0)
}

/// The supported target selected by a command line.
pub open spec fn selected_target(a: Seq<Seq<char>>) -> Option<TargetId> {
    match target_arg(a) {
        Some(t) => target_for_triple(t),
        None => None,
    }
}

/// A command line with a target: unchanged where it names one, else with
/// `--target <default triple>` appended.
pub open spec fn with_target_arg(a: Seq<Seq<char>>) -> Seq<Seq<char>> {
    if target_arg(a) is Some {
        a
    } else {
        a.push("--target"@).push(triple_of(TargetId::X86_64))
    }
}

/// The value of the `--target` argument of `args`, if there is one.
pub fn extract_target_arg(args: &[String]) -> (r: Option<&str>)
    ensures
        r is Some == target_arg(views(args@)) is Some,
        r matches Some(v) ==> v@ == target_arg(views(args@))->0,
{
    let ghost a = views(args@);
    let mut index: usize = 0;
    while index < args.len()
        invariant
            a == views(args@),
            index <= args@.len(),
            target_arg_from(a, index as int) == target_arg(a),
        decreases args@.len() - index,
    {
        let arg = args[index].as_str();
        if str_eq(arg, "--target") {
            if index + 1 < args.len() {
                return Some(args[index + 1].as_str());
            }
            return None;
        }
        if let Some(value) = strip_prefix(arg, "--target=") {
            proof {
                reveal_strlit("--target=");
            }
            return Some(value);
        }
        index = index + 1;
    }
    None
}

/// Whether `args` name a target.
pub fn has_target_arg(args: &[String]) -> (r: bool)
    ensures
        r == target_arg(views(args@)) is Some,
{
    extract_target_arg(args).is_some()
}

/// The supported target that `args` select, if any.
pub fn selected_target_id(args: &[String]) -> (r: Option<TargetId>)
    ensures
        r == selected_target(views(args@)),
{
    match extract_target_arg(args) {
        Some(triple) => crate::target::target_id_from_triple(triple),
        None => None,
    }
}

/// The supported target that `args` select, or the default target.
pub fn selected_target_or_default(args: &[String]) -> (r: TargetId)
    ensures
        r == match selected_target(views(args@)) {
            Some(t) => t,
            None => TargetId::X86_64,
        },
{
    match selected_target_id(args) {
        Some(t) => t,
        None => crate::target::default_target_id(),
    }
}

/// Appends `first` and `second` to `args`.
fn push_pair(args: &mut Vec<String>, first: &str, second: &str)
    ensures
        views(final(args)@) == views(old(args)@).push(first@).push(second@),
{
    let ghost start = args@;
    let f = owned(first);
    args.push(f);
    proof {
        lemma_views_push(start, f);
    }
    let ghost mid = args@;
    let s = owned(second);
    args.push(s);
    proof {
        lemma_views_push(mid, s);
    }
}

/// Appends `--target <default triple>` unless `args` already name a target.
pub fn ensure_target_arg(args: &mut Vec<String>)
    ensures
        views(final(args)@) == with_target_arg(views(old(args)@)),
{
    if has_target_arg(args.as_slice()) {
        return;
    }
    push_pair(args, "--target", crate::target::default_target_id().as_triple());
}

// ---------------------------------------------------------------------------
// panic=abort
// ---------------------------------------------------------------------------
/// Position `i` of `a` asks for `panic=abort` code generation.
pub open spec fn panic_abort_at(a: Seq<Seq<char>>, i: int) -> bool {
    ||| a[i] == "-C"@ && i + 1 < a.len() && a[i + 1] == PANIC_ABORT@
    ||| a[i] == "-Cpanic=abort"@
    ||| a[i] == "--codegen=panic=abort"@
}

/// A command line asks for `panic=abort` code generation.
pub open spec fn has_panic_abort(a: Seq<Seq<char>>) -> bool {
    exists|i: int| 0 <= i < a.len() && #[trigger] panic_abort_at(a, i)
}

/// A command line with `panic=abort`: unchanged where it asks for it, else
/// with `-C panic=abort` appended.
pub open spec fn with_panic_abort(a: Seq<Seq<char>>) -> Seq<Seq<char>> {
    if has_panic_abort(a) {
        a
    } else {
        a.push("-C"@).push(PANIC_ABORT@)
    }
}

/// Whether `args` ask for `panic=abort` code generation.
pub fn has_panic_abort_codegen(args: &[String]) -> (r: bool)
    ensures
        r == has_panic_abort(views(args@)),
{
    let ghost a = views(args@);
    let mut index: usize = 0;
    while index < args.len()
        invariant
            a == views(args@),
            index <= args@.len(),
            forall|j: int| 0 <= j < index ==> !#[trigger] panic_abort_at(a, j),
        decreases args@.len() - index,
    {
        proof {
            reveal_strlit("-C");
            reveal_strlit("-Cpanic=abort");
            reveal_strlit("--codegen=panic=abort");
            reveal_strlit("panic=abort");
        }
        let arg = args[index].as_str();
        if str_eq(arg, "-C") {
            if index + 1 < args.len() && str_eq(args[index + 1].as_str(), PANIC_ABORT) {
                assert(panic_abort_at(a, index as int));
                return true;
            }
            assert("-C"@.len() == 2);
            assert("-Cpanic=abort"@.len() == 13);
            assert("--codegen=panic=abort"@.len() == 21);
            index = index + 1;
            continue;
        }
        if str_eq(arg, "-Cpanic=abort") || str_eq(arg, "--codegen=panic=abort") {
            assert(panic_abort_at(a, index as int));
            return true;
        }
        if let Some(value) = strip_prefix(arg, "-C") {
            if str_eq(value, PANIC_ABORT) {
                let ghost cur = a[index as int];
                assert(cur.skip(2) == "panic=abort"@);
                assert(cur =~= cur.subrange(0, 2) + cur.skip(2));
                assert("-Cpanic=abort"@ =~= "-C"@ + "panic=abort"@);
                assert(cur == "-Cpanic=abort"@);
                assert(panic_abort_at(a, index as int));
                return true;
            }
        }
        index = index + 1;
    }
    false
}

/// Appends `-C panic=abort` unless `args` already ask for it.
pub fn ensure_panic_abort_codegen(args: &mut Vec<String>)
    ensures
        views(final(args)@) == with_panic_abort(views(old(args)@)),
{
    if has_panic_abort_codegen(args.as_slice()) {
        return;
    }
    push_pair(args, "-C", PANIC_ABORT);
}

// ---------------------------------------------------------------------------
// -Z unstable-options
// ---------------------------------------------------------------------------
/// Position `i` of `a` enables unstable options.
pub open spec fn unstable_options_at(a: Seq<Seq<char>>, i: int) -> bool {
    ||| a[i] == "-Z"@ && i + 1 < a.len() && a[i + 1] == UNSTABLE_OPTIONS@
    ||| a[i] == "-Zunstable-options"@
}

/// A command line enables unstable options.
pub open spec fn has_unstable_options(a: Seq<Seq<char>>) -> bool {
    exists|i: int| 0 <= i < a.len() && #[trigger] unstable_options_at(a, i)
}

/// A command line with unstable options enabled: unchanged where they are,
/// else with `-Z unstable-options` appended.
pub open spec fn with_unstable_options(a: Seq<Seq<char>>) -> Seq<Seq<char>> {
    if has_unstable_options(a) {
        a
    } else {
        a.push("-Z"@).push(UNSTABLE_OPTIONS@)
    }
}

/// Whether `args` enable unstable options.
pub fn has_unstable_options_flag(args: &[String]) -> (r: bool)
    ensures
        r == has_unstable_options(views(args@)),
{
    let ghost a = views(args@);
    let mut index: usize = 0;
    while index < args.len()
        invariant
            a == views(args@),
            index <= args@.len(),
            forall|j: int| 0 <= j < index ==> !#[trigger] unstable_options_at(a, j),
        decreases args@.len() - index,
    {
        proof {
            reveal_strlit("-Z");
            reveal_strlit("-Zunstable-options");
        }
        let arg = args[index].as_str();
        if str_eq(arg, "-Z") {
            if index + 1 < args.len() && str_eq(args[index + 1].as_str(), UNSTABLE_OPTIONS) {
                assert(unstable_options_at(a, index as int));
                return true;
            }
            assert("-Z"@.len() == 2);
            assert("-Zunstable-options"@.len() == 18);
            index = index + 1;
            continue;
        }
        if str_eq(arg, "-Zunstable-options") {
            assert(unstable_options_at(a, index as int));
            return true;
        }
        index = index + 1;
    }
    false
}

/// Appends `-Z unstable-options` unless `args` already enable them.
pub fn ensure_unstable_options_flag(args: &mut Vec<String>)
    ensures
        views(final(args)@) == with_unstable_options(views(old(args)@)),
{
    if has_unstable_options_flag(args.as_slice()) {
        return;
    }
    push_pair(args, "-Z", UNSTABLE_OPTIONS);
}

// ---------------------------------------------------------------------------
// -Z build-std=...
// ---------------------------------------------------------------------------
/// Scans `a` from position `i` for a `build-std` request. A `-Z` takes the
/// next argument as its value: a value that does not start with
/// `build-std=` is skipped, not scanned on its own.
pub open spec fn build_std_from(a: Seq<Seq<char>>, i: int) -> bool
    decreases a.len() + 1 - i,
{
    if i < 0 || i >= a.len() {
        false
    } else if a[i] == BUILD_STD_FLAG@ {
        if i + 1 < a.len() && has_prefix(a[i + 1], "build-std="@) {
            true
        } else {
            build_std_from(a, i + 2)
        }
    } else if has_prefix(a[i], "-Zbuild-std="@) {
        true
    } else {
        build_std_from(a, i + 1)
    }
}

/// A command line asks to build the standard library.
pub open spec fn has_build_std(a: Seq<Seq<char>>) -> bool {
    build_std_from(a, 0)
}

/// A command line with a `build-std` request: unchanged where it has one,
/// else with `-Z build-std=core,alloc,compiler_builtins` appended.
pub open spec fn with_build_std(a: Seq<Seq<char>>) -> Seq<Seq<char>> {
    if has_build_std(a) {
        a
    } else {
        a.push(BUILD_STD_FLAG@).push(BUILD_STD_VALUE@)
    }
}

/// Whether `args` ask to build the standard library.
pub fn has_build_std_flag(args: &[String]) -> (r: bool)
    ensures
        r == has_build_std(views(args@)),
{
    let ghost a = views(args@);
    let mut index: usize = 0;
    while index < args.len()
        invariant
            a == views(args@),
            index <= args@.len(),
            build_std_from(a, index as int) == has_build_std(a),
        decreases args@.len() - index,
    {
        let arg = args[index].as_str();
        if str_eq(arg, BUILD_STD_FLAG) {
            if index + 1 >= args.len() {
                assert(!build_std_from(a, index + 2));
                return false;
            }
            if starts_with(args[index + 1].as_str(), "build-std=") {
                return true;
            }
            index = index + 2;
            continue;
        }
        if starts_with(arg, "-Zbuild-std=") {
            return true;
        }
        index = index + 1;
    }
    false
}

/// Appends `-Z build-std=core,alloc,compiler_builtins` unless `args` already
/// ask to build the standard library.
pub fn ensure_build_std_flag(args: &mut Vec<String>)
    ensures
        views(final(args)@) == with_build_std(views(old(args)@)),
{
    if has_build_std_flag(args.as_slice()) {
        return;
    }
    push_pair(args, BUILD_STD_FLAG, BUILD_STD_VALUE);
}

// ---------------------------------------------------------------------------
// Queries that must reach rustc untouched, and host-side compilations
// ---------------------------------------------------------------------------
/// An argument that asks rustc for information instead of a compilation.
pub open spec fn is_info_query(s: Seq<char>) -> bool {
    ||| s == "-V"@
    ||| s == "--version"@
    ||| s == "-vV"@
    ||| s == "-h"@
    ||| s == "--help"@
    ||| s == "--print"@
    ||| s == "--explain"@
    ||| s == "-Whelp"@
    ||| s == "-Chelp"@
    ||| s == "-Zhelp"@
}

/// A command line contains no information query.
pub open spec fn no_info_query(a: Seq<Seq<char>>) -> bool {
    forall|i: int| 0 <= i < a.len() ==> !#[trigger] is_info_query(a[i])
}

fn info_query(s: &str) -> (r: bool)
    ensures
        r == is_info_query(s@),
{
    str_eq(s, "-V") || str_eq(s, "--version") || str_eq(s, "-vV") || str_eq(s, "-h") || str_eq(
        s,
        "--help",
    ) || str_eq(s, "--print") || str_eq(s, "--explain") || str_eq(s, "-Whelp") || str_eq(
        s,
        "-Chelp",
    ) || str_eq(s, "-Zhelp")
}

/// Whether the HXNU defaults should be added to a rustc command line: not
/// when it is a version, help, print or explain query.
pub fn should_inject_rustc_defaults(args: &[String]) -> (r: bool)
    ensures
        r == no_info_query(views(args@)),
{
    let ghost a = views(args@);
    let mut index: usize = 0;
    while index < args.len()
        invariant
            a == views(args@),
            index <= args@.len(),
            forall|j: int| 0 <= j < index ==> !#[trigger] is_info_query(a[j]),
        decreases args@.len() - index,
    {
        if info_query(args[index].as_str()) {
            assert(is_info_query(a[index as int]));
            return false;
        }
        index = index + 1;
    }
    true
}

/// Whether a crate type names a procedural macro, as a count of 0 or 1.
pub open spec fn proc_macro_count(s: Seq<char>) -> int {
    if s == "proc-macro"@ {
        1
    } else {
        0
    }
}

/// Scans `a` from position `i`, having seen a print query (`has_print`),
/// `total` crate types and `procm` of them proc-macro. A build script
/// (`--crate-name build_script_build`) is host-side at once; otherwise the
/// compilation is host-side when it is no print query and all of its one or
/// more crate types are proc-macro. The value after `--crate-type` is not
/// scanned on its own.
pub open spec fn host_scan(a: Seq<Seq<char>>, i: int, has_print: bool, total: int, procm: int) -> bool
    decreases a.len() - i,
{
    if i < 0 || i >= a.len() {
        !has_print && total > 0 && procm == total
    } else {
        let hp = has_print || a[i] == "--print"@ || has_prefix(a[i], "--print="@);
        if a[i] == "--crate-name"@ && i + 1 < a.len() && a[i + 1] == "build_script_build"@ {
            true
        } else if a[i] == "--crate-type"@ && i + 1 < a.len() {
            host_scan(a, i + 2, hp, total + 1, procm + proc_macro_count(a[i + 1]))
        } else if has_prefix(a[i], "--crate-type="@) {
            host_scan(a, i + 1, hp, total + 1, procm + proc_macro_count(a[i].skip(13)))
        } else {
            host_scan(a, i + 1, hp, total, procm)
        }
    }
}

/// A command line compiles for the host: a build script or a proc-macro
/// crate.
pub open spec fn host_side(a: Seq<Seq<char>>) -> bool {
    host_scan(a, 0, false, 0, 0)
}

/// Whether `args` compile a build script or a proc-macro crate, which run
/// on the host and so keep the host target.
pub fn is_host_side_compilation(args: &[String]) -> (r: bool)
    ensures
        r == host_side(views(args@)),
{
    let ghost a = views(args@);
    let mut has_print_query = false;
    let mut total_crate_type_count: usize = 0;
    let mut proc_macro_crate_type_count: usize = 0;
    let mut index: usize = 0;
    while index < args.len()
        invariant
            a == views(args@),
            index <= args@.len(),
            proc_macro_crate_type_count <= total_crate_type_count <= index,
            host_scan(
                a,
                index as int,
                has_print_query,
                total_crate_type_count as int,
                proc_macro_crate_type_count as int,
            ) == host_side(a),
        decreases args@.len() - index,
    {
        proof {
            reveal_strlit("--crate-type=");
        }
        let arg = args[index].as_str();
        if str_eq(arg, "--print") || starts_with(arg, "--print=") {
            has_print_query = true;
        }
        if str_eq(arg, "--crate-name") && index + 1 < args.len() && str_eq(
            args[index + 1].as_str(),
            "build_script_build",
        ) {
            return true;
        }
        if str_eq(arg, "--crate-type") && index + 1 < args.len() {
            total_crate_type_count = total_crate_type_count + 1;
            if str_eq(args[index + 1].as_str(), "proc-macro") {
                proc_macro_crate_type_count = proc_macro_crate_type_count + 1;
            }
            index = index + 1;
        } else if let Some(crate_type) = strip_prefix(arg, "--crate-type=") {
            total_crate_type_count = total_crate_type_count + 1;
            if str_eq(crate_type, "proc-macro") {
                proc_macro_crate_type_count = proc_macro_crate_type_count + 1;
            }
        }
        index = index + 1;
    }
    !has_print_query && total_crate_type_count > 0 && proc_macro_crate_type_count
        == total_crate_type_count
}

} // verus!

verus! {

// ---------------------------------------------------------------------------
// Laws
// ---------------------------------------------------------------------------
proof fn lemma_target_arg_after_push(a: Seq<Seq<char>>, y: Seq<char>, i: int)
    requires
        0 <= i <= a.len(),
        target_arg_from(a, i) is None,
    ensures
        target_arg_from(a.push("--target"@).push(y), i) is Some,
    decreases a.len() - i,
{
    let b = a.push("--target"@).push(y);
    if i < a.len() {
        assert(b[i] == a[i]);
        if a[i] == "--target"@ {
        } else if has_prefix(a[i], "--target="@) {
        } else {
            lemma_target_arg_after_push(a, y, i + 1);
        }
    } else {
        assert(b[i] == "--target"@);
    }
}

proof fn lemma_target_arg_appended(a: Seq<Seq<char>>, y: Seq<char>, i: int)
    requires
        0 <= i <= a.len(),
        forall|j: int|
            0 <= j < a.len() ==> #[trigger] a[j] != "--target"@ && !has_prefix(a[j], "--target="@),
    ensures
        target_arg_from(a.push("--target"@).push(y), i) == Some(y),
    decreases a.len() - i,
{
    let b = a.push("--target"@).push(y);
    if i < a.len() {
        assert(b[i] == a[i]);
        lemma_target_arg_appended(a, y, i + 1);
    } else {
        assert(b[i] == "--target"@);
        assert(b[i + 1] == y);
    }
}

proof fn lemma_no_target_arg(a: Seq<Seq<char>>, i: int)
    requires
        0 <= i <= a.len(),
        forall|j: int|
            0 <= j < a.len() ==> #[trigger] a[j] != "--target"@ && !has_prefix(a[j], "--target="@),
    ensures
        target_arg_from(a, i) is None,
    decreases a.len() - i,
{
    if i < a.len() {
        assert(a[i] != "--target"@);
        lemma_no_target_arg(a, i + 1);
    }
}

/// After `ensure_target_arg` a command line always names a target.
pub proof fn law_ensure_target_arg_names_a_target(a: Seq<Seq<char>>)
    ensures
        target_arg(with_target_arg(a)) is Some,
{
    if target_arg(a) is None {
        lemma_target_arg_after_push(a, triple_of(TargetId::X86_64), 0);
    }
}

/// `ensure_target_arg` changes nothing the second time.
pub proof fn law_ensure_target_arg_idempotent(a: Seq<Seq<char>>)
    ensures
        with_target_arg(with_target_arg(a)) == with_target_arg(a),
{
    law_ensure_target_arg_names_a_target(a);
}

/// A command line that names no target at all selects the default target
/// once `ensure_target_arg` has run.
pub proof fn law_missing_target_becomes_default(a: Seq<Seq<char>>)
    requires
        forall|j: int|
            0 <= j < a.len() ==> #[trigger] a[j] != "--target"@ && !has_prefix(a[j], "--target="@),
    ensures
        target_arg(with_target_arg(a)) == Some(triple_of(TargetId::X86_64)),
        selected_target(with_target_arg(a)) == Some(TargetId::X86_64),
{
    lemma_no_target_arg(a, 0);
    lemma_target_arg_appended(a, triple_of(TargetId::X86_64), 0);
}

/// After `ensure_panic_abort_codegen` a command line always asks for
/// `panic=abort`, and a second call changes nothing.
pub proof fn law_ensure_panic_abort(a: Seq<Seq<char>>)
    ensures
        has_panic_abort(with_panic_abort(a)),
        with_panic_abort(with_panic_abort(a)) == with_panic_abort(a),
{
    if !has_panic_abort(a) {
        let b = with_panic_abort(a);
        assert(panic_abort_at(b, a.len() as int));
    }
}

/// After `ensure_unstable_options_flag` a command line always enables
/// unstable options, and a second call changes nothing.
pub proof fn law_ensure_unstable_options(a: Seq<Seq<char>>)
    ensures
        has_unstable_options(with_unstable_options(a)),
        with_unstable_options(with_unstable_options(a)) == with_unstable_options(a),
{
    if !has_unstable_options(a) {
        let b = with_unstable_options(a);
        assert(unstable_options_at(b, a.len() as int));
    }
}

/// The `build-std` scan of `a` from `i` ends on a `-Z` that is the last
/// argument and so has no value.
pub open spec fn build_std_dangles_from(a: Seq<Seq<char>>, i: int) -> bool
    decreases a.len() + 1 - i,
{
    if i < 0 || i >= a.len() {
        false
    } else if a[i] == BUILD_STD_FLAG@ {
        if i + 1 >= a.len() {
            true
        } else if has_prefix(a[i + 1], "build-std="@) {
            false
        } else {
            build_std_dangles_from(a, i + 2)
        }
    } else if has_prefix(a[i], "-Zbuild-std="@) {
        false
    } else {
        build_std_dangles_from(a, i + 1)
    }
}

proof fn lemma_build_std_after_push(a: Seq<Seq<char>>, i: int)
    requires
        0 <= i <= a.len(),
        !build_std_from(a, i),
        !build_std_dangles_from(a, i),
    ensures
        build_std_from(a.push(BUILD_STD_FLAG@).push(BUILD_STD_VALUE@), i),
    decreases a.len() - i,
{
    let b = a.push(BUILD_STD_FLAG@).push(BUILD_STD_VALUE@);
    if i < a.len() {
        assert(b[i] == a[i]);
        if a[i] == BUILD_STD_FLAG@ {
            assert(b[i + 1] == a[i + 1]);
            lemma_build_std_after_push(a, i + 2);
        } else if has_prefix(a[i], "-Zbuild-std="@) {
        } else {
            lemma_build_std_after_push(a, i + 1);
        }
    } else {
        reveal_strlit("build-std=core,alloc,compiler_builtins");
        reveal_strlit("build-std=");
        assert(b[i] == BUILD_STD_FLAG@);
        assert(b[i + 1] == BUILD_STD_VALUE@);
        assert(b[i + 1].subrange(0, 10) =~= "build-std="@);
    }
}

/// After `ensure_build_std_flag` a command line asks to build the standard
/// library, unless its scan ends on a `-Z` without a value: that `-Z` then
/// takes the appended `-Z` as its value (for example `cargo -Z`).
pub proof fn law_ensure_build_std(a: Seq<Seq<char>>)
    requires
        !build_std_dangles_from(a, 0),
    ensures
        has_build_std(with_build_std(a)),
        with_build_std(with_build_std(a)) == with_build_std(a),
{
    if !has_build_std(a) {
        lemma_build_std_after_push(a, 0);
    }
}

} // verus!

verus! {

/// A target that a command line names stays named, and stays the same,
/// when more arguments are appended.
pub proof fn law_target_arg_survives_appending(a: Seq<Seq<char>>, extra: Seq<Seq<char>>)
    requires
        target_arg(a) is Some,
    ensures
        target_arg(a + extra) == target_arg(a),
{
    lemma_target_arg_extends(a, extra, 0);
}

proof fn lemma_target_arg_extends(a: Seq<Seq<char>>, extra: Seq<Seq<char>>, i: int)
    requires
        0 <= i,
        target_arg_from(a, i) is Some,
    ensures
        target_arg_from(a + extra, i) == target_arg_from(a, i),
    decreases a.len() - i,
{
    let b = a + extra;
    assert(b[i] == a[i]);
    if a[i] == "--target"@ {
        assert(b[i + 1] == a[i + 1]);
    } else if has_prefix(a[i], "--target="@) {
    } else {
        lemma_target_arg_extends(a, extra, i + 1);
    }
}

} // verus!

verus! {

/// An argument that asks rustc to print something: `--print` or
/// `--print=...`.
pub open spec fn is_print_arg(s: Seq<char>) -> bool {
    s == "--print"@ || has_prefix(s, "--print="@)
}

/// A command line that builds a build script: `--crate-name` directly
/// followed by `build_script_build`.
pub open spec fn names_build_script(a: Seq<Seq<char>>) -> bool {
    exists|i: int|
        0 <= i < a.len() - 1 && #[trigger] a[i] == "--crate-name"@ && a[i + 1]
            == "build_script_build"@
}

proof fn lemma_print_scan_not_host(a: Seq<Seq<char>>, i: int, hp: bool, t: int, p: int, w: int)
    requires
        0 <= i,
        0 <= p <= t,
        !names_build_script(a),
        hp || p < t || (i <= w < a.len() && is_print_arg(a[w])),
    ensures
        !host_scan(a, i, hp, t, p),
    decreases a.len() - i,
{
    reveal_strlit("proc-macro");
    reveal_strlit("--print");
    reveal_strlit("--print=");
    assert("proc-macro"@.len() == 10);
    assert("--print"@.len() == 7);
    assert("proc-macro"@[0] != "--print="@[0]);
    if i < a.len() {
        let hp2 = hp || a[i] == "--print"@ || has_prefix(a[i], "--print="@);
        if a[i] == "--crate-name"@ && i + 1 < a.len() && a[i + 1] == "build_script_build"@ {
            assert(names_build_script(a));
        } else if a[i] == "--crate-type"@ && i + 1 < a.len() {
            let c = proc_macro_count(a[i + 1]);
            if w == i + 1 && !hp && p == t {
                assert(a[i + 1] != "proc-macro"@);
                assert(c == 0);
            }
            lemma_print_scan_not_host(a, i + 2, hp2, t + 1, p + c, w);
        } else if has_prefix(a[i], "--crate-type="@) {
            let c = proc_macro_count(a[i].skip(13));
            lemma_print_scan_not_host(a, i + 1, hp2, t + 1, p + c, w);
        } else {
            lemma_print_scan_not_host(a, i + 1, hp2, t, p, w);
        }
    }
}

/// A print query (`--print` or `--print=...`) anywhere on the command line
/// makes it a probe, never a host-side compilation, unless it builds a build
/// script.
pub proof fn law_print_queries_are_not_host_side(a: Seq<Seq<char>>, w: int)
    requires
        0 <= w < a.len(),
        is_print_arg(a[w]),
        !names_build_script(a),
    ensures
        !host_side(a),
{
    lemma_print_scan_not_host(a, 0, false, 0, 0, w);
}

} // verus!
