//! The decisions of the cargo wrapper: which subcommand a cargo command line
//! runs, the arguments it is given, and the `RUSTFLAGS` it runs with.
use vstd::prelude::*;
use vstd::string::*;

use crate::args::{
    ensure_build_std_flag, ensure_target_arg, has_build_std, target_arg, with_build_std,
    with_target_arg,
};
use crate::target::PANIC_ABORT;
use crate::text::{contains_str, has_prefix, lemma_views_push, occurs_in, owned, starts_with, str_eq, views};

verus! {

/// A global cargo flag that takes the next argument as its value.
pub open spec fn consumes_next(s: Seq<char>) -> bool {
    ||| s == "--config"@
    ||| s == "--manifest-path"@
    ||| s == "--color"@
    ||| s == "--jobs"@
    ||| s == "-j"@
    ||| s == "--target-dir"@
    ||| s == "--timings"@
    ||| s == "--offline"@
    ||| s == "--frozen"@
    ||| s == "--locked"@
    ||| s == "-Z"@
}

/// The first argument at or after `i` that does not start with `-`,
/// skipping the value of each flag that takes one.
pub open spec fn subcommand_from(a: Seq<Seq<char>>, i: int) -> Option<Seq<char>>
    decreases a.len() + 1 - i,
{
    if i < 0 || i >= a.len() {
        None
    } else if !has_prefix(a[i], "-"@) {
        Some(a[i])
    } else if consumes_next(a[i]) {
        subcommand_from(a, i + 2)
    } else {
        subcommand_from(a, i + 1)
    }
}

/// The cargo subcommand of a command line.
pub open spec fn subcommand(a: Seq<Seq<char>>) -> Option<Seq<char>> {
    subcommand_from(a, 0)
}

/// A cargo subcommand that compiles code.
pub open spec fn is_compile_command(s: Seq<char>) -> bool {
    ||| s == "build"@
    ||| s == "check"@
    ||| s == "clippy"@
    ||| s == "doc"@
    ||| s == "run"@
    ||| s == "rustc"@
    ||| s == "test"@
    ||| s == "bench"@
}

/// The subcommand of a command line where it compiles code.
pub open spec fn compile_command(a: Seq<Seq<char>>) -> Option<Seq<char>> {
    match subcommand(a) {
        Some(s) => if is_compile_command(s) {
            Some(s)
        } else {
            None
        },
        None => None,
    }
}

/// The arguments that the cargo wrapper hands to cargo: a compiling
/// subcommand gets the default target and `build-std`, anything else runs
/// as given.
pub open spec fn prepared_cargo_args(a: Seq<Seq<char>>) -> Seq<Seq<char>> {
    if compile_command(a) is Some {
        with_build_std(with_target_arg(a))
    } else {
        a
    }
}

/// The `RUSTFLAGS` that the cargo wrapper runs cargo with.
pub open spec fn rustflags_with_abort(existing: Option<Seq<char>>) -> Seq<char> {
    match existing {
        Some(e) => if occurs_in(e, PANIC_ABORT@) {
            e
        } else {
            e + " -C "@ + PANIC_ABORT@
        },
        None => "-C "@ + PANIC_ABORT@,
    }
}

fn flag_consumes_next(s: &str) -> (r: bool)
    ensures
        r == consumes_next(s@),
{
    str_eq(s, "--config") || str_eq(s, "--manifest-path") || str_eq(s, "--color") || str_eq(
        s,
        "--jobs",
    ) || str_eq(s, "-j") || str_eq(s, "--target-dir") || str_eq(s, "--timings") || str_eq(
        s,
        "--offline",
    ) || str_eq(s, "--frozen") || str_eq(s, "--locked") || str_eq(s, "-Z")
}

/// The cargo subcommand of `args`, if there is one.
pub fn parse_subcommand(args: &[String]) -> (r: Option<&str>)
    ensures
        r is Some == subcommand(views(args@)) is Some,
        r matches Some(s) ==> s@ == subcommand(views(args@))->0,
{
    let ghost a = views(args@);
    let mut index: usize = 0;
    while index < args.len()
        invariant
            a == views(args@),
            index <= args@.len(),
            subcommand_from(a, index as int) == subcommand(a),
        decreases args@.len() - index,
    {
        let arg = args[index].as_str();
        if !starts_with(arg, "-") {
            return Some(arg);
        }
        if flag_consumes_next(arg) {
            if index + 1 >= args.len() {
                assert(subcommand_from(a, index + 2) is None);
                return None;
            }
            index = index + 1;
        }
        index = index + 1;
    }
    None
}

/// The subcommand of `args` where it is one that compiles code.
pub fn compile_subcommand(args: &[String]) -> (r: Option<&str>)
    ensures
        r is Some == compile_command(views(args@)) is Some,
        r matches Some(s) ==> s@ == compile_command(views(args@))->0,
{
    match parse_subcommand(args) {
        Some(command) => {
            if str_eq(command, "build") || str_eq(command, "check") || str_eq(command, "clippy")
                || str_eq(command, "doc") || str_eq(command, "run") || str_eq(command, "rustc")
                || str_eq(command, "test") || str_eq(command, "bench") {
                Some(command)
            } else {
                None
            }
        },
        None => None,
    }
}

/// Whether the cargo wrapper adds the default target to `args`.
pub fn should_inject_target(args: &[String]) -> (r: bool)
    ensures
        r == compile_command(views(args@)) is Some,
{
    compile_subcommand(args).is_some()
}

/// Whether the cargo wrapper adds `build-std` to `args`.
pub fn should_inject_build_std(args: &[String]) -> (r: bool)
    ensures
        r == compile_command(views(args@)) is Some,
{
    compile_subcommand(args).is_some()
}

proof fn lemma_subcommand_extends(a: Seq<Seq<char>>, extra: Seq<Seq<char>>, i: int)
    requires
        0 <= i,
        subcommand_from(a, i) is Some,
    ensures
        subcommand_from(a + extra, i) == subcommand_from(a, i),
    decreases a.len() + 1 - i,
{
    let b = a + extra;
    assert(b[i] == a[i]);
    if !has_prefix(a[i], "-"@) {
    } else if consumes_next(a[i]) {
        lemma_subcommand_extends(a, extra, i + 2);
    } else {
        lemma_subcommand_extends(a, extra, i + 1);
    }
}

/// The subcommand of a command line survives what `ensure_target_arg`
/// appends.
proof fn lemma_compile_command_after_target(a: Seq<Seq<char>>)
    requires
        compile_command(a) is Some,
    ensures
        compile_command(with_target_arg(a)) == compile_command(a),
{
    if target_arg(a) is None {
        let extra = seq!["--target"@, crate::target::triple_of(crate::target::TargetId::X86_64)];
        assert(with_target_arg(a) =~= a + extra);
        lemma_subcommand_extends(a, extra, 0);
    }
}

/// A copy of `args`.
fn copy_args(args: &[String]) -> (r: Vec<String>)
    ensures
        views(r@) == views(args@),
{
    let mut r: Vec<String> = Vec::new();
    let mut i: usize = 0;
    while i < args.len()
        invariant
            i <= args@.len(),
            views(r@) == views(args@).take(i as int),
        decreases args@.len() - i,
    {
        let ghost before = r@;
        let s = args[i].clone();
        r.push(s);
        proof {
            lemma_views_push(before, s);
            assert(views(args@).take(i + 1) =~= views(args@).take(i as int).push(s@));
        }
        i = i + 1;
    }
    assert(views(args@).take(args@.len() as int) =~= views(args@));
    r
}

/// The arguments the cargo wrapper runs cargo with.
pub fn prepare_cargo_args(incoming_args: &[String]) -> (r: Vec<String>)
    ensures
        views(r@) == prepared_cargo_args(views(incoming_args@)),
{
    let ghost a = views(incoming_args@);
    let mut args = copy_args(incoming_args);
    if should_inject_target(args.as_slice()) {
        ensure_target_arg(&mut args);
        proof {
            lemma_compile_command_after_target(a);
        }
    }
    if should_inject_build_std(args.as_slice()) {
        ensure_build_std_flag(&mut args);
    }
    args
}

/// The `RUSTFLAGS` to run cargo with, given those already set: they get
/// ` -C panic=abort` appended unless they mention `panic=abort`.
pub fn merged_rustflags(existing: Option<String>) -> (r: String)
    ensures
        r@ == rustflags_with_abort(
            match existing {
                Some(e) => Some(e@),
                None => None,
            },
        ),
{
    match existing {
        Some(existing) => {
            if contains_str(existing.as_str(), PANIC_ABORT) {
                existing
            } else {
                let mut r = existing;
                r.append(" -C ");
                r.append(PANIC_ABORT);
                r
            }
        },
        None => {
            let mut r = owned("-C ");
            r.append(PANIC_ABORT);
            r
        },
    }
}

} // verus!

verus! {

/// A cargo command line that is not compiling reaches cargo exactly as it
/// was given; one that is compiling keeps all its arguments in front.
pub proof fn law_prepared_cargo_args_extend(a: Seq<Seq<char>>)
    ensures
        compile_command(a) is None ==> prepared_cargo_args(a) == a,
        a.len() <= prepared_cargo_args(a).len(),
        prepared_cargo_args(a).subrange(0, a.len() as int) == a,
{
    let b = with_target_arg(a);
    let c = with_build_std(b);
    assert(b.subrange(0, a.len() as int) =~= a);
    assert(c.subrange(0, b.len() as int) =~= b);
    assert(c.subrange(0, a.len() as int) =~= b.subrange(0, a.len() as int));
}

/// A compiling cargo command line reaches cargo with a target, and with a
/// `build-std` request unless its `build-std` scan ends on a `-Z` that has
/// no value.
pub proof fn law_compile_commands_get_target_and_build_std(a: Seq<Seq<char>>)
    requires
        compile_command(a) is Some,
    ensures
        target_arg(prepared_cargo_args(a)) is Some,
        !crate::args::build_std_dangles_from(with_target_arg(a), 0) ==> has_build_std(
            prepared_cargo_args(a),
        ),
{
    let b = with_target_arg(a);
    crate::args::law_ensure_target_arg_names_a_target(a);
    if !has_build_std(b) {
        let extra = seq![crate::target::BUILD_STD_FLAG@, crate::target::BUILD_STD_VALUE@];
        assert(with_build_std(b) =~= b + extra);
        crate::args::law_target_arg_survives_appending(b, extra);
    }
    if !crate::args::build_std_dangles_from(b, 0) {
        crate::args::law_ensure_build_std(b);
    }
}

/// The merged `RUSTFLAGS` always mention `panic=abort`, and merging them a
/// second time changes nothing.
pub proof fn law_rustflags_with_abort(existing: Option<Seq<char>>)
    ensures
        occurs_in(rustflags_with_abort(existing), PANIC_ABORT@),
        rustflags_with_abort(Some(rustflags_with_abort(existing))) == rustflags_with_abort(
            existing,
        ),
{
    reveal_strlit(" -C ");
    reveal_strlit("-C ");
    let r = rustflags_with_abort(existing);
    match existing {
        Some(e) => {
            if !occurs_in(e, PANIC_ABORT@) {
                let at: int = e.len() as int + 4;
                assert(crate::text::piece_at(r, at, PANIC_ABORT@.len() as int) =~= PANIC_ABORT@);
            }
        },
        None => {
            assert(crate::text::piece_at(r, 3, PANIC_ABORT@.len() as int) =~= PANIC_ABORT@);
        },
    }
}

} // verus!

verus! {

/// Each of `build`, `check`, `clippy`, `doc`, `run`, `rustc`, `test` and
/// `bench` counts as a compiling subcommand: a command line whose subcommand
/// it is gets the default target and `build-std`.
pub proof fn law_compiling_subcommands(a: Seq<Seq<char>>)
    requires
        subcommand(a) == Some("build"@) || subcommand(a) == Some("check"@) || subcommand(a)
            == Some("clippy"@) || subcommand(a) == Some("doc"@) || subcommand(a) == Some("run"@)
            || subcommand(a) == Some("rustc"@) || subcommand(a) == Some("test"@) || subcommand(a)
            == Some("bench"@),
    ensures
        compile_command(a) == subcommand(a),
        target_arg(prepared_cargo_args(a)) is Some,
{
    law_compile_commands_get_target_and_build_std(a);
}

proof fn lemma_subcommand_after_prefix(pre: Seq<Seq<char>>, rest: Seq<Seq<char>>, i: int)
    requires
        0 <= i,
    ensures
        subcommand_from(pre + rest, i + pre.len()) == subcommand_from(rest, i),
    decreases rest.len() + 1 - i,
{
    let b = pre + rest;
    if i < rest.len() {
        assert(b[i + pre.len()] == rest[i]);
        if !has_prefix(rest[i], "-"@) {
        } else if consumes_next(rest[i]) {
            lemma_subcommand_after_prefix(pre, rest, i + 2);
        } else {
            lemma_subcommand_after_prefix(pre, rest, i + 1);
        }
    }
}

/// The global flags `--config`, `--manifest-path`, `--color`, `--jobs`,
/// `-j`, `--target-dir`, `--timings`, `--offline`, `--frozen`, `--locked`
/// and `-Z` take the next argument as their value: it is never taken for
/// the subcommand, which is looked for after it.
pub proof fn law_global_flags_take_a_value(f: Seq<char>, v: Seq<char>, rest: Seq<Seq<char>>)
    requires
        f == "--config"@ || f == "--manifest-path"@ || f == "--color"@ || f == "--jobs"@ || f
            == "-j"@ || f == "--target-dir"@ || f == "--timings"@ || f == "--offline"@ || f
            == "--frozen"@ || f == "--locked"@ || f == "-Z"@,
    ensures
        subcommand(seq![f, v] + rest) == subcommand(rest),
{
    reveal_strlit("-");
    reveal_strlit("--config");
    reveal_strlit("--manifest-path");
    reveal_strlit("--color");
    reveal_strlit("--jobs");
    reveal_strlit("-j");
    reveal_strlit("--target-dir");
    reveal_strlit("--timings");
    reveal_strlit("--offline");
    reveal_strlit("--frozen");
    reveal_strlit("--locked");
    reveal_strlit("-Z");
    let pre = seq![f, v];
    let b = pre + rest;
    assert(b[0] == f);
    assert(f[0] == '-');
    assert(f.subrange(0, 1) =~= "-"@);
    lemma_subcommand_after_prefix(pre, rest, 0);
}

} // verus!
