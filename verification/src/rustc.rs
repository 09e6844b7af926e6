//! The decisions of the rustc wrapper: the arguments rustc is run with and
//! the target spec that is checked first.
use vstd::prelude::*;

use crate::args::{
    ensure_panic_abort_codegen, ensure_target_arg, ensure_unstable_options_flag, has_panic_abort,
    has_target_arg, has_unstable_options, host_side, is_host_side_compilation, no_info_query,
    panic_abort_at, should_inject_rustc_defaults, target_arg,
    with_panic_abort, with_target_arg, with_unstable_options,
};
use crate::target::{target_for_triple, TargetId};
use crate::text::views;

verus! {

/// The arguments the rustc wrapper runs rustc with. Unless the command line
/// is an information query, a compilation for the HXNU target gets the
/// default target and `panic=abort`, and any command line that then names a
/// target gets `-Z unstable-options`; build scripts and proc-macros keep
/// the host target.
pub open spec fn prepared_rustc_args(a: Seq<Seq<char>>) -> Seq<Seq<char>> {
    let inject = no_info_query(a);
    let b = if inject && !host_side(a) {
        with_panic_abort(with_target_arg(a))
    } else {
        a
    };
    if inject && target_arg(b) is Some {
        with_unstable_options(b)
    } else {
        b
    }
}

/// The supported target whose spec file the rustc wrapper checks before it
/// runs rustc: the one named on the command line, the default where none is
/// named, and none where the named target is not a supported one.
pub open spec fn target_to_validate(a: Seq<Seq<char>>) -> Option<TargetId> {
    match target_arg(a) {
        Some(t) => target_for_triple(t),
        None => Some(TargetId::X86_64),
    }
}

/// Adds the HXNU defaults to a rustc command line.
pub fn prepare_rustc_args(rustc_args: &mut Vec<String>)
    ensures
        views(final(rustc_args)@) == prepared_rustc_args(views(old(rustc_args)@)),
{
    let should_inject_defaults = should_inject_rustc_defaults(rustc_args.as_slice());
    if should_inject_defaults && !is_host_side_compilation(rustc_args.as_slice()) {
        ensure_target_arg(rustc_args);
        ensure_panic_abort_codegen(rustc_args);
    }
    if should_inject_defaults && has_target_arg(rustc_args.as_slice()) {
        ensure_unstable_options_flag(rustc_args);
    }
}

/// The supported target whose spec file must be checked before rustc runs
/// with `rustc_args`, if any.
pub fn rustc_target_to_validate(rustc_args: &[String]) -> (r: Option<TargetId>)
    ensures
        r == target_to_validate(views(rustc_args@)),
{
    match crate::args::extract_target_arg(rustc_args) {
        Some(triple) => crate::target::target_id_from_triple(triple),
        None => Some(crate::target::default_target_id()),
    }
}

proof fn lemma_panic_abort_survives_appending(a: Seq<Seq<char>>, extra: Seq<Seq<char>>)
    requires
        has_panic_abort(a),
    ensures
        has_panic_abort(a + extra),
{
    let i = choose|i: int| 0 <= i < a.len() && #[trigger] panic_abort_at(a, i);
    let b = a + extra;
    assert(b[i] == a[i]);
    if i + 1 < a.len() {
        assert(b[i + 1] == a[i + 1]);
    }
    assert(panic_abort_at(b, i));
}

/// A version, help or other information query reaches rustc untouched.
pub proof fn law_info_queries_untouched(a: Seq<Seq<char>>)
    requires
        !no_info_query(a),
    ensures
        prepared_rustc_args(a) == a,
{
}

/// A compilation for the HXNU target reaches rustc with a target,
/// `panic=abort` and unstable options enabled.
pub proof fn law_target_compilations_get_defaults(a: Seq<Seq<char>>)
    requires
        no_info_query(a),
        !host_side(a),
    ensures
        target_arg(prepared_rustc_args(a)) is Some,
        has_panic_abort(prepared_rustc_args(a)),
        has_unstable_options(prepared_rustc_args(a)),
{
    let t = with_target_arg(a);
    let b = with_panic_abort(t);
    crate::args::law_ensure_target_arg_names_a_target(a);
    crate::args::law_ensure_panic_abort(t);
    if !has_panic_abort(t) {
        let extra = seq!["-C"@, crate::target::PANIC_ABORT@];
        assert(b =~= t + extra);
        crate::args::law_target_arg_survives_appending(t, extra);
    }
    crate::args::law_ensure_unstable_options(b);
    if !has_unstable_options(b) {
        let extra = seq!["-Z"@, crate::target::UNSTABLE_OPTIONS@];
        assert(with_unstable_options(b) =~= b + extra);
        crate::args::law_target_arg_survives_appending(b, extra);
        lemma_panic_abort_survives_appending(b, extra);
    }
}

/// A build script or proc-macro compilation keeps the target it had: none
/// is added and a named one stays the same.
pub proof fn law_host_compilations_keep_target(a: Seq<Seq<char>>)
    requires
        host_side(a),
    ensures
        target_arg(prepared_rustc_args(a)) == target_arg(a),
{
    if no_info_query(a) && target_arg(a) is Some && !has_unstable_options(a) {
        let extra = seq!["-Z"@, crate::target::UNSTABLE_OPTIONS@];
        assert(with_unstable_options(a) =~= a + extra);
        crate::args::law_target_arg_survives_appending(a, extra);
    }
}

} // verus!
