//! The checks that a target's JSON spec file must pass, on the fields read
//! from it.
use vstd::prelude::*;
use vstd::string::*;

use crate::target::{arch_of, endian_of, llvm_prefix_of, TargetId};
use crate::text::{has_prefix, owned, starts_with, str_eq};

verus! {

/// The `target-pointer-width` field: JSON allows it as a number or as a
/// string.
#[derive(Debug, Clone, PartialEq, Eq)]
pub enum PointerWidth {
    Number(u16),
    Text(String),
}

/// The fields of a target spec file that the checks read.
#[derive(Debug, Clone)]
pub struct RawTargetSpec {
    pub arch: String,
    pub llvm_target: String,
    pub target_endian: String,
    pub target_pointer_width: PointerWidth,
    pub linker: Option<String>,
}

/// What a target spec file that passed the checks declares.
#[derive(Debug, Clone)]
pub struct TargetSpecSummary {
    pub target_id: Option<TargetId>,
    pub arch: String,
    pub llvm_target: String,
    pub target_endian: String,
    pub target_pointer_width: String,
    pub linker: Option<String>,
}

/// Which check a target spec file failed.
#[derive(Debug, Copy, Clone, PartialEq, Eq, Structural)]
pub enum RejectionKind {
    PointerWidth,
    Arch,
    Endian,
    LlvmTarget,
    EmptyArch,
    UnknownEndian,
}

/// A failed check, with the values it compared.
#[derive(Debug, Clone)]
pub enum TargetSpecError {
    /// The pointer width is not 64.
    InvalidPointerWidth { found: String },
    /// The arch differs from the expected target's.
    ArchMismatch { found: String, expected: String },
    /// The endianness differs from the expected target's.
    EndianMismatch { found: String, expected: String },
    /// The LLVM target does not start with the expected target's prefix.
    LlvmTargetMismatch { found: String, expected_prefix: String },
    /// No target was expected and the arch is empty.
    EmptyArch,
    /// No target was expected and the endianness is neither `little` nor
    /// `big`.
    UnknownEndian { found: String },
}

/// The check that an error reports.
pub open spec fn kind_of(e: TargetSpecError) -> RejectionKind {
    match e {
        TargetSpecError::InvalidPointerWidth { .. } => RejectionKind::PointerWidth,
        TargetSpecError::ArchMismatch { .. } => RejectionKind::Arch,
        TargetSpecError::EndianMismatch { .. } => RejectionKind::Endian,
        TargetSpecError::LlvmTargetMismatch { .. } => RejectionKind::LlvmTarget,
        TargetSpecError::EmptyArch => RejectionKind::EmptyArch,
        TargetSpecError::UnknownEndian { .. } => RejectionKind::UnknownEndian,
    }
}

/// The decimal digit `d`.
pub open spec fn digit_char(d: nat) -> char {
    if d == 0 {
        '0'
    } else if d == 1 {
        '1'
    } else if d == 2 {
        '2'
    } else if d == 3 {
        '3'
    } else if d == 4 {
        '4'
    } else if d == 5 {
        '5'
    } else if d == 6 {
        '6'
    } else if d == 7 {
        '7'
    } else if d == 8 {
        '8'
    } else {
        '9'
    }
}

/// The decimal notation of `n`, without leading zeros.
pub open spec fn decimal(n: nat) -> Seq<char>
    decreases n,
{
    if n < 10 {
        seq![digit_char(n)]
    } else {
        decimal(n / 10).push(digit_char(n % 10))
    }
}

/// The pointer width as text.
pub open spec fn pointer_width_text(w: PointerWidth) -> Seq<char> {
    match w {
        PointerWidth::Number(n) => decimal(n as nat),
        PointerWidth::Text(s) => s@,
    }
}

/// The first check that a spec file with these fields fails, if any. The
/// pointer width must be 64; a file for an expected target must then match
/// its arch, its endianness and the prefix of its LLVM target; a file for no
/// particular target must have a non-empty arch and an endianness of
/// `little` or `big`.
pub open spec fn rejection(
    pointer_width: Seq<char>,
    arch: Seq<char>,
    llvm_target: Seq<char>,
    endian: Seq<char>,
    expected: Option<TargetId>,
) -> Option<RejectionKind> {
    if pointer_width != "64"@ {
        Some(RejectionKind::PointerWidth)
    } else {
        match expected {
            Some(t) => if arch != arch_of(t) {
                Some(RejectionKind::Arch)
            } else if endian != endian_of(t) {
                Some(RejectionKind::Endian)
            } else if !has_prefix(llvm_target, llvm_prefix_of(t)) {
                Some(RejectionKind::LlvmTarget)
            } else {
                None
            },
            None => if arch.len() == 0 {
                Some(RejectionKind::EmptyArch)
            } else if endian != "little"@ && endian != "big"@ {
                Some(RejectionKind::UnknownEndian)
            } else {
                None
            },
        }
    }
}

/// The check that `raw` fails when `expected` is the expected target.
pub open spec fn rejection_of(raw: RawTargetSpec, expected: Option<TargetId>) -> Option<
    RejectionKind,
> {
    rejection(
        pointer_width_text(raw.target_pointer_width),
        raw.arch@,
        raw.llvm_target@,
        raw.target_endian@,
        expected,
    )
}

/// The values that an error about `raw` carries.
pub open spec fn error_reports(e: TargetSpecError, raw: RawTargetSpec, expected: Option<TargetId>) -> bool {
    match e {
        TargetSpecError::InvalidPointerWidth { found } => found@ == pointer_width_text(
            raw.target_pointer_width,
        ),
        TargetSpecError::ArchMismatch { found, expected: wanted } => found@ == raw.arch@
            && wanted@ == arch_of(expected->0),
        TargetSpecError::EndianMismatch { found, expected: wanted } => found@
            == raw.target_endian@ && wanted@ == endian_of(expected->0),
        TargetSpecError::LlvmTargetMismatch { found, expected_prefix } => found@
            == raw.llvm_target@ && expected_prefix@ == llvm_prefix_of(expected->0),
        TargetSpecError::EmptyArch => true,
        TargetSpecError::UnknownEndian { found } => found@ == raw.target_endian@,
    }
}

/// The text of an error.
pub open spec fn error_message(e: TargetSpecError) -> Seq<char> {
    match e {
        TargetSpecError::InvalidPointerWidth { found } => "invalid target-pointer-width "@
            + found@ + ", expected 64"@,
        TargetSpecError::ArchMismatch { found, expected } => "invalid arch "@ + found@
            + ", expected "@ + expected@,
        TargetSpecError::EndianMismatch { found, expected } => "invalid target-endian "@ + found@
            + ", expected "@ + expected@,
        TargetSpecError::LlvmTargetMismatch { found, expected_prefix } => "invalid llvm-target "@
            + found@ + ", expected "@ + expected_prefix@ + "-compatible target"@,
        TargetSpecError::EmptyArch => "invalid arch: empty"@,
        TargetSpecError::UnknownEndian { found } => "invalid target-endian "@ + found@
            + ", expected little or big"@,
    }
}

/// The one-character text of the digit `d`.
fn digit_str(d: u16) -> (r: &'static str)
    requires
        d < 10,
    ensures
        r@ == seq![digit_char(d as nat)],
{
    proof {
        reveal_strlit("0");
        reveal_strlit("1");
        reveal_strlit("2");
        reveal_strlit("3");
        reveal_strlit("4");
        reveal_strlit("5");
        reveal_strlit("6");
        reveal_strlit("7");
        reveal_strlit("8");
        reveal_strlit("9");
    }
    let r = if d == 0 {
        "0"
    } else if d == 1 {
        "1"
    } else if d == 2 {
        "2"
    } else if d == 3 {
        "3"
    } else if d == 4 {
        "4"
    } else if d == 5 {
        "5"
    } else if d == 6 {
        "6"
    } else if d == 7 {
        "7"
    } else if d == 8 {
        "8"
    } else {
        "9"
    };
    assert(r@ =~= seq![digit_char(d as nat)]);
    r
}

/// The decimal notation of `n`.
fn decimal_string(n: u16) -> (r: String)
    ensures
        r@ == decimal(n as nat),
    decreases n,
{
    if n < 10 {
        owned(digit_str(n))
    } else {
        let mut r = decimal_string(n / 10);
        r.append(digit_str(n % 10));
        r
    }
}

impl PointerWidth {
    /// The pointer width as text.
    pub fn as_string(&self) -> (r: String)
        ensures
            r@ == pointer_width_text(*self),
    {
        match self {
            PointerWidth::Number(value) => decimal_string(*value),
            PointerWidth::Text(value) => value.clone(),
        }
    }
}

impl TargetSpecError {
    /// The text of the error.
    pub fn message(&self) -> (r: String)
        ensures
            r@ == error_message(*self),
    {
        match self {
            TargetSpecError::InvalidPointerWidth { found } => {
                let mut r = owned("invalid target-pointer-width ");
                r.append(found.as_str());
                r.append(", expected 64");
                r
            },
            TargetSpecError::ArchMismatch { found, expected } => {
                let mut r = owned("invalid arch ");
                r.append(found.as_str());
                r.append(", expected ");
                r.append(expected.as_str());
                r
            },
            TargetSpecError::EndianMismatch { found, expected } => {
                let mut r = owned("invalid target-endian ");
                r.append(found.as_str());
                r.append(", expected ");
                r.append(expected.as_str());
                r
            },
            TargetSpecError::LlvmTargetMismatch { found, expected_prefix } => {
                let mut r = owned("invalid llvm-target ");
                r.append(found.as_str());
                r.append(", expected ");
                r.append(expected_prefix.as_str());
                r.append("-compatible target");
                r
            },
            TargetSpecError::EmptyArch => owned("invalid arch: empty"),
            TargetSpecError::UnknownEndian { found } => {
                let mut r = owned("invalid target-endian ");
                r.append(found.as_str());
                r.append(", expected little or big");
                r
            },
        }
    }
}

/// Checks the fields of a target spec file, against `expected_target`
/// where one is given, and summarises the file when it passes.
pub fn validate_target_spec(raw: RawTargetSpec, expected_target: Option<TargetId>) -> (r: Result<
    TargetSpecSummary,
    TargetSpecError,
>)
    ensures
        r is Ok == rejection_of(raw, expected_target) is None,
        r matches Ok(s) ==> {
            &&& s.target_id == expected_target
            &&& s.arch == raw.arch
            &&& s.llvm_target == raw.llvm_target
            &&& s.target_endian == raw.target_endian
            &&& s.target_pointer_width@ == pointer_width_text(raw.target_pointer_width)
            &&& s.linker == raw.linker
        },
        r matches Err(e) ==> rejection_of(raw, expected_target) == Some(kind_of(e)) && error_reports(
            e,
            raw,
            expected_target,
        ),
{
    let pointer_width = raw.target_pointer_width.as_string();
    if !str_eq(pointer_width.as_str(), "64") {
        return Err(TargetSpecError::InvalidPointerWidth { found: pointer_width });
    }
    match expected_target {
        Some(target) => {
            if !str_eq(raw.arch.as_str(), target.expected_arch()) {
                return Err(
                    TargetSpecError::ArchMismatch {
                        found: raw.arch.clone(),
                        expected: owned(target.expected_arch()),
                    },
                );
            }
            if !str_eq(raw.target_endian.as_str(), target.expected_endian()) {
                return Err(
                    TargetSpecError::EndianMismatch {
                        found: raw.target_endian.clone(),
                        expected: owned(target.expected_endian()),
                    },
                );
            }
            if !starts_with(raw.llvm_target.as_str(), target.expected_llvm_prefix()) {
                return Err(
                    TargetSpecError::LlvmTargetMismatch {
                        found: raw.llvm_target.clone(),
                        expected_prefix: owned(target.expected_llvm_prefix()),
                    },
                );
            }
        },
        None => {
            if raw.arch.as_str().unicode_len() == 0 {
                return Err(TargetSpecError::EmptyArch);
            }
            if !str_eq(raw.target_endian.as_str(), "little") && !str_eq(
                raw.target_endian.as_str(),
                "big",
            ) {
                return Err(TargetSpecError::UnknownEndian { found: raw.target_endian.clone() });
            }
        },
    }
    Ok(
        TargetSpecSummary {
            target_id: expected_target,
            arch: raw.arch,
            llvm_target: raw.llvm_target,
            target_endian: raw.target_endian,
            target_pointer_width: pointer_width,
            linker: raw.linker,
        },
    )
}

} // verus!

verus! {

/// A spec file that passes the checks for a known target also passes the
/// checks made when no target is expected.
pub proof fn law_target_checks_imply_generic_checks(
    pointer_width: Seq<char>,
    arch: Seq<char>,
    llvm_target: Seq<char>,
    endian: Seq<char>,
    t: TargetId,
)
    requires
        rejection(pointer_width, arch, llvm_target, endian, Some(t)) is None,
    ensures
        rejection(pointer_width, arch, llvm_target, endian, None) is None,
{
    reveal_strlit("x86_64");
    reveal_strlit("aarch64");
    reveal_strlit("powerpc64");
    assert(arch_of(t).len() > 0);
}

proof fn lemma_decimal_nonempty(n: nat)
    ensures
        decimal(n).len() >= 1,
        n >= 10 ==> decimal(n).len() >= 2,
    decreases n,
{
    if n >= 10 {
        lemma_decimal_nonempty(n / 10);
    }
}

/// A numeric pointer width passes the width check exactly when it is 64,
/// so `64` and `"64"` in a spec file mean the same.
pub proof fn law_numeric_pointer_width(n: u16)
    ensures
        (pointer_width_text(PointerWidth::Number(n)) == "64"@) <==> n == 64,
{
    reveal_strlit("64");
    let s = "64"@;
    assert(s.len() == 2 && s[0] == '6' && s[1] == '4');
    if n == 64 {
        assert(decimal(6) == seq!['6']);
        assert(decimal(64) =~= seq!['6', '4']);
        assert(s =~= seq!['6', '4']);
    }
    assert(pointer_width_text(PointerWidth::Number(n)) == decimal(n as nat));
    if decimal(n as nat) == s {
        if n < 10 {
            assert(decimal(n as nat).len() == 1);
        } else {
            let q = (n / 10) as nat;
            lemma_decimal_nonempty(q);
            assert(decimal(n as nat) == decimal(q).push(digit_char((n % 10) as nat)));
            assert(digit_char((n % 10) as nat) == '4');
            assert(decimal(q).len() == 1);
            if q >= 10 {
            }
            assert(decimal(q)[0] == '6');
            assert(digit_char(q) == '6');
            assert(q == 6);
            assert((n % 10) as nat == 4);
            assert(n == 64);
        }
    }
}

} // verus!

verus! {

/// A spec file accepted for an expected target declares exactly that
/// target's arch and endianness, a 64-bit pointer width, and an LLVM target
/// that starts with the target's prefix; with a 64-bit width, any other arch
/// is rejected as an arch mismatch.
pub proof fn law_accepted_spec_matches_target(
    pointer_width: Seq<char>,
    arch: Seq<char>,
    llvm_target: Seq<char>,
    endian: Seq<char>,
    t: TargetId,
)
    ensures
        rejection(pointer_width, arch, llvm_target, endian, Some(t)) is None ==> {
            &&& pointer_width == "64"@
            &&& arch == arch_of(t)
            &&& endian == endian_of(t)
            &&& llvm_target.len() >= llvm_prefix_of(t).len()
            &&& llvm_target.subrange(0, llvm_prefix_of(t).len() as int) == llvm_prefix_of(t)
        },
        pointer_width == "64"@ && arch != arch_of(t) ==> rejection(
            pointer_width,
            arch,
            llvm_target,
            endian,
            Some(t),
        ) == Some(RejectionKind::Arch),
{
}

} // verus!
