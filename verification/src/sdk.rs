//! Names and contents that the SDK bundle tool produces.
use vstd::prelude::*;
use vstd::string::*;

use crate::target::TARGET_TRIPLE;
use crate::text::{ends_with, has_prefix, has_suffix, owned, starts_with};

verus! {

/// The name of the SDK bundle.
pub const BUNDLE_NAME: &'static str = "hxnu-rustc-compiler-x86_64";

/// The cargo profile the SDK binaries are built with.
#[derive(Debug, Copy, Clone, PartialEq, Eq, Structural)]
pub enum BuildProfile {
    Debug,
    Release,
}

/// The directory under `target/` that holds a profile's build output.
pub open spec fn profile_dir(p: BuildProfile) -> Seq<char> {
    match p {
        BuildProfile::Debug => "debug"@,
        BuildProfile::Release => "release"@,
    }
}

/// The directory under `target/` that holds a profile's build output.
pub fn profile_dir_name(profile: BuildProfile) -> (r: &'static str)
    ensures
        r@ == profile_dir(profile),
{
    match profile {
        BuildProfile::Debug => "debug",
        BuildProfile::Release => "release",
    }
}

/// The directory name of the bundle of a version.
pub fn bundle_dir_name(version: &str) -> (r: String)
    ensures
        r@ == BUNDLE_NAME@ + "-"@ + version@,
{
    let mut r = owned(BUNDLE_NAME);
    r.append("-");
    r.append(version);
    r
}

/// The contents of the bundle's `SDK-MANIFEST.txt`.
pub open spec fn manifest_text(version: Seq<char>, profile: BuildProfile) -> Seq<char> {
    "name="@ + BUNDLE_NAME@ + "\nversion="@ + version + "\ntarget="@ + TARGET_TRIPLE@
        + "\nprofile="@ + profile_dir(profile) + "\n"@
}

/// The contents of the bundle's `SDK-MANIFEST.txt`.
pub fn sdk_manifest_text(version: &str, profile: BuildProfile) -> (r: String)
    ensures
        r@ == manifest_text(version@, profile),
{
    let mut r = owned("name=");
    r.append(BUNDLE_NAME);
    r.append("\nversion=");
    r.append(version);
    r.append("\ntarget=");
    r.append(TARGET_TRIPLE);
    r.append("\nprofile=");
    r.append(profile_dir_name(profile));
    r.append("\n");
    r
}

/// Whether a build artifact named `file_name` is a library with the given
/// name prefix (`libcore-` and the like) that goes into the bundle's
/// sysroot: an `.rlib` or an `.rmeta`.
pub fn is_prebuilt_lib_file(file_name: &str, prefix: &str) -> (r: bool)
    ensures
        r == (has_prefix(file_name@, prefix@) && (has_suffix(file_name@, ".rlib"@) || has_suffix(
            file_name@,
            ".rmeta"@,
        ))),
{
    starts_with(file_name, prefix) && (ends_with(file_name, ".rlib") || ends_with(
        file_name,
        ".rmeta",
    ))
}

/// The file name of the archive of a bundle directory whose last component
/// is `bundle_file_name`.
pub fn archive_file_name(bundle_file_name: Option<&str>) -> (r: String)
    ensures
        r@ == match bundle_file_name {
            Some(n) => n@,
            None => BUNDLE_NAME@,
        } + ".tar.gz"@,
{
    let mut r = match bundle_file_name {
        Some(name) => owned(name),
        None => owned(BUNDLE_NAME),
    };
    r.append(".tar.gz");
    r
}

} // verus!
