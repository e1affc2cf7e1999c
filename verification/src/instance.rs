//! The version numbers a Vulkan instance is created with.

use vstd::prelude::*;
use ash::vk;
use std::str::FromStr;

verus! {

/// A Vulkan version number: the variant in the top three bits, then the
/// major version in seven, the minor version in ten and the patch in twelve;
/// bits that do not fit are dropped.
pub open spec fn api_version_spec(variant: u32, major: u32, minor: u32, patch: u32) -> u32 {
    (variant << 29u32) | (major << 22u32) | (minor << 12u32) | patch
}

/// `vk::make_api_version(variant, major, minor, patch)` (ash's
/// `make_api_version`): the fields shifted into place and or-ed together.
#[verifier::external_body]
fn make_api_version(variant: u32, major: u32, minor: u32, patch: u32) -> (r: u32)
    ensures r == api_version_spec(variant, major, minor, patch),
{
    vk::make_api_version(variant, major, minor, patch)
}

/// The versions an instance is created with, given the application's and the
/// engine's versions (each major, minor and patch): the packed application
/// version, the packed engine version, and the API version, 1.1.
pub fn instance_versions(app: (u32, u32, u32), engine: (u32, u32, u32)) -> (r: (u32, u32, u32))
    ensures
        r.0 == api_version_spec(0, app.0, app.1, app.2),
        r.1 == api_version_spec(0, engine.0, engine.1, engine.2),
        r.2 == api_version_spec(0, 1, 1, 0),
{
    (
        make_api_version(0, app.0, app.1, app.2),
        make_api_version(0, engine.0, engine.1, engine.2),
        make_api_version(0, 1, 1, 0),
    )
}

/// The major, minor and patch numbers of the version that `text` spells, as
/// `semver::Version::from_str` reads it, or `None` where `text` is no version.
pub uninterp spec fn parsed_version(text: Seq<char>) -> Option<(u64, u64, u64)>;

/// `semver::Version::from_str(text)`, giving the version's major, minor and
/// patch numbers.
#[verifier::external_body]
fn parse_version(text: &str) -> (r: Option<(u64, u64, u64)>)
    ensures r == parsed_version(text@),
{
    semver::Version::from_str(text).ok().map(|v| (v.major, v.minor, v.patch))
}

/// The versions an instance is created with, where the application's
/// version is given as text (such as the package's version): as
/// `instance_versions` gives them for the parsed numbers (each cut to 32
/// bits), or `None` where the text is no version.
pub fn application_versions(app_version: &str, engine: (u32, u32, u32)) -> (r: Option<(u32, u32, u32)>)
    ensures
        match parsed_version(app_version@) {
            Some((major, minor, patch)) => r == Some((
                api_version_spec(0, major as u32, minor as u32, patch as u32),
                api_version_spec(0, engine.0, engine.1, engine.2),
                api_version_spec(0, 1, 1, 0),
            )),
            None => r is None,
        },
{
    match parse_version(app_version) {
        Some((major, minor, patch)) => Some(instance_versions((major as u32, minor as u32, patch as u32), engine)),
        None => None,
    }
}

/// The packed API version 1.1 is `0x401000`, and small versions keep their
/// fields apart.
pub proof fn lemma_api_version_fields(major: u32, minor: u32, patch: u32)
    requires
        major < 128,
        minor < 1024,
        patch < 4096,
    ensures
        api_version_spec(0, major, minor, patch) >> 22u32 == major,
        (api_version_spec(0, major, minor, patch) >> 12u32) & 0x3ffu32 == minor,
        api_version_spec(0, major, minor, patch) & 0xfffu32 == patch,
        api_version_spec(0, 1, 1, 0) == 0x401000u32,
{
    assert(((0u32 << 29u32) | (major << 22u32) | (minor << 12u32) | patch) >> 22u32 == major
        && (((0u32 << 29u32) | (major << 22u32) | (minor << 12u32) | patch) >> 12u32) & 0x3ffu32 == minor
        && ((0u32 << 29u32) | (major << 22u32) | (minor << 12u32) | patch) & 0xfffu32 == patch
        && ((0u32 << 29u32) | (1u32 << 22u32) | (1u32 << 12u32) | 0u32) == 0x401000u32) by (bit_vector)
        requires major < 128, minor < 1024, patch < 4096;
}

} // verus!
