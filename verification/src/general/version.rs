//! Packed Vulkan version numbers (`VK_MAKE_VERSION`): 10 bits of major version,
//! 10 bits of minor version and 12 bits of patch version.

use vstd::prelude::*;
use vstd::string::StringExecFns;
use crate::text::{decimal, to_decimal};

verus! {

/// The packed version: `major << 22 | minor << 12 | patch`.
pub open spec fn spec_make_version(major: u32, minor: u32, patch: u32) -> u32 {
    ((major << 22u32) | (minor << 12u32) | patch) as u32
}

/// Packs a version number as `VK_MAKE_VERSION` does.
pub fn make_version(major: u32, minor: u32, patch: u32) -> (r: u32)
    ensures
        r == spec_make_version(major, minor, patch),
{
    (major << 22u32) | (minor << 12u32) | patch
}

/// The major version: the bits from 22 up.
pub open spec fn spec_version_major(version: u32) -> u32 {
    version >> 22u32
}

/// The minor version: bits 12 to 21.
pub open spec fn spec_version_minor(version: u32) -> u32 {
    (version >> 12u32) & 0x3ffu32
}

/// The patch version: bits 0 to 11.
pub open spec fn spec_version_patch(version: u32) -> u32 {
    version & 0xfffu32
}

pub fn version_major(version: u32) -> (r: u32)
    ensures
        r == spec_version_major(version),
{
    version >> 22u32
}

pub fn version_minor(version: u32) -> (r: u32)
    ensures
        r == spec_version_minor(version),
{
    (version >> 12u32) & 0x3ffu32
}

pub fn version_patch(version: u32) -> (r: u32)
    ensures
        r == spec_version_patch(version),
{
    version & 0xfffu32
}

/// Packing then unpacking gives back each part, for parts that fit their bits.
pub proof fn lemma_version_round_trip(major: u32, minor: u32, patch: u32)
    requires
        major < 1024,
        minor < 1024,
        patch < 4096,
    ensures
        spec_version_major(spec_make_version(major, minor, patch)) == major,
        spec_version_minor(spec_make_version(major, minor, patch)) == minor,
        spec_version_patch(spec_make_version(major, minor, patch)) == patch,
{
    assert(((((major << 22u32) | (minor << 12u32) | patch) as u32) >> 22u32) == major) by (bit_vector)
        requires
            major < 1024,
            minor < 1024,
            patch < 4096,
    ;
    assert(((((((major << 22u32) | (minor << 12u32) | patch) as u32) >> 12u32) & 0x3ffu32)) == minor) by (bit_vector)
        requires
            minor < 1024,
            patch < 4096,
    ;
    assert(((((major << 22u32) | (minor << 12u32) | patch) as u32) & 0xfffu32) == patch) by (bit_vector)
        requires
            patch < 4096,
    ;
}

/// `major.minor.patch` of a packed version.
pub open spec fn spec_version_string(version: u32) -> Seq<char> {
    decimal(spec_version_major(version) as nat) + seq!['.'] + decimal(spec_version_minor(version) as nat)
        + seq!['.'] + decimal(spec_version_patch(version) as nat)
}

/// Writes a packed version as `major.minor.patch`.
pub fn as_version_string(version: &u32) -> (r: String)
    ensures
        r@ == spec_version_string(*version),
{
    let mut s = to_decimal(version_major(*version) as u64);
    proof {
        reveal_strlit(".");
    }
    s.append(".");
    let minor = to_decimal(version_minor(*version) as u64);
    s.append(minor.as_str());
    s.append(".");
    let patch = to_decimal(version_patch(*version) as u64);
    s.append(patch.as_str());
    proof {
        assert(".".view() =~= seq!['.']);
    }
    s
}

} // verus!
