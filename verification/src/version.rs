//! Version numbers as the API packs them into one word.

use vstd::prelude::*;

verus! {

/// `major.minor.patch` in one word: ten bits, ten bits and twelve bits,
/// from the top. Bits of a part that do not fit are lost or run into the
/// part above.
pub open spec fn spec_make_version(major: u32, minor: u32, patch: u32) -> u32 {
    (major << 22) | (minor << 12) | patch
}

/// `vks::vk_make_version` shifts the major number by 22 bits and the minor
/// number by 12, and joins them and the patch number bit by bit.
pub assume_specification[ vks::vk_make_version ](
    major: u32,
    minor: u32,
    patch: u32,
) -> (packed: u32)
    ensures
        packed == spec_make_version(major, minor, patch),
;

/// A version number in three parts.
#[derive(Clone, Copy, Debug, PartialEq, Eq, Structural)]
pub struct Version {
    pub major: u32,
    pub minor: u32,
    pub patch: u32,
}

impl Version {
    /// The version `major.minor.patch`.
    pub fn new(major: u32, minor: u32, patch: u32) -> (version: Version)
        ensures
            version == (Version { major, minor, patch }),
    {
        Version { major, minor, patch }
    }

    /// The version in one word.
    pub fn packed(&self) -> (word: u32)
        ensures
            word == spec_make_version(self.major, self.minor, self.patch),
    {
        vks::vk_make_version(self.major, self.minor, self.patch)
    }
}

/// A version whose parts fit their bits packs into a word that holds each
/// part where it belongs.
pub proof fn lemma_packed_parts(major: u32, minor: u32, patch: u32)
    requires
        major < 0x400,
        minor < 0x400,
        patch < 0x1000,
    ensures
        spec_make_version(major, minor, patch) >> 22 == major,
        (spec_make_version(major, minor, patch) >> 12) & 0x3ff == minor,
        spec_make_version(major, minor, patch) & 0xfff == patch,
{
    assert(((major << 22) | (minor << 12) | patch) >> 22 == major) by (bit_vector)
        requires
            major < 0x400,
            minor < 0x400,
            patch < 0x1000,
    ;
    assert((((major << 22) | (minor << 12) | patch) >> 12) & 0x3ff == minor) by (bit_vector)
        requires
            major < 0x400,
            minor < 0x400,
            patch < 0x1000,
    ;
    assert(((major << 22) | (minor << 12) | patch) & 0xfff == patch) by (bit_vector)
        requires
            major < 0x400,
            minor < 0x400,
            patch < 0x1000,
    ;
}

} // verus!
