//! Vulkan API versions: how they are packed, and which ones are recent enough.

use vstd::prelude::*;

verus! {

/// The major number held in a packed Vulkan version.
pub open spec fn major_of(version: u32) -> u32 {
    (version >> 22) & 0x7f
}

/// The minor number held in a packed Vulkan version.
pub open spec fn minor_of(version: u32) -> u32 {
    (version >> 12) & 0x3ff
}

/// The word that packs the four parts of a Vulkan version.
pub open spec fn packed(variant: u32, major: u32, minor: u32, patch: u32) -> u32 {
    (variant << 29) | (major << 22) | (minor << 12) | patch
}

/// `ash::vk::make_api_version` packs its arguments by shifting each to its
/// place and joining the four words, with no masking.
pub assume_specification[ ash::vk::make_api_version ](
    variant: u32,
    major: u32,
    minor: u32,
    patch: u32,
) -> (version: u32)
    ensures
        version == packed(variant, major, minor, patch),
;

/// `ash::vk::api_version_major` reads the seven bits from bit 22 up.
pub assume_specification[ ash::vk::api_version_major ](version: u32) -> (major: u32)
    ensures
        major == major_of(version),
;

/// `ash::vk::api_version_minor` reads the ten bits from bit 12 up.
pub assume_specification[ ash::vk::api_version_minor ](version: u32) -> (minor: u32)
    ensures
        minor == minor_of(version),
;

/// Vulkan 1.1 or later, the first version that has external memory in core.
pub open spec fn is_supported(version: u32) -> bool {
    major_of(version) > 1 || (major_of(version) == 1 && minor_of(version) >= 1)
}

/// The version that a loader stands for: one that cannot be asked is a 1.0 loader.
pub open spec fn reported_version(reported: Option<u32>) -> u32 {
    match reported {
        Some(version) => version,
        None => packed(0, 1, 0, 0),
    }
}

/// Whether the loader's reported version, if it reports any, is Vulkan 1.1 or later.
pub fn meets_minimum_version(reported: Option<u32>) -> (ok: bool)
    ensures
        ok == is_supported(reported_version(reported)),
{
    let version: u32 = match reported {
        Some(version) => version,
        None => ash::vk::make_api_version(0, 1, 0, 0),
    };
    let major: u32 = ash::vk::api_version_major(version);
    let minor: u32 = ash::vk::api_version_minor(version);
    !(major < 1 || (major == 1 && minor < 1))
}

/// Packing a version and reading its major and minor numbers gives them back,
/// whatever the variant and the patch level are.
pub proof fn law_version_fields_round_trip(variant: u32, major: u32, minor: u32, patch: u32)
    requires
        major < 0x80,
        minor < 0x400,
        patch < 0x1000,
    ensures
        major_of(packed(variant, major, minor, patch)) == major,
        minor_of(packed(variant, major, minor, patch)) == minor,
{
    assert((((variant << 29) | (major << 22) | (minor << 12) | patch) >> 22) & 0x7f == major)
        by (bit_vector)
        requires
            major < 0x80,
            minor < 0x400,
            patch < 0x1000,
    ;
    assert((((variant << 29) | (major << 22) | (minor << 12) | patch) >> 12) & 0x3ff == minor)
        by (bit_vector)
        requires
            major < 0x80,
            minor < 0x400,
            patch < 0x1000,
    ;
}

/// A version is accepted exactly when its (major, minor) pair is at least (1, 1).
/// The variant and the patch level do not matter.
pub proof fn law_minimum_is_one_one(variant: u32, major: u32, minor: u32, patch: u32)
    requires
        major < 0x80,
        minor < 0x400,
        patch < 0x1000,
    ensures
        is_supported(packed(variant, major, minor, patch)) <==> major > 1 || (major == 1 && minor
            >= 1),
{
    law_version_fields_round_trip(variant, major, minor, patch);
}

/// A loader that cannot report a version is too old.
pub proof fn law_silent_loader_is_too_old()
    ensures
        !is_supported(reported_version(None)),
{
    law_version_fields_round_trip(0, 1, 0, 0);
}

} // verus!
