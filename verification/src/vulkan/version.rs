use vstd::prelude::*;

verus! {

/// The variant field of a packed Vulkan version (bits 29 to 31).
pub open spec fn spec_api_version_variant(version: u32) -> u32 {
    version >> 29
}

/// The major field of a packed Vulkan version (bits 22 to 28).
pub open spec fn spec_api_version_major(version: u32) -> u32 {
    (version >> 22) & 0x7f
}

/// The minor field of a packed Vulkan version (bits 12 to 21).
pub open spec fn spec_api_version_minor(version: u32) -> u32 {
    (version >> 12) & 0x3ff
}

/// The patch field of a packed Vulkan version (bits 0 to 11).
pub open spec fn spec_api_version_patch(version: u32) -> u32 {
    version & 0xfff
}

/// A packed Vulkan version.
pub open spec fn spec_make_api_version(variant: u32, major: u32, minor: u32, patch: u32) -> u32 {
    (variant << 29) | (major << 22) | (minor << 12) | patch
}

/// `vk::api_version_variant`.
pub fn api_version_variant(version: u32) -> (r: u32)
    ensures
        r == spec_api_version_variant(version),
{
    version >> 29
}

/// `vk::api_version_major`.
pub fn api_version_major(version: u32) -> (r: u32)
    ensures
        r == spec_api_version_major(version),
{
    (version >> 22) & 0x7f
}

/// `vk::api_version_minor`.
pub fn api_version_minor(version: u32) -> (r: u32)
    ensures
        r == spec_api_version_minor(version),
{
    (version >> 12) & 0x3ff
}

/// `vk::api_version_patch`.
pub fn api_version_patch(version: u32) -> (r: u32)
    ensures
        r == spec_api_version_patch(version),
{
    version & 0xfff
}

/// `vk::make_api_version`.
pub fn make_api_version(variant: u32, major: u32, minor: u32, patch: u32) -> (r: u32)
    ensures
        r == spec_make_api_version(variant, major, minor, patch),
{
    (variant << 29) | (major << 22) | (minor << 12) | patch
}

/// The Vulkan version to ask for: the driver's major and minor version (1.0 when
/// the driver reports none, as a Vulkan 1.0 driver does), with variant and patch 0.
pub open spec fn spec_select_version(driver_version: Option<u32>) -> u32 {
    match driver_version {
        Some(v) => spec_make_api_version(0, spec_api_version_major(v), spec_api_version_minor(v), 0),
        None => spec_make_api_version(0, 1, 0, 0),
    }
}

/// The Vulkan version to ask for, from what `vkEnumerateInstanceVersion` reported.
pub fn select_version(driver_version: Option<u32>) -> (version: u32)
    ensures
        version == spec_select_version(driver_version),
{
    let (_variant, major, minor, _patch) = match driver_version {
        Some(version) => (
            api_version_variant(version),
            api_version_major(version),
            api_version_minor(version),
            api_version_patch(version),
        ),
        None => (0, 1, 0, 0),
    };
    make_api_version(0, major, minor, 0)
}

/// The selected version keeps the driver's major and minor version and has
/// variant and patch 0.
pub proof fn lemma_selected_version_fields(driver_version: u32)
    ensures
        spec_api_version_major(spec_select_version(Some(driver_version))) == spec_api_version_major(driver_version),
        spec_api_version_minor(spec_select_version(Some(driver_version))) == spec_api_version_minor(driver_version),
        spec_api_version_patch(spec_select_version(Some(driver_version))) == 0,
        spec_api_version_variant(spec_select_version(Some(driver_version))) == 0,
{
    let v = driver_version;
    assert((((0u32 << 29) | ((((v >> 22) & 0x7f) as u32) << 22) | ((((v >> 12) & 0x3ff) as u32) << 12) | 0u32) >> 22) & 0x7f == (v >> 22) & 0x7f) by (bit_vector);
    assert((((0u32 << 29) | ((((v >> 22) & 0x7f) as u32) << 22) | ((((v >> 12) & 0x3ff) as u32) << 12) | 0u32) >> 12) & 0x3ff == (v >> 12) & 0x3ff) by (bit_vector);
    assert(((0u32 << 29) | ((((v >> 22) & 0x7f) as u32) << 22) | ((((v >> 12) & 0x3ff) as u32) << 12) | 0u32) & 0xfff == 0) by (bit_vector);
    assert(((0u32 << 29) | ((((v >> 22) & 0x7f) as u32) << 22) | ((((v >> 12) & 0x3ff) as u32) << 12) | 0u32) >> 29 == 0) by (bit_vector);
}

/// Packing a version and reading its fields back gives the fields, when each
/// fits its width.
pub proof fn lemma_version_roundtrip(variant: u32, major: u32, minor: u32, patch: u32)
    requires
        variant < 8,
        major < 0x80,
        minor < 0x400,
        patch < 0x1000,
    ensures
        spec_api_version_variant(spec_make_api_version(variant, major, minor, patch)) == variant,
        spec_api_version_major(spec_make_api_version(variant, major, minor, patch)) == major,
        spec_api_version_minor(spec_make_api_version(variant, major, minor, patch)) == minor,
        spec_api_version_patch(spec_make_api_version(variant, major, minor, patch)) == patch,
{
    assert(variant < 8 && major < 0x80 && minor < 0x400 && patch < 0x1000 ==> ((variant << 29) | (major << 22) | (minor << 12) | patch) >> 29 == variant) by (bit_vector);
    assert(variant < 8 && major < 0x80 && minor < 0x400 && patch < 0x1000 ==> (((variant << 29) | (major << 22) | (minor << 12) | patch) >> 22) & 0x7f == major) by (bit_vector);
    assert(variant < 8 && major < 0x80 && minor < 0x400 && patch < 0x1000 ==> (((variant << 29) | (major << 22) | (minor << 12) | patch) >> 12) & 0x3ff == minor) by (bit_vector);
    assert(variant < 8 && major < 0x80 && minor < 0x400 && patch < 0x1000 ==> ((variant << 29) | (major << 22) | (minor << 12) | patch) & 0xfff == patch) by (bit_vector);
}

} // verus!
