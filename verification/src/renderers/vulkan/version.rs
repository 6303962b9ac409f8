use vstd::prelude::*;

use crate::Version;

verus! {

/// Dummy struct for implementing conversions between HephGL and Vulkan API versions.
#[derive(Debug, Clone, Copy, PartialEq, Eq, PartialOrd, Ord, Structural)]
pub struct VulkanApiVersion(pub u32);

/// Packs a version the Vulkan way (`ash::vk::make_api_version`): the variant
/// in bits 29..32, the major part in bits 22..29, the minor part in bits
/// 12..22 and the patch in the low 12 bits, each field shifted into place and
/// the fields or-ed together in 32-bit arithmetic.
#[verifier::external_body]
fn make_api_version(variant: u32, major: u32, minor: u32, patch: u32) -> (v: u32)
    ensures
        v == (variant << 29u32) | (major << 22u32) | (minor << 12u32) | patch,
{
    ash::vk::make_api_version(variant, major, minor, patch)
}

/// The major part of a packed Vulkan version (`ash::vk::api_version_major`):
/// bits 22..29.
#[verifier::external_body]
fn api_version_major(version: u32) -> (m: u32)
    ensures
        m == (version >> 22u32) & 0x7f,
{
    ash::vk::api_version_major(version)
}

/// The minor part of a packed Vulkan version (`ash::vk::api_version_minor`):
/// bits 12..22.
#[verifier::external_body]
fn api_version_minor(version: u32) -> (m: u32)
    ensures
        m == (version >> 12u32) & 0x3ff,
{
    ash::vk::api_version_minor(version)
}

/// The patch part of a packed Vulkan version (`ash::vk::api_version_patch`):
/// bits 0..12.
#[verifier::external_body]
fn api_version_patch(version: u32) -> (p: u32)
    ensures
        p == version & 0xfff,
{
    ash::vk::api_version_patch(version)
}

/// The version that a packed Vulkan API version stands for.
pub open spec fn unpack_api_version(v: u32) -> Version {
    Version { major: (v >> 22u32) & 0x7f, minor: (v >> 12u32) & 0x3ff, patch: v & 0xfff }
}

/// The packed Vulkan API version (variant 0) of a version.
pub open spec fn pack_api_version(v: Version) -> u32 {
    (0u32 << 29u32) | (v.major << 22u32) | (v.minor << 12u32) | v.patch
}

impl From<VulkanApiVersion> for Version {
    fn from(value: VulkanApiVersion) -> (v: Self) {
        Self::new(
            api_version_major(value.0),
            api_version_minor(value.0),
            api_version_patch(value.0),
        )
    }
}

impl vstd::std_specs::convert::FromSpecImpl<VulkanApiVersion> for Version {
    open spec fn obeys_from_spec() -> bool {
        true
    }

    open spec fn from_spec(v: VulkanApiVersion) -> Version {
        unpack_api_version(v.0)
    }
}

impl From<Version> for VulkanApiVersion {
    fn from(value: Version) -> (v: Self) {
        VulkanApiVersion(make_api_version(0, value.major, value.minor, value.patch))
    }
}

impl vstd::std_specs::convert::FromSpecImpl<Version> for VulkanApiVersion {
    open spec fn obeys_from_spec() -> bool {
        true
    }

    open spec fn from_spec(v: Version) -> VulkanApiVersion {
        VulkanApiVersion(pack_api_version(v))
    }
}

/// Converts a packed Vulkan API version into a version.
pub fn api_version_to_version(value: u32) -> (v: Version)
    ensures
        v == unpack_api_version(value),
{
    Version::from(VulkanApiVersion(value))
}

/// Packs a version as a Vulkan API version of variant 0.
pub fn version_to_api_version(value: Version) -> (v: u32)
    ensures
        v == pack_api_version(value),
{
    VulkanApiVersion::from(value).0
}

/// A version whose parts fit their fields (7, 10 and 12 bits) survives being
/// packed as a Vulkan API version and unpacked again.
pub proof fn lemma_version_round_trip(v: Version)
    requires
        v.major < 128,
        v.minor < 1024,
        v.patch < 4096,
    ensures
        unpack_api_version(pack_api_version(v)) == v,
{
    let (major, minor, patch) = (v.major, v.minor, v.patch);
    let packed = pack_api_version(v);
    assert((packed >> 22u32) & 0x7f == major && (packed >> 12u32) & 0x3ff == minor && packed
        & 0xfff == patch) by (bit_vector)
        requires
            packed == (0u32 << 29u32) | (major << 22u32) | (minor << 12u32) | patch,
            major < 128,
            minor < 1024,
            patch < 4096,
    ;
}

/// A packed Vulkan API version of variant 0 survives being unpacked and
/// packed again.
pub proof fn lemma_api_version_round_trip(value: u32)
    requires
        value >> 29u32 == 0,
    ensures
        pack_api_version(unpack_api_version(value)) == value,
{
    let u = unpack_api_version(value);
    let (major, minor, patch) = (u.major, u.minor, u.patch);
    assert((0u32 << 29u32) | (major << 22u32) | (minor << 12u32) | patch == value) by (bit_vector)
        requires
            major == (value >> 22u32) & 0x7f,
            minor == (value >> 12u32) & 0x3ff,
            patch == value & 0xfff,
            value >> 29u32 == 0,
    ;
}

} // verus!
