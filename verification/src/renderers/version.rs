use vstd::prelude::*;

use crate::graphics_device::Vendor;
use crate::Version;

verus! {

/// Represents a vendor-specific driver version number.
#[derive(Debug, Clone, Copy, PartialEq, Eq, Structural)]
pub struct DriverVersion {
    /// The version number.
    pub value: u32,
    /// The device vendor.
    pub vendor: Vendor,
}

impl DriverVersion {
    pub fn new(value: u32, vendor: Vendor) -> (d: Self)
        ensures
            d.value == value,
            d.vendor == vendor,
    {
        Self { value, vendor }
    }
}

/// How a vendor packs its driver version: NVIDIA as 10.8.8.6 bits, Intel as
/// 18.14 bits, every other vendor as the Vulkan 7.10.12 layout.
pub open spec fn driver_version_to_version(d: DriverVersion) -> Version {
    match d.vendor {
        Vendor::Nvidia => Version {
            major: (d.value >> 22u32) & 0x3FF,
            minor: (d.value >> 14u32) & 0x0FF,
            patch: (d.value >> 6u32) & 0x0FF,
        },
        Vendor::Intel => Version { major: d.value >> 14u32, minor: d.value & 0x3FFF, patch: 0 },
        _ => Version {
            major: (d.value >> 22u32) & 0x7F,
            minor: (d.value >> 12u32) & 0x3FF,
            patch: d.value & 0xFFF,
        },
    }
}

impl From<DriverVersion> for Version {
    fn from(driver_version: DriverVersion) -> (v: Self) {
        match driver_version.vendor {
            Vendor::Nvidia => Version::new(
                (driver_version.value >> 22) & 0x3FF,
                (driver_version.value >> 14) & 0x0FF,
                (driver_version.value >> 6) & 0x0FF,
            ),
            Vendor::Intel => {
                Version::new(driver_version.value >> 14, driver_version.value & 0x3FFF, 0)
            },
            _ => Version::new(
                (driver_version.value >> 22) & 0x7F,
                (driver_version.value >> 12) & 0x3FF,
                driver_version.value & 0xFFF,
            ),
        }
    }
}

impl vstd::std_specs::convert::FromSpecImpl<DriverVersion> for Version {
    open spec fn obeys_from_spec() -> bool {
        true
    }

    open spec fn from_spec(v: DriverVersion) -> Version {
        driver_version_to_version(v)
    }
}

/// Converts a driver version by its vendor's packing.
pub fn driver_version_to_heph_version(driver_version: DriverVersion) -> (v: Version)
    ensures
        v == driver_version_to_version(driver_version),
{
    Version::from(driver_version)
}

/// NVIDIA driver versions unpack into the fields they were packed from, for
/// fields within their bit widths (10, 8 and 8 bits).
pub proof fn lemma_nvidia_driver_round_trip(major: u32, minor: u32, patch: u32)
    requires
        major < 1024,
        minor < 256,
        patch < 256,
    ensures
        driver_version_to_version(
            DriverVersion {
                value: (major << 22u32) | (minor << 14u32) | (patch << 6u32),
                vendor: Vendor::Nvidia,
            },
        ) == (Version { major, minor, patch }),
{
    let value = (major << 22u32) | (minor << 14u32) | (patch << 6u32);
    assert((value >> 22u32) & 0x3FF == major && (value >> 14u32) & 0x0FF == minor && (value
        >> 6u32) & 0x0FF == patch) by (bit_vector)
        requires
            value == (major << 22u32) | (minor << 14u32) | (patch << 6u32),
            major < 1024,
            minor < 256,
            patch < 256,
    ;
}

/// Intel driver versions unpack into the fields they were packed from, for a
/// major part of 18 bits and a minor part of 14 bits.
pub proof fn lemma_intel_driver_round_trip(major: u32, minor: u32)
    requires
        major < 0x40000,
        minor < 0x4000,
    ensures
        driver_version_to_version(
            DriverVersion { value: (major << 14u32) | minor, vendor: Vendor::Intel },
        ) == (Version { major, minor, patch: 0 }),
{
    let value = (major << 14u32) | minor;
    assert(value >> 14u32 == major && value & 0x3FFF == minor) by (bit_vector)
        requires
            value == (major << 14u32) | minor,
            major < 0x40000,
            minor < 0x4000,
    ;
}

/// Driver versions of other vendors unpack into the fields they were packed
/// from, for fields within their bit widths (7, 10 and 12 bits).
pub proof fn lemma_standard_driver_round_trip(vendor: Vendor, major: u32, minor: u32, patch: u32)
    requires
        vendor != Vendor::Nvidia,
        vendor != Vendor::Intel,
        major < 128,
        minor < 1024,
        patch < 4096,
    ensures
        driver_version_to_version(
            DriverVersion { value: (major << 22u32) | (minor << 12u32) | patch, vendor },
        ) == (Version { major, minor, patch }),
{
    let value = (major << 22u32) | (minor << 12u32) | patch;
    assert((value >> 22u32) & 0x7F == major && (value >> 12u32) & 0x3FF == minor && value & 0xFFF
        == patch) by (bit_vector)
        requires
            value == (major << 22u32) | (minor << 12u32) | patch,
            major < 128,
            minor < 1024,
            patch < 4096,
    ;
}

} // verus!
