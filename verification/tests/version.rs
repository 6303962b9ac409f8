use heph_gl::graphics_device::Vendor;
use heph_gl::renderers::version::DriverVersion;
use heph_gl::renderers::vulkan::version::{api_version_to_version, version_to_api_version, VulkanApiVersion};
use heph_gl::{hephgl_engine_version, Version};

#[test]
fn test_version() {
    let expected = Version {
        major: 1,
        minor: 2,
        patch: 3,
    };
    assert_eq!(Version::new(1, 2, 3), expected);
    assert_eq!(
        expected.to_string(),
        format!("v{}.{}.{}", expected.major, expected.minor, expected.patch)
    );
}

#[test]
fn version_text_of_large_numbers() {
    assert_eq!(Version::new(0, 10, 4294967295).to_string(), "v0.10.4294967295");
    assert_eq!(hephgl_engine_version(), Version::new(0, 1, 0));
}

#[test]
fn test_driver_version_to_version() {
    {
        let value = (535 << 22) | (104 << 14) | (5 << 6);
        let driver = DriverVersion::new(value, Vendor::Nvidia);
        let version: Version = driver.into();
        assert_eq!(version, Version::new(535, 104, 5));
    }

    {
        let value = (100 << 14) | 1234;
        let driver = DriverVersion::new(value, Vendor::Intel);
        let version: Version = driver.into();
        assert_eq!(version, Version::new(100, 1234, 0));
    }

    {
        let value = (1 << 22) | (2 << 12) | 3;
        let driver = DriverVersion::new(value, Vendor::Amd);
        let version: Version = driver.into();
        assert_eq!(version, Version::new(1, 2, 3));
    }

    {
        let value = (2 << 22) | (4 << 12) | 10;
        let driver = DriverVersion::new(value, Vendor::Qualcomm);
        let version: Version = driver.into();
        assert_eq!(version, Version::new(2, 4, 10));
    }

    {
        let value = (3 << 22) | (1 << 12) | 50;
        let driver = DriverVersion::new(value, Vendor::Arm);
        let version: Version = driver.into();
        assert_eq!(version, Version::new(3, 1, 50));
    }

    {
        let value = (1 << 22) | (15 << 12) | 2;
        let driver = DriverVersion::new(value, Vendor::Apple);
        let version: Version = driver.into();
        assert_eq!(version, Version::new(1, 15, 2));
    }

    {
        let value = (10 << 22) | (3 << 12) | 1;
        let driver = DriverVersion::new(value, Vendor::Microsoft);
        let version: Version = driver.into();
        assert_eq!(version, Version::new(10, 3, 1));
    }

    {
        let value = (9 << 22) | (99 << 12) | 999;
        let driver = DriverVersion::new(value, Vendor::Other);
        let version: Version = driver.into();
        assert_eq!(version, Version::new(9, 99, 999));
    }
}

#[test]
fn nvidia_driver_version_drops_low_bits() {
    let value = (470 << 22) | (57 << 14) | (2 << 6) | 0x3F;
    let version: Version = DriverVersion::new(value, Vendor::Nvidia).into();
    assert_eq!(version, Version::new(470, 57, 2));
}

#[test]
fn test_vulkan_api_version_to_version() {
    let expected = Version::new(1, 2, 3);
    let vulkan_api_version = VulkanApiVersion(ash::vk::make_api_version(
        0,
        expected.major,
        expected.minor,
        expected.patch,
    ));
    let version: Version = vulkan_api_version.into();
    assert_eq!(version, expected);
}

#[test]
fn test_version_to_vulkan_api_version() {
    let expected = VulkanApiVersion(ash::vk::make_api_version(0, 4, 5, 6));
    let version: Version = Version::new(
        ash::vk::api_version_major(expected.0),
        ash::vk::api_version_minor(expected.0),
        ash::vk::api_version_patch(expected.0),
    );
    let vulkan_api_version: VulkanApiVersion = version.into();
    assert_eq!(vulkan_api_version, expected);
}

#[test]
fn api_version_packing_matches_layout() {
    assert_eq!(version_to_api_version(Version::new(1, 3, 0)), (1 << 22) | (3 << 12));
    assert_eq!(api_version_to_version((1 << 22) | (4 << 12) | 309), Version::new(1, 4, 309));
    // The variant bits are not part of the version.
    assert_eq!(api_version_to_version((7 << 29) | (1 << 22)), Version::new(1, 0, 0));
}
