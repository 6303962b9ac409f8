use heph_gl::graphics_device::{vram_gib_of, Feature, FeatureSet, GraphicsDevice, Type, Vendor};
use heph_gl::Version;

fn blank_device() -> GraphicsDevice {
    GraphicsDevice {
        name: "".to_string(),
        device_type: Type::Other,
        vendor_id: 0,
        device_id: 0,
        api_version: Version {
            major: 0,
            minor: 0,
            patch: 0,
        },
        driver_version: Version {
            major: 0,
            minor: 0,
            patch: 0,
        },
        vram: 0,
        supported_features: FeatureSet::default(),
    }
}

#[test]
fn test_vendor() {
    let mut dev = blank_device();
    assert_eq!(dev.vendor(), Vendor::Other);

    dev.set_vendor(Vendor::Nvidia);
    assert_eq!(dev.vendor(), Vendor::Nvidia);

    dev.set_vendor(Vendor::Amd);
    assert_eq!(dev.vendor(), Vendor::Amd);

    dev.set_vendor(Vendor::Intel);
    assert_eq!(dev.vendor(), Vendor::Intel);

    dev.set_vendor(Vendor::Qualcomm);
    assert_eq!(dev.vendor(), Vendor::Qualcomm);

    dev.set_vendor(Vendor::Arm);
    assert_eq!(dev.vendor(), Vendor::Arm);

    dev.set_vendor(Vendor::Apple);
    assert_eq!(dev.vendor(), Vendor::Apple);

    dev.set_vendor(Vendor::Microsoft);
    assert_eq!(dev.vendor(), Vendor::Microsoft);

    dev.set_vendor(Vendor::Other);
    assert_eq!(dev.vendor(), Vendor::Other);
}

#[test]
fn test_type_display() {
    assert_eq!(Type::DiscreteGpu.to_string(), "Discrete GPU");
    assert_eq!(Type::IntegratedGpu.to_string(), "Integrated GPU");
    assert_eq!(Type::VirtualGpu.to_string(), "Virtual GPU");
    assert_eq!(Type::Cpu.to_string(), "CPU");
    assert_eq!(Type::Other.to_string(), "Other");
    assert_eq!(Type::Invalid.to_string(), "Invalid graphics device type.");
}

#[test]
fn test_vendor_display() {
    assert_eq!(Vendor::Nvidia.to_string(), "NVIDIA");
    assert_eq!(Vendor::Amd.to_string(), "AMD");
    assert_eq!(Vendor::Intel.to_string(), "Intel");
    assert_eq!(Vendor::Qualcomm.to_string(), "Qualcomm");
    assert_eq!(Vendor::Arm.to_string(), "ARM");
    assert_eq!(Vendor::Apple.to_string(), "Apple");
    assert_eq!(Vendor::Microsoft.to_string(), "Microsoft");
    assert_eq!(Vendor::Other.to_string(), "Other");
}

#[test]
fn test_feature_display() {
    assert_eq!(Feature::GeometryShaders.to_string(), "Geometry Shaders");
    assert_eq!(Feature::ComputeShaders.to_string(), "Compute Shaders");
    assert_eq!(Feature::WireframeMode.to_string(), "Wireframe Mode");
    assert_eq!(Feature::WideLines.to_string(), "Wide Lines");
    assert_eq!(
        Feature::AnisotropicFiltering.to_string(),
        "Anisotropic Filtering"
    );
    assert_eq!(Feature::RayTracing.to_string(), "Ray Tracing");
    assert_eq!(Feature::VideoDecoding.to_string(), "Video Decoding");
    assert_eq!(Feature::VideoEncoding.to_string(), "Video Encoding");
    assert_eq!(Feature::OpticalFlow.to_string(), "Optical Flow");
    assert_eq!(Feature::AsyncTransfer.to_string(), "Async Transfer");
}

#[test]
fn test_graphics_device_display() {
    let mut device = GraphicsDevice {
        name: "".to_string(),
        device_type: Type::Other,
        vendor_id: 0,
        device_id: 0,
        api_version: Version {
            major: 1,
            minor: 0,
            patch: 0,
        },
        driver_version: Version {
            major: 1,
            minor: 0,
            patch: 0,
        },
        vram: 1024 * 1024 * 1024,
        supported_features: FeatureSet::default(),
    };

    assert!(!device.to_string().contains("Supported Features:"));

    device.supported_features.insert(Feature::RayTracing);
    assert!(device.to_string().contains("Supported Features:"));
}

#[test]
fn graphics_device_text_lists_every_field() {
    let mut device = GraphicsDevice {
        name: "Test GPU".to_string(),
        device_type: Type::DiscreteGpu,
        vendor_id: 0x10DE,
        device_id: 0x2684,
        api_version: Version::new(1, 3, 280),
        driver_version: Version::new(535, 104, 5),
        vram: 24 * 1024 * 1024 * 1024 + 512 * 1024 * 1024,
        supported_features: FeatureSet::new(),
    };
    device.supported_features.insert(Feature::AsyncTransfer);
    device.supported_features.insert(Feature::GeometryShaders);
    let expected = "Graphics Device:\n\
                    \x20   Name:               Test GPU\n\
                    \x20   Type:               Discrete GPU\n\
                    \x20   Vendor:             NVIDIA\n\
                    \x20   Vendor ID:          0x10DE\n\
                    \x20   Device ID:          0x2684\n\
                    \x20   API Version:        v1.3.280\n\
                    \x20   Driver Version:     v535.104.5\n\
                    \x20   VRAM:           25 GB\n\
                    \x20   Supported Features:\n\
                    \x20    - Geometry Shaders\n\
                    \x20    - Async Transfer\n";
    assert_eq!(device.to_string(), expected);
}

#[test]
fn graphics_device_text_pads_small_ids() {
    let mut device = blank_device();
    device.vendor_id = 0x5143;
    device.device_id = 0x1a;
    device.vram = 512 * 1024 * 1024 - 1;
    let text = device.to_string();
    assert!(text.contains("    Vendor:             Qualcomm\n"));
    assert!(text.contains("    Device ID:          0x001A\n"));
    assert!(text.contains("    VRAM:           0 GB\n"));
}

#[test]
fn vendor_ids_round_trip() {
    let vendors = [
        Vendor::Nvidia,
        Vendor::Amd,
        Vendor::Intel,
        Vendor::Qualcomm,
        Vendor::Arm,
        Vendor::Apple,
        Vendor::Microsoft,
        Vendor::Other,
    ];
    for vendor in vendors {
        let mut dev = blank_device();
        dev.set_vendor(vendor);
        assert_eq!(GraphicsDevice::vendor_from_id(dev.vendor_id), vendor);
    }
    assert_eq!(GraphicsDevice::vendor_from_id(0x8086), Vendor::Intel);
    assert_eq!(GraphicsDevice::vendor_from_id(0x1234), Vendor::Other);
}

#[test]
fn feature_set_insert_remove_contains() {
    let mut set = FeatureSet::new();
    assert!(set.is_empty());
    assert!(set.insert(Feature::WideLines));
    assert!(!set.insert(Feature::WideLines));
    assert!(set.insert(Feature::ComputeShaders));
    assert!(set.contains(&Feature::WideLines));
    assert!(!set.contains(&Feature::RayTracing));
    assert_eq!(
        set.to_vec(),
        vec![Feature::ComputeShaders, Feature::WideLines]
    );
    assert!(set.remove(Feature::WideLines));
    assert!(!set.remove(Feature::WideLines));
    assert_eq!(set.to_vec(), vec![Feature::ComputeShaders]);
    assert!(set.remove(Feature::ComputeShaders));
    assert!(set.is_empty());
}

#[test]
fn feature_debug_names() {
    assert_eq!(Feature::ComputeShaders.debug_name(), "ComputeShaders");
    assert_eq!(Feature::AnisotropicFiltering.debug_name(), "AnisotropicFiltering");
    assert_eq!(
        format!("{:?}", Feature::OpticalFlow),
        Feature::OpticalFlow.debug_name()
    );
}

#[test]
fn vram_rounds_as_a_float() {
    let gib = 1u64 << 30;
    let cases = [
        0,
        1,
        gib / 2 - 1,
        gib / 2,
        gib,
        24 * gib + gib / 2,
        (1 << 53) - 1,
        1 << 53,
        (1 << 53) + 1,
        (1 << 53) + 3,
        (1 << 60) + (1 << 29) - 1,
        (1 << 60) + (1 << 29) - 128,
        (1 << 60) + (1 << 29) - 129,
        (1 << 62) + (1 << 29) + 511,
        u64::MAX - 1024,
        u64::MAX,
    ];
    for v in cases {
        let expected = ((v as f64) / (1024.0 * 1024.0 * 1024.0)).round() as u64;
        assert_eq!(vram_gib_of(v), expected, "vram {}", v);
    }
    assert_eq!(vram_gib_of((1 << 60) + (1 << 29) - 1), (1 << 30) + 1);
}
