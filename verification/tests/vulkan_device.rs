use heph_gl::graphics_device::{Feature, FeatureSet, Type, Vendor};
use heph_gl::renderers::vulkan::device::{
    collect_features, describe_device, device_type_from_raw, device_vram, enabled_device_features,
    first_device, negotiate_features, require_queue_families, uses_vulkan_1_2_features, uses_vulkan_1_3_features, version_at_least,
    MemoryHeap, PhysicalDeviceInfo,
};
use heph_gl::renderers::vulkan::queue::QueueFlags;
use heph_gl::renderers::{FeatureRequest, RendererError};
use heph_gl::Version;

fn queue_flags(graphics: bool, compute: bool, transfer: bool, decode: bool) -> QueueFlags {
    QueueFlags {
        graphics,
        compute,
        transfer,
        video_decode: decode,
        video_encode: false,
        optical_flow: false,
    }
}

fn sample_info() -> PhysicalDeviceInfo {
    PhysicalDeviceInfo {
        name: "Sample".to_string(),
        device_type: 2,
        vendor_id: 0x10DE,
        device_id: 0x2204,
        api_version: (1 << 22) | (3 << 12) | 277,
        driver_version: (535 << 22) | (104 << 14) | (5 << 6),
        memory_heaps: vec![
            MemoryHeap {
                size: 8 << 30,
                device_local: true,
            },
            MemoryHeap {
                size: 16 << 30,
                device_local: false,
            },
            MemoryHeap {
                size: 256 << 20,
                device_local: true,
            },
        ],
        geometry_shader: true,
        fill_mode_non_solid: false,
        wide_lines: true,
        sampler_anisotropy: false,
        extension_names: vec![
            "VK_KHR_swapchain".to_string(),
            "VK_KHR_ray_tracing_pipeline".to_string(),
        ],
        queue_families: vec![
            queue_flags(true, true, true, false),
            queue_flags(false, false, true, true),
        ],
    }
}

#[test]
fn describes_a_device_from_its_properties() {
    let device = describe_device(&sample_info());
    assert_eq!(device.name, "Sample");
    assert_eq!(device.device_type, Type::DiscreteGpu);
    assert_eq!(device.vendor(), Vendor::Nvidia);
    assert_eq!(device.device_id, 0x2204);
    assert_eq!(device.api_version, Version::new(1, 3, 277));
    assert_eq!(device.driver_version, Version::new(535, 104, 5));
    assert_eq!(device.vram, (8 << 30) + (256 << 20));
    assert_eq!(
        device.supported_features.to_vec(),
        vec![
            Feature::GeometryShaders,
            Feature::ComputeShaders,
            Feature::WideLines,
            Feature::RayTracing,
            Feature::VideoDecoding,
            Feature::AsyncTransfer,
        ]
    );
}

#[test]
fn graphics_transfer_family_is_not_async_transfer() {
    let mut info = sample_info();
    info.queue_families = vec![queue_flags(true, false, true, false)];
    info.extension_names = vec![];
    let features = collect_features(&info);
    assert!(!features.contains(&Feature::AsyncTransfer));
    assert!(!features.contains(&Feature::RayTracing));
    assert!(!features.contains(&Feature::ComputeShaders));
}

#[test]
fn device_types_from_raw_values() {
    assert_eq!(device_type_from_raw(0), Type::Other);
    assert_eq!(device_type_from_raw(1), Type::IntegratedGpu);
    assert_eq!(device_type_from_raw(2), Type::DiscreteGpu);
    assert_eq!(device_type_from_raw(3), Type::VirtualGpu);
    assert_eq!(device_type_from_raw(4), Type::Cpu);
    assert_eq!(device_type_from_raw(5), Type::Invalid);
    assert_eq!(device_type_from_raw(-1), Type::Invalid);
}

#[test]
fn vram_counts_device_local_heaps_only() {
    assert_eq!(device_vram(&vec![]), 0);
    assert_eq!(
        device_vram(&vec![
            MemoryHeap {
                size: 3,
                device_local: false
            },
            MemoryHeap {
                size: 5,
                device_local: true
            }
        ]),
        5
    );
}

#[test]
fn negotiation_keeps_supported_requests_in_order() {
    let mut supported = FeatureSet::new();
    supported.insert(Feature::ComputeShaders);
    supported.insert(Feature::WideLines);
    let requests = [
        FeatureRequest {
            feature: Feature::WideLines,
            required: false,
        },
        FeatureRequest {
            feature: Feature::RayTracing,
            required: false,
        },
        FeatureRequest {
            feature: Feature::ComputeShaders,
            required: true,
        },
    ];
    assert_eq!(
        negotiate_features(&supported, &requests).unwrap(),
        vec![Feature::WideLines, Feature::ComputeShaders]
    );
}

#[test]
fn negotiation_fails_on_first_missing_required_feature() {
    let supported = FeatureSet::new();
    let requests = [
        FeatureRequest {
            feature: Feature::WideLines,
            required: false,
        },
        FeatureRequest {
            feature: Feature::OpticalFlow,
            required: true,
        },
        FeatureRequest {
            feature: Feature::RayTracing,
            required: true,
        },
    ];
    match negotiate_features(&supported, &requests) {
        Err(RendererError::UnsupportedRequiredFeature(f)) => assert_eq!(f, Feature::OpticalFlow),
        other => panic!("unexpected {:?}", other),
    }
}

#[test]
fn core_features_follow_available_features() {
    let enabled = enabled_device_features(&vec![Feature::WireframeMode, Feature::AnisotropicFiltering]);
    assert!(!enabled.geometry_shader);
    assert!(enabled.fill_mode_non_solid);
    assert!(!enabled.wide_lines);
    assert!(enabled.sampler_anisotropy);
}

#[test]
fn version_ordering() {
    assert!(version_at_least(Version::new(1, 2, 0), Version::new(1, 2, 0)));
    assert!(version_at_least(Version::new(1, 10, 0), Version::new(1, 2, 5)));
    assert!(!version_at_least(Version::new(1, 1, 9), Version::new(1, 2, 0)));
    assert!(uses_vulkan_1_2_features(Version::new(1, 3, 0), Version::new(1, 2, 1)));
    assert!(!uses_vulkan_1_2_features(Version::new(1, 3, 0), Version::new(1, 1, 0)));
    assert!(uses_vulkan_1_3_features(Version::new(1, 4, 0)));
    assert!(!uses_vulkan_1_3_features(Version::new(1, 2, 200)));
}

#[test]
fn the_first_device_is_the_default() {
    let device = describe_device(&sample_info());
    let devices = vec![device.clone(), describe_device(&sample_info())];
    assert_eq!(first_device(&devices).unwrap().name, device.name);
    match first_device(&vec![]) {
        Err(RendererError::Fail(m)) => assert_eq!(m, "No active graphics device found."),
        _ => panic!("expected an error"),
    }
}

#[test]
fn a_device_without_queue_families_is_not_available() {
    assert!(require_queue_families(3).is_ok());
    match require_queue_families(0) {
        Err(RendererError::Fail(m)) => assert_eq!(m, "Requested device is not available."),
        _ => panic!("expected an error"),
    }
}
