use vstd::prelude::*;

use crate::graphics_device::{vendor_of_id, Feature, FeatureSet, GraphicsDevice, Type};
use crate::renderers::version::{driver_version_to_heph_version, driver_version_to_version, DriverVersion};
use crate::renderers::vulkan::queue::QueueFlags;
use crate::renderers::vulkan::version::{api_version_to_version, unpack_api_version};
use crate::renderers::{FeatureRequest, RendererError, RendererResult};
use crate::Version;

verus! {

/// The features of `requests` that the device supports, in request order.
pub open spec fn available_features(requests: Seq<FeatureRequest>, supported: Set<Feature>) -> Seq<
    Feature,
>
    decreases requests.len(),
{
    if requests.len() == 0 {
        Seq::empty()
    } else {
        let prev = available_features(requests.drop_last(), supported);
        if supported.contains(requests.last().feature) {
            prev.push(requests.last().feature)
        } else {
            prev
        }
    }
}

/// Whether the request at `i` is required and the device does not support it.
pub open spec fn missing_required(requests: Seq<FeatureRequest>, supported: Set<Feature>, i: int) -> bool {
    requests[i].required && !supported.contains(requests[i].feature)
}

/// Checks the requested features against the features that a device supports.
///
/// Returns the supported requested features in request order, or, at the first
/// request that is required and unsupported, its feature as the error.
pub fn negotiate_features(supported: &FeatureSet, requests: &[FeatureRequest]) -> (r: RendererResult<
    Vec<Feature>,
>)
    ensures
        r is Err <==> exists|i: int|
            0 <= i < requests@.len() && missing_required(requests@, supported@, i),
        r matches Err(e) ==> exists|i: int|
            0 <= i < requests@.len() && missing_required(requests@, supported@, i) && (forall|j: int|
                0 <= j < i ==> !missing_required(requests@, supported@, j)) && e
                == RendererError::UnsupportedRequiredFeature(requests@[i].feature),
        r matches Ok(v) ==> v@ == available_features(requests@, supported@),
{
    let mut available: Vec<Feature> = Vec::new();
    let mut i: usize = 0;
    while i < requests.len()
        invariant
            i <= requests@.len(),
            available@ == available_features(requests@.take(i as int), supported@),
            forall|j: int| 0 <= j < i ==> !missing_required(requests@, supported@, j),
        decreases requests@.len() - i,
    {
        proof {
            assert(requests@.take(i + 1).drop_last() =~= requests@.take(i as int));
            assert(requests@.take(i + 1).last() == requests@[i as int]);
        }
        let request = requests[i];
        if supported.contains(&request.feature) {
            available.push(request.feature);
        } else if request.required {
            proof {
                assert(missing_required(requests@, supported@, i as int));
            }
            return Err(RendererError::UnsupportedRequiredFeature(request.feature));
        }
        i = i + 1;
    }
    proof {
        assert(requests@.take(requests@.len() as int) =~= requests@);
    }
    Ok(available)
}

/// The core device features that a logical device enables.
#[derive(Debug, Clone, Copy, PartialEq, Eq, Structural)]
pub struct EnabledDeviceFeatures {
    pub geometry_shader: bool,
    pub fill_mode_non_solid: bool,
    pub wide_lines: bool,
    pub sampler_anisotropy: bool,
}

/// The core device features to enable for the available features.
pub fn enabled_device_features(available: &Vec<Feature>) -> (e: EnabledDeviceFeatures)
    ensures
        e.geometry_shader == available@.contains(Feature::GeometryShaders),
        e.fill_mode_non_solid == available@.contains(Feature::WireframeMode),
        e.wide_lines == available@.contains(Feature::WideLines),
        e.sampler_anisotropy == available@.contains(Feature::AnisotropicFiltering),
{
    EnabledDeviceFeatures {
        geometry_shader: crate::renderers::vulkan::queue::contains_feature(
            available,
            Feature::GeometryShaders,
        ),
        fill_mode_non_solid: crate::renderers::vulkan::queue::contains_feature(
            available,
            Feature::WireframeMode,
        ),
        wide_lines: crate::renderers::vulkan::queue::contains_feature(
            available,
            Feature::WideLines,
        ),
        sampler_anisotropy: crate::renderers::vulkan::queue::contains_feature(
            available,
            Feature::AnisotropicFiltering,
        ),
    }
}

/// Lexicographic order of versions: major, then minor, then patch.
pub open spec fn version_le(a: Version, b: Version) -> bool {
    a.major < b.major || (a.major == b.major && (a.minor < b.minor || (a.minor == b.minor
        && a.patch <= b.patch)))
}

/// Whether `version` is `minimum` or later.
pub fn version_at_least(version: Version, minimum: Version) -> (b: bool)
    ensures
        b == version_le(minimum, version),
{
    if version.major != minimum.major {
        version.major > minimum.major
    } else if version.minor != minimum.minor {
        version.minor > minimum.minor
    } else {
        version.patch >= minimum.patch
    }
}

/// Whether the Vulkan 1.2 feature chain (timeline semaphores) is queried and
/// enabled: both the instance and the device use 1.2 or later.
pub fn uses_vulkan_1_2_features(instance_api: Version, device_api: Version) -> (b: bool)
    ensures
        b == (version_le(Version { major: 1, minor: 2, patch: 0 }, instance_api) && version_le(
            Version { major: 1, minor: 2, patch: 0 },
            device_api,
        )),
{
    let v12 = Version::new(1, 2, 0);
    version_at_least(instance_api, v12) && version_at_least(device_api, v12)
}

/// Whether the Vulkan 1.3 feature chain is chained: the instance uses 1.3 or later.
pub fn uses_vulkan_1_3_features(instance_api: Version) -> (b: bool)
    ensures
        b == version_le(Version { major: 1, minor: 3, patch: 0 }, instance_api),
{
    version_at_least(instance_api, Version::new(1, 3, 0))
}

/// A memory heap of a physical device.
#[derive(Debug, Clone, Copy, PartialEq, Eq, Structural)]
pub struct MemoryHeap {
    /// The size of the heap in bytes.
    pub size: u64,
    /// Whether the heap is local to the device.
    pub device_local: bool,
}

/// What the enumeration of a physical device reports.
#[derive(Debug, Clone)]
pub struct PhysicalDeviceInfo {
    /// The device name.
    pub name: String,
    /// The raw `VkPhysicalDeviceType` value.
    pub device_type: i32,
    /// The PCI vendor identifier.
    pub vendor_id: u32,
    /// The device identifier.
    pub device_id: u32,
    /// The packed Vulkan API version the device supports.
    pub api_version: u32,
    /// The vendor-specific driver version.
    pub driver_version: u32,
    /// The memory heaps of the device.
    pub memory_heaps: Vec<MemoryHeap>,
    /// Whether geometry shaders are supported.
    pub geometry_shader: bool,
    /// Whether non-solid fill modes are supported.
    pub fill_mode_non_solid: bool,
    /// Whether wide lines are supported.
    pub wide_lines: bool,
    /// Whether anisotropic sampling is supported.
    pub sampler_anisotropy: bool,
    /// The names of the device extensions.
    pub extension_names: Vec<String>,
    /// The capabilities of each queue family.
    pub queue_families: Vec<QueueFlags>,
}

/// `VkPhysicalDeviceType` values.
pub const PHYSICAL_DEVICE_TYPE_OTHER: i32 = 0;
pub const PHYSICAL_DEVICE_TYPE_INTEGRATED_GPU: i32 = 1;
pub const PHYSICAL_DEVICE_TYPE_DISCRETE_GPU: i32 = 2;
pub const PHYSICAL_DEVICE_TYPE_VIRTUAL_GPU: i32 = 3;
pub const PHYSICAL_DEVICE_TYPE_CPU: i32 = 4;

/// The device type that a raw `VkPhysicalDeviceType` value stands for.
pub open spec fn device_type_of_raw(raw: i32) -> Type {
    if raw == PHYSICAL_DEVICE_TYPE_DISCRETE_GPU {
        Type::DiscreteGpu
    } else if raw == PHYSICAL_DEVICE_TYPE_INTEGRATED_GPU {
        Type::IntegratedGpu
    } else if raw == PHYSICAL_DEVICE_TYPE_VIRTUAL_GPU {
        Type::VirtualGpu
    } else if raw == PHYSICAL_DEVICE_TYPE_CPU {
        Type::Cpu
    } else if raw == PHYSICAL_DEVICE_TYPE_OTHER {
        Type::Other
    } else {
        Type::Invalid
    }
}

/// Maps a raw `VkPhysicalDeviceType` value to a device type.
pub fn device_type_from_raw(raw: i32) -> (t: Type)
    ensures
        t == device_type_of_raw(raw),
{
    if raw == PHYSICAL_DEVICE_TYPE_DISCRETE_GPU {
        Type::DiscreteGpu
    } else if raw == PHYSICAL_DEVICE_TYPE_INTEGRATED_GPU {
        Type::IntegratedGpu
    } else if raw == PHYSICAL_DEVICE_TYPE_VIRTUAL_GPU {
        Type::VirtualGpu
    } else if raw == PHYSICAL_DEVICE_TYPE_CPU {
        Type::Cpu
    } else if raw == PHYSICAL_DEVICE_TYPE_OTHER {
        Type::Other
    } else {
        Type::Invalid
    }
}

/// The total size of the device-local heaps.
pub open spec fn device_local_size(heaps: Seq<MemoryHeap>) -> int
    decreases heaps.len(),
{
    if heaps.len() == 0 {
        0
    } else {
        device_local_size(heaps.drop_last()) + if heaps.last().device_local {
            heaps.last().size as int
        } else {
            0
        }
    }
}

proof fn lemma_device_local_size_monotone(heaps: Seq<MemoryHeap>, i: int)
    requires
        0 <= i <= heaps.len(),
    ensures
        0 <= device_local_size(heaps.take(i)) <= device_local_size(heaps),
    decreases heaps.len(),
{
    if heaps.len() > 0 {
        if i == heaps.len() {
            assert(heaps.take(i) =~= heaps);
            lemma_device_local_size_monotone(heaps.drop_last(), i - 1);
        } else {
            assert(heaps.take(i) =~= heaps.drop_last().take(i));
            lemma_device_local_size_monotone(heaps.drop_last(), i);
        }
    }
}

/// Sums the sizes of the device-local heaps.
pub fn device_vram(heaps: &Vec<MemoryHeap>) -> (vram: u64)
    requires
        device_local_size(heaps@) <= u64::MAX,
    ensures
        vram == device_local_size(heaps@),
{
    let mut vram: u64 = 0;
    let mut i: usize = 0;
    while i < heaps.len()
        invariant
            i <= heaps@.len(),
            device_local_size(heaps@) <= u64::MAX,
            vram == device_local_size(heaps@.take(i as int)),
        decreases heaps@.len() - i,
    {
        proof {
            assert(heaps@.take(i + 1).drop_last() =~= heaps@.take(i as int));
            assert(heaps@.take(i + 1).last() == heaps@[i as int]);
            lemma_device_local_size_monotone(heaps@, i + 1);
        }
        if heaps[i].device_local {
            vram = vram + heaps[i].size;
        }
        i = i + 1;
    }
    proof {
        assert(heaps@.take(heaps@.len() as int) =~= heaps@);
    }
    vram
}

/// The name of the device extension that provides hardware ray tracing.
pub open spec fn ray_tracing_extension() -> Seq<char> {
    "VK_KHR_ray_tracing_pipeline"@
}

/// The features that a physical device reports.
pub open spec fn reported_features(info: PhysicalDeviceInfo) -> Set<Feature> {
    Set::new(
        |f: Feature|
            match f {
                Feature::GeometryShaders => info.geometry_shader,
                Feature::WireframeMode => info.fill_mode_non_solid,
                Feature::WideLines => info.wide_lines,
                Feature::AnisotropicFiltering => info.sampler_anisotropy,
                Feature::RayTracing => exists|i: int|
                    0 <= i < info.extension_names@.len() && info.extension_names@[i]@
                        == ray_tracing_extension(),
                Feature::ComputeShaders => exists|i: int|
                    0 <= i < info.queue_families@.len() && info.queue_families@[i].compute,
                Feature::VideoDecoding => exists|i: int|
                    0 <= i < info.queue_families@.len() && info.queue_families@[i].video_decode,
                Feature::VideoEncoding => exists|i: int|
                    0 <= i < info.queue_families@.len() && info.queue_families@[i].video_encode,
                Feature::OpticalFlow => exists|i: int|
                    0 <= i < info.queue_families@.len() && info.queue_families@[i].optical_flow,
                Feature::AsyncTransfer => exists|i: int|
                    0 <= i < info.queue_families@.len() && info.queue_families@[i].transfer
                        && !info.queue_families@[i].graphics,
            },
    )
}

/// Collects the features that a physical device reports: the core features
/// from its feature flags, ray tracing from its extensions, and compute, video,
/// optical flow and asynchronous transfer from its queue families (a transfer
/// family without graphics counts as asynchronous transfer).
pub fn collect_features(info: &PhysicalDeviceInfo) -> (s: FeatureSet)
    ensures
        s@ == reported_features(*info),
{
    let mut s = FeatureSet::new();
    if info.geometry_shader {
        s.insert(Feature::GeometryShaders);
    }
    if info.fill_mode_non_solid {
        s.insert(Feature::WireframeMode);
    }
    if info.wide_lines {
        s.insert(Feature::WideLines);
    }
    if info.sampler_anisotropy {
        s.insert(Feature::AnisotropicFiltering);
    }
    let ray_tracing = String::from_str("VK_KHR_ray_tracing_pipeline");
    let mut e: usize = 0;
    while e < info.extension_names.len()
        invariant
            e <= info.extension_names@.len(),
            ray_tracing@ == ray_tracing_extension(),
            s@.contains(Feature::RayTracing) <==> exists|i: int|
                0 <= i < e && info.extension_names@[i]@ == ray_tracing_extension(),
            s@.contains(Feature::GeometryShaders) == info.geometry_shader,
            s@.contains(Feature::WireframeMode) == info.fill_mode_non_solid,
            s@.contains(Feature::WideLines) == info.wide_lines,
            s@.contains(Feature::AnisotropicFiltering) == info.sampler_anisotropy,
            !s@.contains(Feature::ComputeShaders),
            !s@.contains(Feature::VideoDecoding),
            !s@.contains(Feature::VideoEncoding),
            !s@.contains(Feature::OpticalFlow),
            !s@.contains(Feature::AsyncTransfer),
        decreases info.extension_names@.len() - e,
    {
        if info.extension_names[e] == ray_tracing {
            s.insert(Feature::RayTracing);
        }
        e = e + 1;
    }
    let mut q: usize = 0;
    while q < info.queue_families.len()
        invariant
            q <= info.queue_families@.len(),
            s@.contains(Feature::RayTracing) <==> exists|i: int|
                0 <= i < info.extension_names@.len() && info.extension_names@[i]@
                    == ray_tracing_extension(),
            s@.contains(Feature::GeometryShaders) == info.geometry_shader,
            s@.contains(Feature::WireframeMode) == info.fill_mode_non_solid,
            s@.contains(Feature::WideLines) == info.wide_lines,
            s@.contains(Feature::AnisotropicFiltering) == info.sampler_anisotropy,
            s@.contains(Feature::ComputeShaders) <==> exists|i: int|
                0 <= i < q && info.queue_families@[i].compute,
            s@.contains(Feature::VideoDecoding) <==> exists|i: int|
                0 <= i < q && info.queue_families@[i].video_decode,
            s@.contains(Feature::VideoEncoding) <==> exists|i: int|
                0 <= i < q && info.queue_families@[i].video_encode,
            s@.contains(Feature::OpticalFlow) <==> exists|i: int|
                0 <= i < q && info.queue_families@[i].optical_flow,
            s@.contains(Feature::AsyncTransfer) <==> exists|i: int|
                0 <= i < q && info.queue_families@[i].transfer
                    && !info.queue_families@[i].graphics,
        decreases info.queue_families@.len() - q,
    {
        let flags = info.queue_families[q];
        if flags.compute {
            s.insert(Feature::ComputeShaders);
        }
        if flags.video_decode {
            s.insert(Feature::VideoDecoding);
        }
        if flags.video_encode {
            s.insert(Feature::VideoEncoding);
        }
        if flags.optical_flow {
            s.insert(Feature::OpticalFlow);
        }
        if flags.transfer && !flags.graphics {
            s.insert(Feature::AsyncTransfer);
        }
        q = q + 1;
    }
    proof {
        assert forall|f: Feature| s@.contains(f) == reported_features(*info).contains(f) by {
            match f {
                Feature::GeometryShaders => {},
                Feature::ComputeShaders => {},
                Feature::WireframeMode => {},
                Feature::WideLines => {},
                Feature::AnisotropicFiltering => {},
                Feature::RayTracing => {},
                Feature::VideoDecoding => {},
                Feature::VideoEncoding => {},
                Feature::OpticalFlow => {},
                Feature::AsyncTransfer => {},
            }
        }
        assert(s@ =~= reported_features(*info));
    }
    s
}

/// Describes a physical device from what its enumeration reports. The driver
/// version is decoded by the vendor's packing.
pub fn describe_device(info: &PhysicalDeviceInfo) -> (d: GraphicsDevice)
    requires
        device_local_size(info.memory_heaps@) <= u64::MAX,
    ensures
        d.name@ == info.name@,
        d.device_type == device_type_of_raw(info.device_type),
        d.vendor_id == info.vendor_id,
        d.device_id == info.device_id,
        d.api_version == unpack_api_version(info.api_version),
        d.driver_version == driver_version_to_version(
            DriverVersion { value: info.driver_version, vendor: vendor_of_id(info.vendor_id) },
        ),
        d.vram == device_local_size(info.memory_heaps@),
        d.supported_features@ == reported_features(*info),
{
    let vendor = GraphicsDevice::vendor_from_id(info.vendor_id);
    GraphicsDevice {
        name: info.name.clone(),
        device_type: device_type_from_raw(info.device_type),
        vendor_id: info.vendor_id,
        device_id: info.device_id,
        api_version: api_version_to_version(info.api_version),
        driver_version: driver_version_to_heph_version(
            DriverVersion::new(info.driver_version, vendor),
        ),
        vram: device_vram(&info.memory_heaps),
        supported_features: collect_features(info),
    }
}

/// The device to use when none is given: the first one found, or an error
/// when there is none.
pub fn first_device(devices: &Vec<GraphicsDevice>) -> (r: RendererResult<&GraphicsDevice>)
    ensures
        r is Ok <==> devices@.len() > 0,
        r matches Ok(d) ==> *d == devices@[0],
        r is Err ==> (r matches Err(RendererError::Fail(m)) && m@ == "No active graphics device found."@),
{
    if devices.len() == 0 {
        Err(RendererError::fail("No active graphics device found."))
    } else {
        Ok(&devices[0])
    }
}

/// Fails when a device offers no queue family to the renderer, which is how
/// a device that is not present shows.
pub fn require_queue_families(family_count: usize) -> (r: RendererResult<()>)
    ensures
        r is Ok <==> family_count > 0,
        r is Err ==> (r matches Err(RendererError::Fail(m)) && m@
            == "Requested device is not available."@),
{
    if family_count == 0 {
        Err(RendererError::fail("Requested device is not available."))
    } else {
        Ok(())
    }
}

/// Each feature is reported exactly when the device shows it: the core
/// features by their feature flags; ray tracing by its extension; compute,
/// video decoding, video encoding and optical flow each by a queue family
/// with that capability; asynchronous transfer by a transfer family without
/// graphics.
pub proof fn lemma_reported_features(info: PhysicalDeviceInfo)
    ensures
        reported_features(info).contains(Feature::GeometryShaders) <==> info.geometry_shader,
        reported_features(info).contains(Feature::WireframeMode) <==> info.fill_mode_non_solid,
        reported_features(info).contains(Feature::WideLines) <==> info.wide_lines,
        reported_features(info).contains(Feature::AnisotropicFiltering) <==> info.sampler_anisotropy,
        reported_features(info).contains(Feature::RayTracing) <==> exists|i: int|
            0 <= i < info.extension_names@.len() && (#[trigger] info.extension_names@[i])@
                == "VK_KHR_ray_tracing_pipeline"@,
        reported_features(info).contains(Feature::ComputeShaders) <==> exists|i: int|
            0 <= i < info.queue_families@.len() && (#[trigger] info.queue_families@[i]).compute,
        reported_features(info).contains(Feature::VideoDecoding) <==> exists|i: int|
            0 <= i < info.queue_families@.len() && (#[trigger] info.queue_families@[i]).video_decode,
        reported_features(info).contains(Feature::VideoEncoding) <==> exists|i: int|
            0 <= i < info.queue_families@.len() && (#[trigger] info.queue_families@[i]).video_encode,
        reported_features(info).contains(Feature::OpticalFlow) <==> exists|i: int|
            0 <= i < info.queue_families@.len() && (#[trigger] info.queue_families@[i]).optical_flow,
        reported_features(info).contains(Feature::AsyncTransfer) <==> exists|i: int|
            0 <= i < info.queue_families@.len() && (#[trigger] info.queue_families@[i]).transfer
                && !info.queue_families@[i].graphics,
{
    reveal_strlit("VK_KHR_ray_tracing_pipeline");
}

} // verus!
