use vstd::prelude::*;

use crate::Version;

verus! {

/// Defines the supported GPU types.
#[derive(Debug, PartialEq, Eq, Clone, Copy, Structural)]
pub enum Type {
    /// A dedicated graphics card.
    DiscreteGpu,
    /// A graphics processor integrated to the CPU.
    IntegratedGpu,
    /// A virtualized graphics device.
    VirtualGpu,
    /// A software-based rendering implementation running on the CPU.
    Cpu,
    /// A hardware device that does not cleanly fit into any of the standard
    /// categories.
    Other,
    /// An unrecognized GPU type.
    Invalid,
}

/// Defines the GPU vendors.
#[derive(Debug, PartialEq, Eq, Clone, Copy, Structural)]
pub enum Vendor {
    Nvidia,
    Amd,
    Intel,
    Qualcomm,
    Arm,
    Apple,
    Microsoft,
    Other,
}

/// Defines the features a graphics device may support.
#[derive(Debug, Clone, Copy, PartialEq, Eq, Hash, Structural)]
pub enum Feature {
    /// The device has dedicated geometry shader(s).
    GeometryShaders,
    /// The device has shader(s) dedicated to general computing.
    ComputeShaders,
    /// The device supports rendering polygons as wireframes.
    WireframeMode,
    /// The device supports drawing lines wider than a single pixel.
    WideLines,
    /// The device supports anisotropic texture filtering.
    AnisotropicFiltering,
    /// The device features hardware-accelerated ray tracing
    RayTracing,
    /// The device supports hardware-accelerated video decoding.
    VideoDecoding,
    /// The device supports hardware-accelerated video encoding.
    VideoEncoding,
    /// The device features dedicated hardware for optical flow calculations.
    OpticalFlow,
    /// The device supports asynchronous data transfers.
    AsyncTransfer,
}

/// The PCI vendor identifier registered for a vendor (`0` for `Other`).
pub open spec fn vendor_id_of(vendor: Vendor) -> u32 {
    match vendor {
        Vendor::Nvidia => 0x10DE,
        Vendor::Amd => 0x1002,
        Vendor::Intel => 0x8086,
        Vendor::Qualcomm => 0x5143,
        Vendor::Arm => 0x13B5,
        Vendor::Apple => 0x106B,
        Vendor::Microsoft => 0x1414,
        Vendor::Other => 0,
    }
}

/// The vendor that a PCI vendor identifier stands for.
pub open spec fn vendor_of_id(vendor_id: u32) -> Vendor {
    if vendor_id == 0x10DE {
        Vendor::Nvidia
    } else if vendor_id == 0x1002 {
        Vendor::Amd
    } else if vendor_id == 0x8086 {
        Vendor::Intel
    } else if vendor_id == 0x5143 {
        Vendor::Qualcomm
    } else if vendor_id == 0x13B5 {
        Vendor::Arm
    } else if vendor_id == 0x106B {
        Vendor::Apple
    } else if vendor_id == 0x1414 {
        Vendor::Microsoft
    } else {
        Vendor::Other
    }
}

/// Position of a feature in the declaration order of `Feature`.
pub open spec fn feature_index(feature: Feature) -> u16 {
    match feature {
        Feature::GeometryShaders => 0,
        Feature::ComputeShaders => 1,
        Feature::WireframeMode => 2,
        Feature::WideLines => 3,
        Feature::AnisotropicFiltering => 4,
        Feature::RayTracing => 5,
        Feature::VideoDecoding => 6,
        Feature::VideoEncoding => 7,
        Feature::OpticalFlow => 8,
        Feature::AsyncTransfer => 9,
    }
}

/// The feature at a position of the declaration order of `Feature`.
pub open spec fn feature_at(index: int) -> Feature {
    if index == 0 {
        Feature::GeometryShaders
    } else if index == 1 {
        Feature::ComputeShaders
    } else if index == 2 {
        Feature::WireframeMode
    } else if index == 3 {
        Feature::WideLines
    } else if index == 4 {
        Feature::AnisotropicFiltering
    } else if index == 5 {
        Feature::RayTracing
    } else if index == 6 {
        Feature::VideoDecoding
    } else if index == 7 {
        Feature::VideoEncoding
    } else if index == 8 {
        Feature::OpticalFlow
    } else {
        Feature::AsyncTransfer
    }
}

/// The number of variants of `Feature`.
pub const FEATURE_COUNT: u16 = 10;

impl Feature {
    fn index(self) -> (i: u16)
        ensures
            i == feature_index(self),
    {
        match self {
            Feature::GeometryShaders => 0,
            Feature::ComputeShaders => 1,
            Feature::WireframeMode => 2,
            Feature::WideLines => 3,
            Feature::AnisotropicFiltering => 4,
            Feature::RayTracing => 5,
            Feature::VideoDecoding => 6,
            Feature::VideoEncoding => 7,
            Feature::OpticalFlow => 8,
            Feature::AsyncTransfer => 9,
        }
    }

    fn from_index(i: u16) -> (f: Feature)
        requires
            i < FEATURE_COUNT,
        ensures
            f == feature_at(i as int),
            feature_index(f) == i,
    {
        if i == 0 {
            Feature::GeometryShaders
        } else if i == 1 {
            Feature::ComputeShaders
        } else if i == 2 {
            Feature::WireframeMode
        } else if i == 3 {
            Feature::WideLines
        } else if i == 4 {
            Feature::AnisotropicFiltering
        } else if i == 5 {
            Feature::RayTracing
        } else if i == 6 {
            Feature::VideoDecoding
        } else if i == 7 {
            Feature::VideoEncoding
        } else if i == 8 {
            Feature::OpticalFlow
        } else {
            Feature::AsyncTransfer
        }
    }
}

/// Whether bit `i` of `bits` is set.
pub open spec fn bit_set(bits: u16, i: u16) -> bool {
    bits & (1u16 << i) != 0
}

proof fn lemma_bit_or(x: u16, i: u16, j: u16)
    requires
        i < 16,
        j < 16,
    ensures
        bit_set(x | (1u16 << i), j) <==> (bit_set(x, j) || i == j),
{
    assert(((x | (1u16 << i)) & (1u16 << j) != 0) <==> ((x & (1u16 << j) != 0) || i == j))
        by (bit_vector)
        requires
            i < 16,
            j < 16,
    ;
}

proof fn lemma_bit_clear(x: u16, i: u16, j: u16)
    requires
        i < 16,
        j < 16,
    ensures
        bit_set(x & !(1u16 << i), j) <==> (bit_set(x, j) && i != j),
{
    assert(((x & !(1u16 << i)) & (1u16 << j) != 0) <==> ((x & (1u16 << j) != 0) && i != j))
        by (bit_vector)
        requires
            i < 16,
            j < 16,
    ;
}

proof fn lemma_low_bits(x: u16)
    requires
        x < 1024,
    ensures
        x == 0 <==> (forall|j: u16| j < 10 ==> !bit_set(x, j)),
{
    if x != 0 {
        assert(x != 0 && x < 1024 ==> (x & (1u16 << 0u16) != 0 || x & (1u16 << 1u16) != 0 || x & (
        1u16 << 2u16) != 0 || x & (1u16 << 3u16) != 0 || x & (1u16 << 4u16) != 0 || x & (1u16
            << 5u16) != 0 || x & (1u16 << 6u16) != 0 || x & (1u16 << 7u16) != 0 || x & (1u16
            << 8u16) != 0 || x & (1u16 << 9u16) != 0)) by (bit_vector);
        if bit_set(x, 0) {
        } else if bit_set(x, 1) {
        } else if bit_set(x, 2) {
        } else if bit_set(x, 3) {
        } else if bit_set(x, 4) {
        } else if bit_set(x, 5) {
        } else if bit_set(x, 6) {
        } else if bit_set(x, 7) {
        } else if bit_set(x, 8) {
        } else {
            assert(bit_set(x, 9));
        }
    } else {
        lemma_zero_bits();
    }
}

proof fn lemma_zero_bits()
    ensures
        forall|j: u16| j < 16 ==> !bit_set(0u16, j),
{
    assert(forall|j: u16| j < 16 ==> #[trigger] (0u16 & (1u16 << j)) == 0) by (bit_vector);
}

/// A set of device features.
#[derive(Debug, Clone, Copy, PartialEq, Eq, Default)]
pub struct FeatureSet {
    bits: u16,
}

impl View for FeatureSet {
    type V = Set<Feature>;

    closed spec fn view(&self) -> Set<Feature> {
        Set::new(|f: Feature| bit_set(self.bits, feature_index(f)))
    }
}

impl FeatureSet {
    #[verifier::type_invariant]
    closed spec fn inv(self) -> bool {
        self.bits < 1024
    }

    /// Creates an empty set.
    pub fn new() -> (s: Self)
        ensures
            s@ == Set::<Feature>::empty(),
    {
        proof {
            lemma_zero_bits();
        }
        let s = FeatureSet { bits: 0 };
        assert(s@ =~= Set::<Feature>::empty());
        s
    }

    /// Adds a feature. Returns whether it was absent before.
    pub fn insert(&mut self, feature: Feature) -> (added: bool)
        ensures
            final(self)@ == old(self)@.insert(feature),
            added == !old(self)@.contains(feature),
    {
        proof {
            use_type_invariant(&*self);
        }
        let i = feature.index();
        let old_bits = self.bits;
        let added = old_bits & (1u16 << i) == 0;
        let new_bits = old_bits | (1u16 << i);
        assert(new_bits < 1024) by (bit_vector)
            requires
                new_bits == old_bits | (1u16 << i),
                old_bits < 1024,
                i < 10,
        ;
        proof {
            assert forall|f: Feature| bit_set(new_bits, feature_index(f)) <==> (bit_set(
                self.bits,
                feature_index(f),
            ) || f == feature) by {
                lemma_bit_or(self.bits, i, feature_index(f));
            }
        }
        let ghost before = self@;
        self.bits = new_bits;
        assert(self@ =~= before.insert(feature));
        added
    }

    /// Removes a feature. Returns whether it was present before.
    pub fn remove(&mut self, feature: Feature) -> (removed: bool)
        ensures
            final(self)@ == old(self)@.remove(feature),
            removed == old(self)@.contains(feature),
    {
        proof {
            use_type_invariant(&*self);
        }
        let i = feature.index();
        let old_bits = self.bits;
        let removed = old_bits & (1u16 << i) != 0;
        let new_bits = old_bits & !(1u16 << i);
        assert(new_bits < 1024) by (bit_vector)
            requires
                new_bits == old_bits & !(1u16 << i),
                old_bits < 1024,
        ;
        proof {
            assert forall|f: Feature| bit_set(new_bits, feature_index(f)) <==> (bit_set(
                self.bits,
                feature_index(f),
            ) && f != feature) by {
                lemma_bit_clear(self.bits, i, feature_index(f));
            }
        }
        let ghost before = self@;
        self.bits = new_bits;
        assert(self@ =~= before.remove(feature));
        removed
    }

    /// Whether the set holds the feature.
    pub fn contains(&self, feature: &Feature) -> (b: bool)
        ensures
            b == self@.contains(*feature),
    {
        self.bits & (1u16 << feature.index()) != 0
    }

    /// Whether the set holds no feature.
    pub fn is_empty(&self) -> (b: bool)
        ensures
            b == (self@ == Set::<Feature>::empty()),
    {
        proof {
            use_type_invariant(self);
            lemma_low_bits(self.bits);
            if self.bits != 0 {
                let j = choose|j: u16| j < 10 && bit_set(self.bits, j);
                assert(feature_index(feature_at(j as int)) == j);
                assert(self@.contains(feature_at(j as int)));
            } else {
                assert(self@ =~= Set::<Feature>::empty());
            }
        }
        self.bits == 0
    }

    /// The features of the set, in the declaration order of `Feature`.
    pub fn to_vec(&self) -> (v: Vec<Feature>)
        ensures
            v@ == features_upto(self@, FEATURE_COUNT as int),
    {
        let mut v: Vec<Feature> = Vec::new();
        let mut i: u16 = 0;
        while i < FEATURE_COUNT
            invariant
                i <= FEATURE_COUNT,
                v@ == features_upto(self@, i as int),
            decreases FEATURE_COUNT - i,
        {
            let f = Feature::from_index(i);
            if self.bits & (1u16 << i) != 0 {
                v.push(f);
            }
            i = i + 1;
        }
        v
    }
}

/// The features of `s` among the first `k` in declaration order, in that order.
pub open spec fn features_upto(s: Set<Feature>, k: int) -> Seq<Feature>
    decreases k,
{
    if k <= 0 {
        Seq::empty()
    } else if s.contains(feature_at(k - 1)) {
        features_upto(s, k - 1).push(feature_at(k - 1))
    } else {
        features_upto(s, k - 1)
    }
}

/// Represents a graphics device.
#[derive(Debug, PartialEq, Clone)]
pub struct GraphicsDevice {
    /// The name of the graphics device.
    pub name: String,
    /// The type of the graphics device.
    pub device_type: Type,
    /// The unique identifier for the hardware vendor.
    pub vendor_id: u32,
    /// The unique identifier for the specific device model.
    pub device_id: u32,
    /// The version of the supported graphics API.
    pub api_version: Version,
    /// The version of the installed graphics driver.
    pub driver_version: Version,
    /// The total amount of dedicated VRAM in bytes.
    pub vram: u64,
    /// The set of features supported by this device.
    pub supported_features: FeatureSet,
}

impl GraphicsDevice {
    /// Gets the vendor of the device.
    pub fn vendor(&self) -> (v: Vendor)
        ensures
            v == vendor_of_id(self.vendor_id),
    {
        GraphicsDevice::vendor_from_id(self.vendor_id)
    }

    /// Sets the `vendor_id` of the device.
    pub fn set_vendor(&mut self, vendor: Vendor)
        ensures
            final(self).vendor_id == vendor_id_of(vendor),
            final(self).name == old(self).name,
            final(self).device_type == old(self).device_type,
            final(self).device_id == old(self).device_id,
            final(self).api_version == old(self).api_version,
            final(self).driver_version == old(self).driver_version,
            final(self).vram == old(self).vram,
            final(self).supported_features == old(self).supported_features,
    {
        self.vendor_id = match vendor {
            Vendor::Nvidia => 0x10DE,
            Vendor::Amd => 0x1002,
            Vendor::Intel => 0x8086,
            Vendor::Qualcomm => 0x5143,
            Vendor::Arm => 0x13B5,
            Vendor::Apple => 0x106B,
            Vendor::Microsoft => 0x1414,
            Vendor::Other => 0,
        }
    }

    /// Gets the vendor from vendor id.
    pub fn vendor_from_id(vendor_id: u32) -> (v: Vendor)
        ensures
            v == vendor_of_id(vendor_id),
    {
        match vendor_id {
            0x10DE => Vendor::Nvidia,
            0x1002 => Vendor::Amd,
            0x8086 => Vendor::Intel,
            0x5143 => Vendor::Qualcomm,
            0x13B5 => Vendor::Arm,
            0x106B => Vendor::Apple,
            0x1414 => Vendor::Microsoft,
            _ => Vendor::Other,
        }
    }
}

/// The display name of a device type.
pub open spec fn type_text(t: Type) -> Seq<char> {
    match t {
        Type::DiscreteGpu => "Discrete GPU"@,
        Type::IntegratedGpu => "Integrated GPU"@,
        Type::VirtualGpu => "Virtual GPU"@,
        Type::Cpu => "CPU"@,
        Type::Other => "Other"@,
        Type::Invalid => "Invalid graphics device type."@,
    }
}

/// The display name of a vendor.
pub open spec fn vendor_text(v: Vendor) -> Seq<char> {
    match v {
        Vendor::Nvidia => "NVIDIA"@,
        Vendor::Amd => "AMD"@,
        Vendor::Intel => "Intel"@,
        Vendor::Qualcomm => "Qualcomm"@,
        Vendor::Arm => "ARM"@,
        Vendor::Apple => "Apple"@,
        Vendor::Microsoft => "Microsoft"@,
        Vendor::Other => "Other"@,
    }
}

/// The display name of a feature.
pub open spec fn feature_text(f: Feature) -> Seq<char> {
    match f {
        Feature::GeometryShaders => "Geometry Shaders"@,
        Feature::ComputeShaders => "Compute Shaders"@,
        Feature::WireframeMode => "Wireframe Mode"@,
        Feature::WideLines => "Wide Lines"@,
        Feature::AnisotropicFiltering => "Anisotropic Filtering"@,
        Feature::RayTracing => "Ray Tracing"@,
        Feature::VideoDecoding => "Video Decoding"@,
        Feature::VideoEncoding => "Video Encoding"@,
        Feature::OpticalFlow => "Optical Flow"@,
        Feature::AsyncTransfer => "Async Transfer"@,
    }
}

/// The variant name of a feature, as its debug text.
pub open spec fn feature_debug_text(f: Feature) -> Seq<char> {
    match f {
        Feature::GeometryShaders => "GeometryShaders"@,
        Feature::ComputeShaders => "ComputeShaders"@,
        Feature::WireframeMode => "WireframeMode"@,
        Feature::WideLines => "WideLines"@,
        Feature::AnisotropicFiltering => "AnisotropicFiltering"@,
        Feature::RayTracing => "RayTracing"@,
        Feature::VideoDecoding => "VideoDecoding"@,
        Feature::VideoEncoding => "VideoEncoding"@,
        Feature::OpticalFlow => "OpticalFlow"@,
        Feature::AsyncTransfer => "AsyncTransfer"@,
    }
}

impl Type {
    /// The display name of the device type.
    pub fn to_string(&self) -> (s: String)
        ensures
            s@ == type_text(*self),
    {
        String::from_str(
            match self {
                Type::DiscreteGpu => "Discrete GPU",
                Type::IntegratedGpu => "Integrated GPU",
                Type::VirtualGpu => "Virtual GPU",
                Type::Cpu => "CPU",
                Type::Other => "Other",
                Type::Invalid => "Invalid graphics device type.",
            },
        )
    }
}

impl Vendor {
    /// The display name of the vendor.
    pub fn to_string(&self) -> (s: String)
        ensures
            s@ == vendor_text(*self),
    {
        String::from_str(
            match self {
                Vendor::Nvidia => "NVIDIA",
                Vendor::Amd => "AMD",
                Vendor::Intel => "Intel",
                Vendor::Qualcomm => "Qualcomm",
                Vendor::Arm => "ARM",
                Vendor::Apple => "Apple",
                Vendor::Microsoft => "Microsoft",
                Vendor::Other => "Other",
            },
        )
    }
}

impl Feature {
    /// The display name of the feature.
    pub fn to_string(&self) -> (s: String)
        ensures
            s@ == feature_text(*self),
    {
        String::from_str(self.text())
    }

    fn text(&self) -> (s: &'static str)
        ensures
            s@ == feature_text(*self),
    {
        match self {
            Feature::GeometryShaders => "Geometry Shaders",
            Feature::ComputeShaders => "Compute Shaders",
            Feature::WireframeMode => "Wireframe Mode",
            Feature::WideLines => "Wide Lines",
            Feature::AnisotropicFiltering => "Anisotropic Filtering",
            Feature::RayTracing => "Ray Tracing",
            Feature::VideoDecoding => "Video Decoding",
            Feature::VideoEncoding => "Video Encoding",
            Feature::OpticalFlow => "Optical Flow",
            Feature::AsyncTransfer => "Async Transfer",
        }
    }

    /// The variant name of the feature.
    pub fn debug_name(&self) -> (s: &'static str)
        ensures
            s@ == feature_debug_text(*self),
    {
        match self {
            Feature::GeometryShaders => "GeometryShaders",
            Feature::ComputeShaders => "ComputeShaders",
            Feature::WireframeMode => "WireframeMode",
            Feature::WideLines => "WideLines",
            Feature::AnisotropicFiltering => "AnisotropicFiltering",
            Feature::RayTracing => "RayTracing",
            Feature::VideoDecoding => "VideoDecoding",
            Feature::VideoEncoding => "VideoEncoding",
            Feature::OpticalFlow => "OpticalFlow",
            Feature::AsyncTransfer => "AsyncTransfer",
        }
    }
}

/// One gibibyte.
pub const GIB: u64 = 0x4000_0000;

/// The spacing of 64-bit floats around `v` (`v >= 0`): starting from `unit`, doubled while
/// `v` needs more than 53 significant bits at that spacing, at most `steps` times.
pub open spec fn float_spacing(v: int, unit: int, steps: nat) -> int
    decreases steps,
{
    if steps == 0 || v < 0x20_0000_0000_0000 * unit {
        unit
    } else {
        float_spacing(v, 2 * unit, (steps - 1) as nat)
    }
}

/// Two to the power `k`.
pub open spec fn power_of_two(k: nat) -> int
    decreases k,
{
    if k == 0 {
        1
    } else {
        2 * power_of_two((k - 1) as nat)
    }
}

proof fn lemma_power_of_two_positive(k: nat)
    ensures
        power_of_two(k) >= 1,
    decreases k,
{
    if k > 0 {
        lemma_power_of_two_positive((k - 1) as nat);
    }
}

/// The 64-bit float nearest to an unsigned 64-bit integer `v`, ties to an
/// even significand: `v` itself below 2^53, else `v` rounded to a multiple of
/// the float spacing there.
pub open spec fn nearest_f64(v: int) -> int {
    let unit = float_spacing(v, 1, 11);
    let q = v / unit;
    let r = v % unit;
    if 2 * r > unit || (2 * r == unit && q % 2 == 1) {
        (q + 1) * unit
    } else {
        q * unit
    }
}

/// VRAM in whole gibibytes: the byte count taken as a 64-bit float, divided
/// by 2^30 and rounded to the nearest whole number, halves away from zero.
pub open spec fn vram_gib(vram: u64) -> int {
    let x = nearest_f64(vram as int);
    x / GIB as int + if 2 * (x % GIB as int) >= GIB as int {
        1int
    } else {
        0int
    }
}

/// Computes `vram_gib`.
pub fn vram_gib_of(vram: u64) -> (g: u64)
    ensures
        g == vram_gib(vram),
{
    let v: u128 = vram as u128;
    let mut unit: u128 = 1;
    let mut steps: u64 = 11;
    proof {
        reveal_with_fuel(power_of_two, 12);
    }
    while steps > 0 && v >= 0x20_0000_0000_0000u128 * unit
        invariant
            steps <= 11,
            1 <= unit <= 2048,
            unit * power_of_two(steps as nat) == 2048,
            float_spacing(v as int, unit as int, steps as nat) == float_spacing(v as int, 1, 11),
        decreases steps,
    {
        proof {
            let p = power_of_two((steps - 1) as nat);
            lemma_power_of_two_positive((steps - 1) as nat);
            assert(2 * unit * p == 2048) by (nonlinear_arith)
                requires
                    unit * (2 * p) == 2048,
            ;
            assert(2 * unit <= 2048) by (nonlinear_arith)
                requires
                    2 * unit * p == 2048,
                    p >= 1,
            ;
        }
        unit = unit * 2;
        steps = steps - 1;
    }
    let q: u128 = v / unit;
    let r: u128 = v % unit;
    proof {
        assert(q * unit <= v && q <= v) by (nonlinear_arith)
            requires
                q == v / unit,
                unit >= 1,
        ;
    }
    proof {
        assert((q + 1) * unit <= v + unit && (q + 1) * unit <= 0x1_0000_0000_0000_0000 + 2048)
            by (nonlinear_arith)
            requires
                q * unit <= v,
                v <= 0xFFFF_FFFF_FFFF_FFFF,
                unit <= 2048,
        ;
    }
    let x: u128 = if 2 * r > unit || (2 * r == unit && q % 2 == 1) {
        (q + 1) * unit
    } else {
        q * unit
    };
    let gib: u128 = x / (GIB as u128) + if 2 * (x % (GIB as u128)) >= GIB as u128 {
        1
    } else {
        0
    };
    gib as u64
}

/// The lines listing features, each `     - {name}`.
pub open spec fn feature_lines(fs: Seq<Feature>) -> Seq<char>
    decreases fs.len(),
{
    if fs.len() == 0 {
        Seq::empty()
    } else {
        feature_lines(fs.drop_last()) + "     - "@ + feature_text(fs.last()) + seq!['\n']
    }
}

/// The multi-line description of a device.
pub open spec fn device_text(d: GraphicsDevice) -> Seq<char> {
    "Graphics Device:\n"@ + "    Name:               "@ + d.name@ + seq!['\n']
        + "    Type:               "@ + type_text(d.device_type) + seq!['\n']
        + "    Vendor:             "@ + vendor_text(vendor_of_id(d.vendor_id)) + seq!['\n']
        + "    Vendor ID:          0x"@ + crate::text::hex_padded(d.vendor_id as nat, 4) + seq!['\n']
        + "    Device ID:          0x"@ + crate::text::hex_padded(d.device_id as nat, 4) + seq!['\n']
        + "    API Version:        "@ + crate::version_text(d.api_version) + seq!['\n']
        + "    Driver Version:     "@ + crate::version_text(d.driver_version) + seq!['\n']
        + "    VRAM:           "@ + crate::text::decimal(vram_gib(d.vram) as nat) + " GB"@ + seq!['\n']
        + if d.supported_features@ == Set::<Feature>::empty() {
            Seq::empty()
        } else {
            "    Supported Features:"@ + seq!['\n'] + feature_lines(
                features_upto(d.supported_features@, FEATURE_COUNT as int),
            )
        }
}

impl GraphicsDevice {
    /// Describes the device over several lines: name, type, vendor and its
    /// identifier, device identifier, versions, VRAM in whole gibibytes, and
    /// the supported features, if any, in declaration order.
    pub fn to_string(&self) -> (s: String)
        ensures
            s@ == device_text(*self),
    {
        proof {
            reveal_strlit("Graphics Device:\n");
            reveal_strlit("    Name:               ");
            reveal_strlit("    Type:               ");
            reveal_strlit("    Vendor:             ");
            reveal_strlit("    Vendor ID:          0x");
            reveal_strlit("    Device ID:          0x");
            reveal_strlit("    API Version:        ");
            reveal_strlit("    Driver Version:     ");
            reveal_strlit("    VRAM:           ");
            reveal_strlit(" GB");
            reveal_strlit("    Supported Features:");
            reveal_strlit("     - ");
            reveal_strlit("\n");
        }
        let mut s = String::from_str("Graphics Device:\n");
        crate::text::push_str(&mut s, "    Name:               ");
        crate::text::push_str(&mut s, self.name.as_str());
        crate::text::push_str(&mut s, "\n");
        crate::text::push_str(&mut s, "    Type:               ");
        let t = self.device_type.to_string();
        crate::text::push_str(&mut s, t.as_str());
        crate::text::push_str(&mut s, "\n");
        crate::text::push_str(&mut s, "    Vendor:             ");
        let v = self.vendor().to_string();
        crate::text::push_str(&mut s, v.as_str());
        crate::text::push_str(&mut s, "\n");
        crate::text::push_str(&mut s, "    Vendor ID:          0x");
        crate::text::push_hex_padded(&mut s, self.vendor_id as u64, 4);
        crate::text::push_str(&mut s, "\n");
        crate::text::push_str(&mut s, "    Device ID:          0x");
        crate::text::push_hex_padded(&mut s, self.device_id as u64, 4);
        crate::text::push_str(&mut s, "\n");
        crate::text::push_str(&mut s, "    API Version:        ");
        let a = self.api_version.to_string();
        crate::text::push_str(&mut s, a.as_str());
        crate::text::push_str(&mut s, "\n");
        crate::text::push_str(&mut s, "    Driver Version:     ");
        let d = self.driver_version.to_string();
        crate::text::push_str(&mut s, d.as_str());
        crate::text::push_str(&mut s, "\n");
        crate::text::push_str(&mut s, "    VRAM:           ");
        let gib = vram_gib_of(self.vram);
        crate::text::push_decimal(&mut s, gib);
        crate::text::push_str(&mut s, " GB");
        crate::text::push_str(&mut s, "\n");
        let ghost head = s@;
        if !self.supported_features.is_empty() {
            crate::text::push_str(&mut s, "    Supported Features:");
            crate::text::push_str(&mut s, "\n");
            let ghost before = s@;
            let features = self.supported_features.to_vec();
            let mut i: usize = 0;
            while i < features.len()
                invariant
                    i <= features@.len(),
                    s@ == before + feature_lines(features@.take(i as int)),
                decreases features@.len() - i,
            {
                proof {
                    reveal_strlit("\n");
                    assert(features@.take(i + 1).drop_last() =~= features@.take(i as int));
                    assert(features@.take(i + 1).last() == features@[i as int]);
                }
                crate::text::push_str(&mut s, "     - ");
                crate::text::push_str(&mut s, features[i].text());
                crate::text::push_str(&mut s, "\n");
                i = i + 1;
                assert(s@ =~= before + feature_lines(features@.take(i as int)));
            }
            assert(features@.take(features@.len() as int) =~= features@);
        }
        assert(s@ =~= device_text(*self));
        s
    }
}

/// Setting a vendor and reading it back gives that vendor: the identifier
/// that `set_vendor` stores maps back to it under `vendor_from_id`.
pub proof fn lemma_vendor_round_trip(vendor: Vendor)
    ensures
        vendor_of_id(vendor_id_of(vendor)) == vendor,
{
}

/// Each vendor stands for its registered PCI vendor identifier, both ways:
/// NVIDIA 0x10DE, AMD 0x1002, Intel 0x8086, Qualcomm 0x5143, ARM 0x13B5,
/// Apple 0x106B, Microsoft 0x1414; any other identifier is another vendor.
pub proof fn lemma_vendor_pci_ids(vendor_id: u32)
    ensures
        vendor_id_of(Vendor::Nvidia) == 0x10DE,
        vendor_id_of(Vendor::Amd) == 0x1002,
        vendor_id_of(Vendor::Intel) == 0x8086,
        vendor_id_of(Vendor::Qualcomm) == 0x5143,
        vendor_id_of(Vendor::Arm) == 0x13B5,
        vendor_id_of(Vendor::Apple) == 0x106B,
        vendor_id_of(Vendor::Microsoft) == 0x1414,
        vendor_id == 0x10DE <==> vendor_of_id(vendor_id) == Vendor::Nvidia,
        vendor_id == 0x1002 <==> vendor_of_id(vendor_id) == Vendor::Amd,
        vendor_id == 0x8086 <==> vendor_of_id(vendor_id) == Vendor::Intel,
        vendor_id == 0x5143 <==> vendor_of_id(vendor_id) == Vendor::Qualcomm,
        vendor_id == 0x13B5 <==> vendor_of_id(vendor_id) == Vendor::Arm,
        vendor_id == 0x106B <==> vendor_of_id(vendor_id) == Vendor::Apple,
        vendor_id == 0x1414 <==> vendor_of_id(vendor_id) == Vendor::Microsoft,
        vendor_text(vendor_of_id(0x1002)) == "AMD"@,
{
    reveal_strlit("AMD");
}

} // verus!
