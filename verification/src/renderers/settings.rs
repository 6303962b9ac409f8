use vstd::prelude::*;

use crate::graphics_device::Feature;

verus! {

/// Represents the settings used throughout the lifetime of the renderer.
#[derive(Debug, Clone, Copy)]
pub struct Settings {
    /// The maximum number of frames that can be processed concurrently by the
    /// CPU and GPU.
    pub frames_in_flight: u32,
    /// Indicates whether the vsync is enabled.
    pub vsync: bool,
    /// Indicates whether stereoscopic 3D rendering is enabled.
    pub stereoscopic_3d_rendering: bool,
    /// The size that will be used as fallback when the renderer fails to fetch the target window's
    /// size.
    pub default_size: (u32, u32),
}

/// Represents a request for a specific graphics feature, indicating whether it
/// is strictly required.
#[derive(Debug, Clone, Copy, PartialEq, Eq, Hash, Structural)]
pub struct FeatureRequest {
    /// The feature that is being requested.
    pub feature: Feature,
    /// Indicates whether the graphics device must support the requested
    /// feature.
    pub required: bool,
}

impl Default for Settings {
    fn default() -> (s: Self)
        ensures
            s == (Settings {
                frames_in_flight: 1,
                vsync: false,
                stereoscopic_3d_rendering: false,
                default_size: (1920, 1080),
            }),
    {
        Self {
            frames_in_flight: 1,
            vsync: false,
            stereoscopic_3d_rendering: false,
            default_size: (1920, 1080),
        }
    }
}

} // verus!
