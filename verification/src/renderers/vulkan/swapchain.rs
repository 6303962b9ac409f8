use vstd::prelude::*;

use crate::renderers::{RendererError, RendererResult, Settings};

verus! {

/// A width and a height.
#[derive(Debug, Clone, Copy, PartialEq, Eq, Structural)]
pub struct Extent {
    pub width: u32,
    pub height: u32,
}

/// What the surface reports of the swapchains it supports.
#[derive(Debug, Clone, Copy, PartialEq, Eq, Structural)]
pub struct SurfaceCapabilities {
    /// The current size of the surface; a width of `u32::MAX` means the
    /// swapchain decides it.
    pub current_extent: Extent,
    pub min_image_extent: Extent,
    pub max_image_extent: Extent,
    pub min_image_count: u32,
    /// `0` means there is no limit for the number of images.
    pub max_image_count: u32,
    pub max_image_array_layers: u32,
}

/// The presentation modes the renderer uses.
#[derive(Debug, Clone, Copy, PartialEq, Eq, Structural)]
pub enum PresentMode {
    Immediate,
    Fifo,
}

/// The parameters a swapchain is created with.
#[derive(Debug, Clone, Copy, PartialEq, Eq, Structural)]
pub struct SwapchainParameters {
    /// The size of the images.
    pub extent: Extent,
    /// The minimum number of images.
    pub image_count: u32,
    /// The number of array layers of each image.
    pub array_layers: u32,
    /// Whether the image views are 2D arrays (else 2D).
    pub array_view: bool,
    /// The presentation mode.
    pub present_mode: PresentMode,
}

/// `value` clamped into `[min, max]`.
pub open spec fn clamp_spec(value: u32, min: u32, max: u32) -> u32 {
    if value < min {
        min
    } else if value > max {
        max
    } else {
        value
    }
}

/// Clamps `value` into `[min, max]` (`Ord::clamp`, which panics when `min > max`).
pub fn clamp(value: u32, min: u32, max: u32) -> (r: u32)
    requires
        min <= max,
    ensures
        r == clamp_spec(value, min, max),
{
    if value < min {
        min
    } else if value > max {
        max
    } else {
        value
    }
}

/// Whether the capabilities can be used with the settings without an invalid range.
pub open spec fn capabilities_consistent(caps: SurfaceCapabilities) -> bool {
    &&& caps.current_extent.width == u32::MAX ==> caps.min_image_extent.width
        <= caps.max_image_extent.width && caps.min_image_extent.height
        <= caps.max_image_extent.height
    &&& caps.max_image_count != 0 ==> caps.min_image_count <= caps.max_image_count
}

/// The swapchain extent: the surface's current extent, or the default size
/// clamped into the supported range when the surface leaves it open.
pub open spec fn chosen_extent(caps: SurfaceCapabilities, settings: Settings) -> Extent {
    if caps.current_extent.width == u32::MAX {
        Extent {
            width: clamp_spec(
                settings.default_size.0,
                caps.min_image_extent.width,
                caps.max_image_extent.width,
            ),
            height: clamp_spec(
                settings.default_size.1,
                caps.min_image_extent.height,
                caps.max_image_extent.height,
            ),
        }
    } else {
        caps.current_extent
    }
}

/// The number of images: the frames in flight, at least the surface's minimum
/// and at most its maximum where it has one.
pub open spec fn chosen_image_count(caps: SurfaceCapabilities, settings: Settings) -> u32 {
    if caps.max_image_count == 0 {
        if settings.frames_in_flight >= caps.min_image_count {
            settings.frames_in_flight
        } else {
            caps.min_image_count
        }
    } else {
        clamp_spec(settings.frames_in_flight, caps.min_image_count, caps.max_image_count)
    }
}

/// Chooses the swapchain parameters for a surface. Fails when the surface
/// supports neither FIFO nor immediate presentation. With `vsync` set, FIFO
/// presentation is chosen, which waits for the vertical blank; without it,
/// immediate presentation where the surface supports it, FIFO otherwise.
/// Stereoscopic rendering uses two array layers where the surface allows them.
pub fn choose_swapchain_parameters(
    caps: SurfaceCapabilities,
    supports_fifo: bool,
    supports_immediate: bool,
    settings: &Settings,
) -> (r: RendererResult<SwapchainParameters>)
    requires
        supports_fifo || supports_immediate ==> capabilities_consistent(caps),
    ensures
        r is Err <==> !supports_fifo && !supports_immediate,
        r is Err ==> (r matches Err(RendererError::Fail(m)) && m@
            == "Current device does not support rendering to the target window."@),
        r matches Ok(p) ==> {
            &&& p.extent == chosen_extent(caps, *settings)
            &&& p.image_count == chosen_image_count(caps, *settings)
            &&& p.array_layers == if settings.stereoscopic_3d_rendering {
                if caps.max_image_array_layers < 2 {
                    caps.max_image_array_layers
                } else {
                    2
                }
            } else {
                1
            }
            &&& p.array_view == settings.stereoscopic_3d_rendering
            &&& p.present_mode == if !settings.vsync && supports_immediate {
                PresentMode::Immediate
            } else {
                PresentMode::Fifo
            }
        },
{
    if !supports_fifo && !supports_immediate {
        return Err(
            RendererError::fail("Current device does not support rendering to the target window."),
        );
    }
    let extent = if caps.current_extent.width == u32::MAX {
        Extent {
            width: clamp(
                settings.default_size.0,
                caps.min_image_extent.width,
                caps.max_image_extent.width,
            ),
            height: clamp(
                settings.default_size.1,
                caps.min_image_extent.height,
                caps.max_image_extent.height,
            ),
        }
    } else {
        caps.current_extent
    };
    let image_count = if caps.max_image_count == 0 {
        if settings.frames_in_flight >= caps.min_image_count {
            settings.frames_in_flight
        } else {
            caps.min_image_count
        }
    } else {
        clamp(settings.frames_in_flight, caps.min_image_count, caps.max_image_count)
    };
    let (array_layers, array_view) = if settings.stereoscopic_3d_rendering {
        (if caps.max_image_array_layers < 2 {
            caps.max_image_array_layers
        } else {
            2
        }, true)
    } else {
        (1, false)
    };
    let present_mode = if !settings.vsync && supports_immediate {
        PresentMode::Immediate
    } else {
        PresentMode::Fifo
    };
    Ok(SwapchainParameters { extent, image_count, array_layers, array_view, present_mode })
}

/// The swapchain extent follows the surface: its current extent where it has
/// one; where it leaves the extent open, each side is the default size when
/// that lies within the surface's limits, the nearest limit otherwise, and
/// so always within the limits.
pub proof fn lemma_chosen_extent(caps: SurfaceCapabilities, settings: Settings)
    requires
        capabilities_consistent(caps),
    ensures
        caps.current_extent.width != u32::MAX ==> chosen_extent(caps, settings) == caps.current_extent,
        caps.current_extent.width == u32::MAX ==> {
            let e = chosen_extent(caps, settings);
            let (w, h) = settings.default_size;
            &&& caps.min_image_extent.width <= e.width <= caps.max_image_extent.width
            &&& caps.min_image_extent.height <= e.height <= caps.max_image_extent.height
            &&& caps.min_image_extent.width <= w <= caps.max_image_extent.width ==> e.width == w
            &&& caps.min_image_extent.height <= h <= caps.max_image_extent.height ==> e.height == h
            &&& w < caps.min_image_extent.width ==> e.width == caps.min_image_extent.width
            &&& w > caps.max_image_extent.width ==> e.width == caps.max_image_extent.width
            &&& h < caps.min_image_extent.height ==> e.height == caps.min_image_extent.height
            &&& h > caps.max_image_extent.height ==> e.height == caps.max_image_extent.height
        },
{
}

/// The number of swapchain images is the frames in flight, raised to the
/// surface's minimum, and lowered to its maximum where it has one; so it is
/// never below the minimum nor above a maximum.
pub proof fn lemma_chosen_image_count(caps: SurfaceCapabilities, settings: Settings)
    requires
        capabilities_consistent(caps),
    ensures
        chosen_image_count(caps, settings) >= caps.min_image_count,
        caps.max_image_count != 0 ==> chosen_image_count(caps, settings) <= caps.max_image_count,
        settings.frames_in_flight >= caps.min_image_count && (caps.max_image_count == 0
            || settings.frames_in_flight <= caps.max_image_count) ==> chosen_image_count(caps, settings)
            == settings.frames_in_flight,
        settings.frames_in_flight < caps.min_image_count ==> chosen_image_count(caps, settings)
            == caps.min_image_count,
        caps.max_image_count != 0 && settings.frames_in_flight > caps.max_image_count
            ==> chosen_image_count(caps, settings) == caps.max_image_count,
{
}

} // verus!
