use vstd::prelude::*;

use crate::renderers::vulkan::device::version_le;
use crate::renderers::vulkan::version::unpack_api_version;
use crate::renderers::{RendererError, RendererResult, Settings};
use crate::Version;

verus! {

/// The settings of a renderer and the frame it is working on.
#[derive(Debug, Clone, Copy)]
pub struct FrameState {
    settings: Settings,
    current_frame_index: u32,
}

impl FrameState {
    /// The current settings.
    pub closed spec fn spec_settings(self) -> Settings {
        self.settings
    }

    /// The index of the current frame.
    pub closed spec fn spec_frame_index(self) -> u32 {
        self.current_frame_index
    }

    /// The frame index is the first frame or one of the frames in flight.
    pub open spec fn wf(self) -> bool {
        self.spec_frame_index() == 0 || self.spec_frame_index() < self.spec_settings().frames_in_flight
    }

    /// Default settings, at the first frame.
    pub fn new() -> (s: Self)
        ensures
            s.wf(),
            s.spec_frame_index() == 0,
            s.spec_settings() == (Settings {
                frames_in_flight: 1,
                vsync: false,
                stereoscopic_3d_rendering: false,
                default_size: (1920, 1080),
            }),
    {
        FrameState { settings: Settings::default(), current_frame_index: 0 }
    }

    /// Returns the current settings.
    pub fn settings(&self) -> (s: &Settings)
        ensures
            *s == self.spec_settings(),
    {
        &self.settings
    }

    /// The index of the current frame.
    pub fn current_frame_index(&self) -> (i: u32)
        ensures
            i == self.spec_frame_index(),
    {
        self.current_frame_index
    }

    /// Takes new settings and starts over at the first frame.
    pub fn apply_settings(&mut self, settings: Settings)
        ensures
            final(self).wf(),
            final(self).spec_settings() == settings,
            final(self).spec_frame_index() == 0,
    {
        self.settings = settings;
        self.current_frame_index = 0;
    }

    /// Puts back earlier settings and frame index.
    pub fn restore(&mut self, saved: FrameState)
        ensures
            *final(self) == saved,
    {
        *self = saved;
    }

    /// Moves on to the next frame, wrapping around the frames in flight.
    pub fn end_frame(&mut self)
        requires
            old(self).wf(),
            old(self).spec_settings().frames_in_flight > 0,
        ensures
            final(self).wf(),
            final(self).spec_settings() == old(self).spec_settings(),
            final(self).spec_frame_index() == (old(self).spec_frame_index() + 1) % (old(
                self,
            ).spec_settings().frames_in_flight as int),
    {
        self.current_frame_index = crate::renderers::vulkan::resources::next_frame_index(
            self.current_frame_index,
            self.settings.frames_in_flight,
        );
    }
}

/// The frame index after `n` frames end, starting at `start`.
pub open spec fn frame_after(start: int, n: nat, frames_in_flight: int) -> int
    decreases n,
{
    if n == 0 {
        start
    } else {
        (frame_after(start, (n - 1) as nat, frames_in_flight) + 1) % frames_in_flight
    }
}

/// Frames rotate: after `n` frames end, the index is the start plus `n`,
/// modulo the frames in flight; after `frames_in_flight` frames the renderer
/// is back at the frame it started from.
pub proof fn lemma_frames_rotate(start: int, n: nat, frames_in_flight: int)
    requires
        frames_in_flight > 0,
        0 <= start < frames_in_flight,
    ensures
        frame_after(start, n, frames_in_flight) == (start + n) % frames_in_flight,
        frame_after(start, frames_in_flight as nat, frames_in_flight) == start,
{
    lemma_frames_rotate_only(start, n, frames_in_flight);
    lemma_frames_rotate_only(start, frames_in_flight as nat, frames_in_flight);
    vstd::arithmetic::div_mod::lemma_mod_add_multiples_vanish(start, frames_in_flight);
    vstd::arithmetic::div_mod::lemma_small_mod(start as nat, frames_in_flight as nat);
}

proof fn lemma_frames_rotate_only(start: int, n: nat, frames_in_flight: int)
    requires
        frames_in_flight > 0,
        0 <= start < frames_in_flight,
    ensures
        frame_after(start, n, frames_in_flight) == (start + n) % frames_in_flight,
    decreases n,
{
    if n > 0 {
        lemma_frames_rotate_only(start, (n - 1) as nat, frames_in_flight);
        vstd::arithmetic::div_mod::lemma_add_mod_noop_right(1, start + n - 1, frames_in_flight);
    } else {
        vstd::arithmetic::div_mod::lemma_small_mod(start as nat, frames_in_flight as nat);
    }
}

/// Fails unless the call is made on the main thread.
pub fn main_thread_only(is_main_thread: bool) -> (r: RendererResult<()>)
    ensures
        r is Ok <==> is_main_thread,
        r is Err ==> (r matches Err(RendererError::InvalidOperation(m)) && m@
            == "This action can only be performed in the main thread."@),
{
    if is_main_thread {
        Ok(())
    } else {
        Err(RendererError::invalid_operation("This action can only be performed in the main thread."))
    }
}

/// Refuses to initialize a renderer a second time.
pub fn refuse_reinitialization(initialized: bool) -> (r: RendererResult<()>)
    ensures
        r is Ok <==> !initialized,
        r is Err ==> (r matches Err(RendererError::InvalidOperation(m)) && m@
            == "VulkanRenderer is already initialized"@),
{
    if initialized {
        Err(RendererError::invalid_operation("VulkanRenderer is already initialized"))
    } else {
        Ok(())
    }
}

/// The lowest Vulkan API version the renderer supports.
pub open spec fn min_supported_api_version() -> Version {
    Version { major: 1, minor: 0, patch: 0 }
}

/// The latest API version of the instance: what the loader reports, or the
/// lowest supported version when it predates version reporting.
pub fn latest_api_version_from(reported: Option<u32>) -> (v: Version)
    ensures
        v == match reported {
            Some(raw) => unpack_api_version(raw),
            None => min_supported_api_version(),
        },
{
    match reported {
        Some(raw) => crate::renderers::vulkan::version::api_version_to_version(raw),
        None => Version::new(1, 0, 0),
    }
}

/// Whether an API version can be used: from the lowest supported version up
/// to the latest the instance reports.
pub fn is_api_version_supported(version: Version, latest: Version) -> (b: bool)
    ensures
        b == (version_le(min_supported_api_version(), version) && version_le(version, latest)),
{
    crate::renderers::vulkan::device::version_at_least(version, Version::new(1, 0, 0))
        && crate::renderers::vulkan::device::version_at_least(latest, version)
}

} // verus!
