use heph_gl::renderers::vulkan::state::{
    is_api_version_supported, latest_api_version_from, main_thread_only, refuse_reinitialization,
    FrameState,
};
use heph_gl::renderers::vulkan::swapchain::{
    choose_swapchain_parameters, clamp, Extent, PresentMode, SurfaceCapabilities,
};
use heph_gl::renderers::vulkan::sync::{FenceStates, TimelineValues};
use heph_gl::renderers::Settings;
use heph_gl::Version;

fn caps(current: Extent, max_image_count: u32, max_layers: u32) -> SurfaceCapabilities {
    SurfaceCapabilities {
        current_extent: current,
        min_image_extent: Extent {
            width: 100,
            height: 100,
        },
        max_image_extent: Extent {
            width: 1000,
            height: 800,
        },
        min_image_count: 2,
        max_image_count,
        max_image_array_layers: max_layers,
    }
}

#[test]
fn settings_default() {
    let s = Settings::default();
    assert_eq!(s.frames_in_flight, 1);
    assert!(!s.vsync);
    assert!(!s.stereoscopic_3d_rendering);
    assert_eq!(s.default_size, (1920, 1080));
}

#[test]
fn swapchain_uses_current_extent_when_fixed() {
    let settings = Settings::default();
    let current = Extent {
        width: 640,
        height: 480,
    };
    let p = choose_swapchain_parameters(caps(current, 3, 1), true, false, &settings).unwrap();
    assert_eq!(p.extent, current);
    assert_eq!(p.image_count, 2);
    assert_eq!(p.array_layers, 1);
    assert!(!p.array_view);
    assert_eq!(p.present_mode, PresentMode::Fifo);
}

#[test]
fn swapchain_clamps_default_size_when_open() {
    let mut settings = Settings::default();
    settings.frames_in_flight = 5;
    settings.vsync = true;
    settings.stereoscopic_3d_rendering = true;
    let open = Extent {
        width: u32::MAX,
        height: u32::MAX,
    };
    let p = choose_swapchain_parameters(caps(open, 3, 4), true, true, &settings).unwrap();
    assert_eq!(
        p.extent,
        Extent {
            width: 1000,
            height: 800
        }
    );
    assert_eq!(p.image_count, 3);
    assert_eq!(p.array_layers, 2);
    assert!(p.array_view);
    // With vsync, presentation waits for the vertical blank.
    assert_eq!(p.present_mode, PresentMode::Fifo);

    // Without an upper image limit, the frames in flight are taken as is.
    let p = choose_swapchain_parameters(caps(open, 0, 1), true, false, &settings).unwrap();
    assert_eq!(p.image_count, 5);
    assert_eq!(p.array_layers, 1);
    assert_eq!(p.present_mode, PresentMode::Fifo);
}

#[test]
fn swapchain_presents_immediately_without_vsync() {
    let settings = Settings::default();
    let current = Extent {
        width: 640,
        height: 480,
    };
    let p = choose_swapchain_parameters(caps(current, 3, 1), true, true, &settings).unwrap();
    assert_eq!(p.present_mode, PresentMode::Immediate);
    let p = choose_swapchain_parameters(caps(current, 3, 1), false, true, &settings).unwrap();
    assert_eq!(p.present_mode, PresentMode::Immediate);
}

#[test]
fn swapchain_needs_fifo_or_immediate() {
    let settings = Settings::default();
    let err = choose_swapchain_parameters(
        caps(
            Extent {
                width: 1,
                height: 1,
            },
            3,
            1,
        ),
        false,
        false,
        &settings,
    )
    .unwrap_err();
    assert_eq!(
        err.to_string(),
        "Current device does not support rendering to the target window."
    );
}

#[test]
fn clamp_values() {
    assert_eq!(clamp(5, 1, 3), 3);
    assert_eq!(clamp(0, 1, 3), 1);
    assert_eq!(clamp(2, 1, 3), 2);
}

#[test]
fn timeline_values_track_submissions() {
    let mut t = TimelineValues::new(2);
    assert_eq!(t.frame_count(), 2);
    assert_eq!(t.wait_value(0), None);
    assert_eq!(t.next_signal_value().unwrap(), 1);
    t.record_submit(0);
    assert_eq!(t.wait_value(0), Some(1));
    assert_eq!(t.wait_value(1), None);
    assert_eq!(t.next_signal_value().unwrap(), 2);
    t.record_submit(1);
    t.record_submit(0);
    assert_eq!(t.wait_value(0), Some(3));
    assert_eq!(t.wait_value(1), Some(2));
    assert_eq!(t.next_signal_value().unwrap(), 4);
}

#[test]
fn fence_states_track_submissions() {
    let mut f = FenceStates::new(3);
    assert_eq!(f.frame_count(), 3);
    assert!(!f.needs_wait(1));
    f.record_submit(1);
    assert!(f.needs_wait(1));
    assert!(!f.needs_wait(0));
}

#[test]
fn fence_wait_clears_in_flight() {
    let mut f = FenceStates::new(2);
    f.record_submit(0);
    f.record_submit(1);
    f.record_wait_done(0);
    assert!(!f.needs_wait(0));
    assert!(f.needs_wait(1));
}

#[test]
fn frames_rotate() {
    let mut state = FrameState::new();
    assert_eq!(state.current_frame_index(), 0);
    state.end_frame();
    assert_eq!(state.current_frame_index(), 0);
    let mut settings = Settings::default();
    settings.frames_in_flight = 3;
    state.apply_settings(settings);
    state.end_frame();
    assert_eq!(state.current_frame_index(), 1);
    state.end_frame();
    assert_eq!(state.current_frame_index(), 2);
    state.end_frame();
    assert_eq!(state.current_frame_index(), 0);
    state.end_frame();
    let saved = state;
    state.apply_settings(Settings::default());
    assert_eq!(state.current_frame_index(), 0);
    state.restore(saved);
    assert_eq!(state.current_frame_index(), 1);
    assert_eq!(state.settings().frames_in_flight, 3);
}

#[test]
fn main_thread_check() {
    assert!(main_thread_only(true).is_ok());
    assert_eq!(
        main_thread_only(false).unwrap_err().to_string(),
        "Invalid operation: This action can only be performed in the main thread."
    );
}

#[test]
fn api_versions() {
    assert_eq!(latest_api_version_from(None), Version::new(1, 0, 0));
    assert_eq!(
        latest_api_version_from(Some((1 << 22) | (3 << 12) | 250)),
        Version::new(1, 3, 250)
    );
    let latest = Version::new(1, 3, 250);
    assert!(is_api_version_supported(Version::new(1, 0, 0), latest));
    assert!(is_api_version_supported(Version::new(1, 3, 0), latest));
    assert!(!is_api_version_supported(Version::new(1, 4, 0), latest));
    assert!(!is_api_version_supported(Version::new(0, 9, 0), latest));
}

#[test]
fn a_renderer_is_initialized_once() {
    assert!(refuse_reinitialization(false).is_ok());
    match refuse_reinitialization(true) {
        Err(heph_gl::renderers::RendererError::InvalidOperation(m)) => {
            assert_eq!(m, "VulkanRenderer is already initialized")
        }
        _ => panic!("expected an error"),
    }
}
