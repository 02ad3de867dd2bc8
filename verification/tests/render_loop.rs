use al_engine::renderer::AcquireOutcome;
use al_engine::renderer::PresentOutcome;
use al_engine::renderer::RenderError;
use al_engine::renderer::Renderer;
use al_engine::renderer::RendererConfig;
use al_engine::selection::Extent2d;
use al_engine::selection::PresentMode;
use al_engine::selection::SurfaceCapabilities;
use al_engine::selection::SurfaceDescription;
use al_engine::selection::SurfaceFormat;

fn preferred() -> SurfaceFormat {
    SurfaceFormat { format: 44, color_space: 0 }
}

fn config() -> RendererConfig {
    RendererConfig {
        frame_slots: 2,
        desired_extent: Extent2d { width: 800, height: 600 },
        preferred_format: preferred(),
        uniform_buffer_size: 8,
    }
}

/// A surface whose negotiation yields a three-image swapchain.
fn surface() -> SurfaceDescription {
    SurfaceDescription {
        capabilities: SurfaceCapabilities {
            min_image_count: 2,
            max_image_count: 3,
            current_extent: Some(Extent2d { width: 640, height: 480 }),
            min_image_extent: Extent2d { width: 1, height: 1 },
            max_image_extent: Extent2d { width: 4096, height: 4096 },
        },
        formats: vec![preferred()],
        present_modes: vec![PresentMode::Mailbox, PresentMode::Fifo],
    }
}

#[test]
fn new_renderer_negotiates_a_three_image_swapchain() {
    let ren = Renderer::new(config(), &surface()).unwrap();
    assert_eq!(ren.swapchain.image_count, 3);
    assert_eq!(ren.swapchain.present_mode, PresentMode::Mailbox);
    assert_eq!(ren.swapchain.extent, Extent2d { width: 640, height: 480 });
    assert_eq!(ren.uniform_buffers.len(), 3);
    assert_eq!(ren.recreate_count, 0);
    assert_eq!(ren.frames_submitted, 0);
}

#[test]
fn new_renderer_without_formats_is_fatal() {
    let mut bare = surface();
    bare.formats.clear();
    assert!(matches!(Renderer::new(config(), &bare), Err(RenderError::NoSurfaceFormat)));
}

/// Two frame slots, a three-image swapchain, ten simulated frames with
/// stale signals on the fourth (at acquire) and seventh (at present):
/// the swapchain is recreated exactly twice and the slot indices keep
/// cycling round-robin without skipping or double-processing a slot.
#[test]
fn ten_frames_with_two_stale_signals() {
    let mut ren = Renderer::new(config(), &surface()).unwrap();
    let frame_data = vec![0u8; 8];
    let mut slots = Vec::new();

    for frame in 1..=10u32 {
        let acquire = if frame == 4 {
            AcquireOutcome::OutOfDate
        } else {
            AcquireOutcome::Image(frame % 3)
        };
        let present = if frame == 7 { PresentOutcome::OutOfDate } else { PresentOutcome::Presented };
        let report = ren.draw_frame(acquire, present, &surface(), &frame_data).unwrap();
        slots.push(report.slot);
        assert_eq!(report.recreated, frame == 4 || frame == 7);
        assert_eq!(report.presented, frame != 4);
    }

    assert_eq!(ren.recreate_count, 2);
    // frame 4 acquired nothing, so its slot is reused by frame 5
    assert_eq!(slots, vec![0, 1, 0, 1, 1, 0, 1, 0, 1, 0]);
    assert_eq!(ren.frames_submitted, 9);
}

#[test]
fn resize_recreates_at_the_requested_extent() {
    let mut ren = Renderer::new(config(), &surface()).unwrap();
    let mut open_surface = surface();
    open_surface.capabilities.current_extent = None;
    ren.notify_resize(Extent2d { width: 1024, height: 768 });
    let frame_data = vec![0u8; 8];
    let report = ren
        .draw_frame(
            AcquireOutcome::Image(0),
            PresentOutcome::Presented,
            &open_surface,
            &frame_data,
        )
        .unwrap();
    assert!(report.presented);
    assert_eq!(ren.recreate_count, 1);
    assert_eq!(ren.swapchain.extent, Extent2d { width: 1024, height: 768 });
}

#[test]
fn acquire_device_error_is_fatal() {
    let mut ren = Renderer::new(config(), &surface()).unwrap();
    let frame_data = vec![0u8; 8];
    let r = ren.draw_frame(
        AcquireOutcome::DeviceError,
        PresentOutcome::Presented,
        &surface(),
        &frame_data,
    );
    assert!(matches!(r, Err(RenderError::AcquireFailed)));
    assert_eq!(ren.frames_submitted, 0);
}

#[test]
fn out_of_range_image_index_is_fatal() {
    let mut ren = Renderer::new(config(), &surface()).unwrap();
    let frame_data = vec![0u8; 8];
    let r = ren.draw_frame(
        AcquireOutcome::Image(3),
        PresentOutcome::Presented,
        &surface(),
        &frame_data,
    );
    assert!(matches!(r, Err(RenderError::AcquireFailed)));
}

#[test]
fn present_device_error_is_fatal_after_submission() {
    let mut ren = Renderer::new(config(), &surface()).unwrap();
    let frame_data = vec![0u8; 8];
    let r = ren.draw_frame(
        AcquireOutcome::Image(0),
        PresentOutcome::DeviceError,
        &surface(),
        &frame_data,
    );
    assert!(matches!(r, Err(RenderError::PresentFailed)));
    assert_eq!(ren.frames_submitted, 1);
}

#[test]
fn suboptimal_present_recreates_but_still_presents() {
    let mut ren = Renderer::new(config(), &surface()).unwrap();
    let frame_data = vec![3u8; 8];
    let report = ren
        .draw_frame(
            AcquireOutcome::Image(2),
            PresentOutcome::Suboptimal,
            &surface(),
            &frame_data,
        )
        .unwrap();
    assert!(report.presented);
    assert!(report.recreated);
    assert_eq!(ren.recreate_count, 1);
}

#[test]
fn destroy_tears_everything_down_dependents_first() {
    let mut ren = Renderer::new(config(), &surface()).unwrap();
    let frame_data = vec![0u8; 8];
    ren.draw_frame(AcquireOutcome::Image(0), PresentOutcome::Presented, &surface(), &frame_data)
        .unwrap();
    let swapchain_id = ren.swapchain.swapchain;
    let framebuffer_ids = ren.swapchain.framebuffers.clone();
    let uniform_ids = ren.uniform_buffers.clone();
    let events_before = ren.registry.events().len();
    let (registry, buffers) = ren.destroy();
    assert!(!registry.live(swapchain_id));
    for &f in &framebuffer_ids {
        assert!(!registry.live(f));
    }
    assert_eq!(buffers.live_buffers(), 0);
    for &u in &uniform_ids {
        assert!(!buffers.live(u));
    }
    // dependents were destroyed before the swapchain object itself
    let appended = &registry.events()[events_before..];
    assert!(matches!(
        appended.last(),
        Some(al_engine::registry::ResourceEvent::Destroyed(
            id,
            al_engine::registry::ResourceKind::Swapchain
        )) if *id == swapchain_id
    ));
}

#[test]
fn frame_data_reaches_the_acquired_images_uniform_buffer() {
    let mut ren = Renderer::new(config(), &surface()).unwrap();
    let frame_data = vec![7u8, 6, 5, 4, 3, 2, 1, 0];
    let report = ren
        .draw_frame(
            AcquireOutcome::Image(1),
            PresentOutcome::Presented,
            &surface(),
            &frame_data,
        )
        .unwrap();
    assert_eq!(report.image_index, Some(1));
    let buffer = ren.uniform_buffers[1];
    assert_eq!(ren.buffers.contents(buffer).as_slice(), frame_data.as_slice());
}
