use al_engine::selection::Extent2d;
use al_engine::selection::PresentMode;
use al_engine::selection::SurfaceCapabilities;
use al_engine::selection::SurfaceFormat;
use al_engine::selection::choose_image_count;
use al_engine::selection::choose_swapchain_extent;
use al_engine::selection::choose_swapchain_format;
use al_engine::selection::choose_swapchain_presentation_mode;

fn caps(current: Option<Extent2d>) -> SurfaceCapabilities {
    SurfaceCapabilities {
        min_image_count: 2,
        max_image_count: 0,
        current_extent: current,
        min_image_extent: Extent2d { width: 200, height: 150 },
        max_image_extent: Extent2d { width: 1600, height: 900 },
    }
}

#[test]
fn format_preferred_found_first() {
    let preferred = SurfaceFormat { format: 44, color_space: 0 };
    let formats = vec![preferred, SurfaceFormat { format: 7, color_space: 1 }];
    assert_eq!(choose_swapchain_format(&formats, preferred), Some((preferred, false)));
}

#[test]
fn format_preferred_found_later_regardless_of_order() {
    let preferred = SurfaceFormat { format: 44, color_space: 0 };
    let formats = vec![
        SurfaceFormat { format: 7, color_space: 1 },
        SurfaceFormat { format: 9, color_space: 2 },
        preferred,
    ];
    assert_eq!(choose_swapchain_format(&formats, preferred), Some((preferred, false)));
}

#[test]
fn format_fallback_takes_first_and_raises_notice() {
    let preferred = SurfaceFormat { format: 44, color_space: 0 };
    let first = SurfaceFormat { format: 7, color_space: 1 };
    let formats = vec![first, SurfaceFormat { format: 9, color_space: 2 }];
    assert_eq!(choose_swapchain_format(&formats, preferred), Some((first, true)));
}

#[test]
fn format_empty_list_is_fatal() {
    let preferred = SurfaceFormat { format: 44, color_space: 0 };
    assert_eq!(choose_swapchain_format(&Vec::new(), preferred), None);
}

#[test]
fn present_mode_prefers_mailbox() {
    let modes = vec![PresentMode::Mailbox, PresentMode::Immediate, PresentMode::Fifo];
    assert_eq!(choose_swapchain_presentation_mode(&modes), PresentMode::Mailbox);
}

#[test]
fn present_mode_falls_back_to_immediate() {
    let modes = vec![PresentMode::Immediate, PresentMode::Fifo];
    assert_eq!(choose_swapchain_presentation_mode(&modes), PresentMode::Immediate);
}

#[test]
fn present_mode_falls_back_to_fifo() {
    let modes = vec![PresentMode::Fifo];
    assert_eq!(choose_swapchain_presentation_mode(&modes), PresentMode::Fifo);
}

#[test]
fn extent_takes_defined_current_even_when_it_differs() {
    let current = Extent2d { width: 1024, height: 768 };
    let chosen = choose_swapchain_extent(&caps(Some(current)), Extent2d { width: 800, height: 600 });
    assert_eq!(chosen, current);
}

#[test]
fn extent_clamps_desired_when_current_is_undefined() {
    let chosen = choose_swapchain_extent(&caps(None), Extent2d { width: 1920, height: 50 });
    assert_eq!(chosen, Extent2d { width: 1600, height: 150 });
    let kept = choose_swapchain_extent(&caps(None), Extent2d { width: 800, height: 600 });
    assert_eq!(kept, Extent2d { width: 800, height: 600 });
}

#[test]
fn image_count_is_min_plus_one_clamped() {
    let unbounded = caps(None);
    assert_eq!(choose_image_count(&unbounded), 3);
    let mut bounded = caps(None);
    bounded.max_image_count = 2;
    assert_eq!(choose_image_count(&bounded), 2);
    let mut roomy = caps(None);
    roomy.max_image_count = 8;
    assert_eq!(choose_image_count(&roomy), 3);
}
