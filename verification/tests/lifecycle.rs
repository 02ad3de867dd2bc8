use al_engine::registry::ResourceEvent;
use al_engine::registry::ResourceKind;
use al_engine::registry::ResourceRegistry;
use al_engine::selection::Extent2d;
use al_engine::selection::PresentMode;
use al_engine::selection::SurfaceCapabilities;
use al_engine::selection::SurfaceDescription;
use al_engine::selection::SurfaceFormat;
use al_engine::swapchain::cleanup_swapchain;
use al_engine::swapchain::create_swapchain;
use al_engine::swapchain::recreate_swapchain;

fn surface(formats: Vec<SurfaceFormat>) -> SurfaceDescription {
    SurfaceDescription {
        capabilities: SurfaceCapabilities {
            min_image_count: 2,
            max_image_count: 3,
            current_extent: Some(Extent2d { width: 640, height: 480 }),
            min_image_extent: Extent2d { width: 1, height: 1 },
            max_image_extent: Extent2d { width: 4096, height: 4096 },
        },
        formats,
        present_modes: vec![PresentMode::Fifo],
    }
}

fn preferred() -> SurfaceFormat {
    SurfaceFormat { format: 44, color_space: 0 }
}

#[test]
fn registry_tracks_liveness_and_logs_events() {
    let mut reg = ResourceRegistry::new();
    let a = reg.create(ResourceKind::Swapchain);
    let b = reg.create(ResourceKind::ImageView);
    assert!(reg.live(a));
    assert!(reg.live(b));
    reg.destroy(a);
    assert!(!reg.live(a));
    assert!(reg.live(b));
    assert_eq!(
        reg.events().as_slice(),
        &[
            ResourceEvent::Created(a, ResourceKind::Swapchain),
            ResourceEvent::Created(b, ResourceKind::ImageView),
            ResourceEvent::Destroyed(a, ResourceKind::Swapchain),
        ]
    );
}

#[test]
fn create_negotiates_and_registers_every_resource() {
    let mut reg = ResourceRegistry::new();
    let sc = create_swapchain(&mut reg, &surface(vec![preferred()]), preferred(), Extent2d {
        width: 800,
        height: 600,
    })
    .unwrap();
    assert_eq!(sc.image_count, 3);
    assert_eq!(sc.format, preferred());
    assert!(!sc.format_fallback);
    assert_eq!(sc.present_mode, PresentMode::Fifo);
    assert_eq!(sc.extent, Extent2d { width: 640, height: 480 });
    assert_eq!(sc.image_views.len(), 3);
    assert_eq!(sc.framebuffers.len(), 3);
    assert!(reg.live(sc.swapchain));
    assert!(reg.live(sc.render_pass));
    assert!(reg.live(sc.pipeline));
    for &v in &sc.image_views {
        assert!(reg.live(v));
    }
    for &f in &sc.framebuffers {
        assert!(reg.live(f));
    }
    assert_eq!(reg.events().len(), 9);
}

#[test]
fn create_without_formats_touches_nothing() {
    let mut reg = ResourceRegistry::new();
    let r = create_swapchain(&mut reg, &surface(Vec::new()), preferred(), Extent2d {
        width: 800,
        height: 600,
    });
    assert!(r.is_err());
    assert!(reg.events().is_empty());
}

#[test]
fn cleanup_destroys_dependents_first() {
    let mut reg = ResourceRegistry::new();
    let sc = create_swapchain(&mut reg, &surface(vec![preferred()]), preferred(), Extent2d {
        width: 800,
        height: 600,
    })
    .unwrap();
    let created = reg.events().len();
    cleanup_swapchain(&mut reg, &sc);
    let log = &reg.events()[created..];
    let expected: Vec<ResourceEvent> = sc
        .framebuffers
        .iter()
        .map(|&f| ResourceEvent::Destroyed(f, ResourceKind::Framebuffer))
        .chain([
            ResourceEvent::Destroyed(sc.pipeline, ResourceKind::Pipeline),
            ResourceEvent::Destroyed(sc.render_pass, ResourceKind::RenderPass),
        ])
        .chain(
            sc.image_views
                .iter()
                .map(|&v| ResourceEvent::Destroyed(v, ResourceKind::ImageView)),
        )
        .chain([ResourceEvent::Destroyed(sc.swapchain, ResourceKind::Swapchain)])
        .collect();
    assert_eq!(log, expected.as_slice());
    assert!(!reg.live(sc.swapchain));
}

/// Recreation appends the old generation's destructions — dependency
/// order intact — strictly before any creation of the new generation.
#[test]
fn recreate_destroys_old_generation_before_creating_new() {
    let mut reg = ResourceRegistry::new();
    let old_state = create_swapchain(&mut reg, &surface(vec![preferred()]), preferred(), Extent2d {
        width: 800,
        height: 600,
    })
    .unwrap();
    let before = reg.events().len();
    let new_state = recreate_swapchain(
        &mut reg,
        &old_state,
        &surface(vec![preferred()]),
        preferred(),
        Extent2d { width: 800, height: 600 },
    )
    .unwrap();
    let appended = &reg.events()[before..];

    // every destruction strictly precedes every creation
    let first_created = appended
        .iter()
        .position(|e| matches!(e, ResourceEvent::Created(_, _)))
        .unwrap();
    assert!(appended[..first_created]
        .iter()
        .all(|e| matches!(e, ResourceEvent::Destroyed(_, _))));
    assert!(appended[first_created..]
        .iter()
        .all(|e| matches!(e, ResourceEvent::Created(_, _))));

    // destructions follow dependency order
    let rank = |k: &ResourceKind| match k {
        ResourceKind::Framebuffer => 0,
        ResourceKind::Pipeline => 1,
        ResourceKind::RenderPass => 2,
        ResourceKind::ImageView => 3,
        ResourceKind::Swapchain => 4,
    };
    let ranks: Vec<i32> = appended[..first_created]
        .iter()
        .map(|e| match e {
            ResourceEvent::Destroyed(_, k) => rank(k),
            ResourceEvent::Created(_, _) => unreachable!(),
        })
        .collect();
    assert!(ranks.windows(2).all(|w| w[0] <= w[1]));

    // the old generation is gone, the new one is live
    assert!(!reg.live(old_state.swapchain));
    assert!(reg.live(new_state.swapchain));
    for &f in &old_state.framebuffers {
        assert!(!reg.live(f));
    }
    for &f in &new_state.framebuffers {
        assert!(reg.live(f));
    }
}
