use al_engine::device_selection::DeviceType;
use al_engine::device_selection::QueueFamilies;
use al_engine::device_selection::SharingMode;
use al_engine::device_selection::choose_sharing_mode;
use al_engine::device_selection::PhysicalDeviceInfo;
use al_engine::device_selection::QueueFamiliesBuilder;
use al_engine::device_selection::QueueFamilyInfo;
use al_engine::device_selection::check_suitability_and_score_device;
use al_engine::device_selection::find_queue_families;
use al_engine::device_selection::pick_physical_device;
use al_engine::device_selection::score_device;
use al_engine::fps_limiter::FpsLimiter;
use al_engine::mesh::get_object1;
use al_engine::physical_device_selection::QueueFamilyDescription;
use al_engine::physical_device_selection::QueueFamilyId;
use al_engine::physical_device_selection::QueueFamilyIdBuilder;

fn family(queue_count: u32, graphics: bool, presentation: bool) -> QueueFamilyInfo {
    QueueFamilyInfo { queue_count, supports_graphics: graphics, supports_presentation: presentation }
}

fn device(device_type: DeviceType, families: Vec<QueueFamilyInfo>) -> PhysicalDeviceInfo {
    PhysicalDeviceInfo {
        device_type,
        queue_families: families,
        extensions_supported: true,
        format_count: 2,
        present_mode_count: 1,
    }
}

#[test]
fn families_builder_keeps_the_best_rank() {
    let mut builder = QueueFamiliesBuilder::default();
    assert!(!builder.is_complete());
    builder.try_graphics(0, &family(1, true, false));
    builder.try_graphics(1, &family(4, true, false));
    builder.try_graphics(2, &family(2, true, false));
    builder.try_presentation(2, &family(2, false, true));
    assert!(builder.is_complete());
    let chosen = builder.build().unwrap();
    assert_eq!(chosen.graphics, 1);
    assert_eq!(chosen.presentation, 2);
}

#[test]
fn find_queue_families_needs_both_roles() {
    let only_graphics = vec![family(2, true, false)];
    assert!(find_queue_families(&only_graphics).is_none());
    let both = vec![family(2, true, false), family(1, false, true)];
    let chosen = find_queue_families(&both).unwrap();
    assert_eq!(chosen.graphics, 0);
    assert_eq!(chosen.presentation, 1);
}

#[test]
fn queueless_families_are_never_selected() {
    let families = vec![family(0, true, true)];
    assert!(find_queue_families(&families).is_none());
}

#[test]
fn sharing_mode_follows_queue_family_equality() {
    let shared = QueueFamilies { graphics: 0, presentation: 0 };
    assert_eq!(choose_sharing_mode(&shared), SharingMode::Exclusive);
    let split = QueueFamilies { graphics: 0, presentation: 1 };
    assert_eq!(choose_sharing_mode(&split), SharingMode::Concurrent);
}

#[test]
fn device_scores_prefer_dedicated_hardware() {
    assert_eq!(score_device(DeviceType::DiscreteGpu), 1000);
    assert_eq!(score_device(DeviceType::VirtualGpu), 500);
    assert_eq!(score_device(DeviceType::IntegratedGpu), 100);
    assert_eq!(score_device(DeviceType::Cpu), 0);
    assert_eq!(score_device(DeviceType::Other), 0);
}

#[test]
fn unsuitable_devices_score_nothing() {
    let families = vec![family(1, true, true)];
    let mut d = device(DeviceType::DiscreteGpu, families);
    assert_eq!(check_suitability_and_score_device(&d), Some(1000));
    d.extensions_supported = false;
    assert_eq!(check_suitability_and_score_device(&d), None);
    d.extensions_supported = true;
    d.format_count = 0;
    assert_eq!(check_suitability_and_score_device(&d), None);
}

#[test]
fn pick_physical_device_takes_the_best_suitable() {
    let families = || vec![family(1, true, true)];
    let devices = vec![
        device(DeviceType::IntegratedGpu, families()),
        device(DeviceType::DiscreteGpu, families()),
        device(DeviceType::VirtualGpu, families()),
    ];
    assert_eq!(pick_physical_device(&devices), Some(1));
    assert_eq!(pick_physical_device(&Vec::new()), None);
}

fn described(id: u32, queues: u32, bits: Option<u32>, graphics: bool, surface: bool)
    -> QueueFamilyDescription {
    QueueFamilyDescription {
        id,
        queues_count: queues,
        timestamp_valid_bits: bits,
        supports_graphics: graphics,
        surface_supported: surface,
    }
}

#[test]
fn queue_rank_counts_spare_queues_and_timestamp_bits() {
    assert_eq!(QueueFamilyIdBuilder::rank_queue(&described(0, 3, Some(48), true, true)), 248);
    assert_eq!(QueueFamilyIdBuilder::rank_queue(&described(0, 1, None, true, true)), 0);
}

#[test]
fn id_builder_tracks_best_families() {
    let mut builder = QueueFamilyIdBuilder::new();
    assert!(!builder.is_complete());
    builder.try_set_graphics(&described(5, 2, None, true, false));
    builder.try_set_graphics(&described(6, 2, Some(40), true, false));
    builder.try_set_presentation(&described(7, 3, None, false, true));
    assert!(builder.is_complete());
    assert_eq!(builder.graphics, Some(6));
    assert_eq!(builder.presentation, Some(7));
}

#[test]
fn described_find_needs_positive_ranks() {
    let weak = vec![described(0, 1, None, true, true)];
    assert!(al_engine::physical_device_selection::find_queue_families(&weak).is_none());
    let strong = vec![
        described(0, 2, None, true, false),
        described(1, 1, Some(36), false, true),
    ];
    let chosen = al_engine::physical_device_selection::find_queue_families(&strong).unwrap();
    assert_eq!(chosen, QueueFamilyId::new(0, 1));
}

#[test]
fn fps_limiter_plans_sleeps_of_at_least_one_millisecond() {
    let limiter = FpsLimiter::new(16667);
    assert_eq!(limiter.plan_sleep(10000), 6667);
    assert_eq!(limiter.plan_sleep(16000), 0);
    assert_eq!(limiter.plan_sleep(20000), 0);
    assert_eq!(limiter.plan_sleep(0), 16667);
}

#[test]
fn fps_limiter_records_the_last_delta() {
    let mut limiter = FpsLimiter::new(16667);
    assert_eq!(limiter.delta_micros(), 0);
    limiter.record_frame(12345);
    assert_eq!(limiter.delta_micros(), 12345);
}

#[test]
fn indices_serialize_little_endian() {
    let bytes = al_engine::mesh::indices_to_bytes(&vec![0x0102_0304, 7]);
    assert_eq!(bytes, vec![4, 3, 2, 1, 7, 0, 0, 0]);
    assert!(al_engine::mesh::indices_to_bytes(&Vec::new()).is_empty());
}

#[test]
fn object1_is_a_quad_of_two_triangles() {
    let mesh = get_object1();
    assert_eq!(mesh.vertex_count, 4);
    assert_eq!(mesh.indices, vec![0, 2, 1, 2, 3, 1]);
    assert!(mesh.indices.iter().all(|&i| (i as usize) < mesh.vertex_count));
}
