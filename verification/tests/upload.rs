use al_engine::upload::BufferAllocator;

#[test]
fn upload_fills_destination_byte_for_byte() {
    let mut store = BufferAllocator::new();
    let data = vec![1u8, 2, 3, 4, 5];
    let id = store.create_vertex_buffer_with_staging(&data);
    assert_eq!(store.contents(id).as_slice(), data.as_slice());
}

/// Uploading the same bytes twice gives two byte-identical destination
/// buffers, and each call leaves exactly one more live allocation — the
/// staging buffer never survives.
#[test]
fn upload_twice_is_idempotent_in_effect() {
    let mut store = BufferAllocator::new();
    let data = vec![9u8, 8, 7, 6];

    let live_before = store.live_buffers();
    let first = store.create_index_buffer_with_staging(&data);
    let live_mid = store.live_buffers();
    assert_eq!(live_mid, live_before + 1);

    let second = store.create_index_buffer_with_staging(&data);
    let live_after = store.live_buffers();
    assert_eq!(live_after, live_mid + 1);

    assert_ne!(first, second);
    assert_eq!(store.contents(first).as_slice(), store.contents(second).as_slice());
}

#[test]
fn upload_of_empty_data_still_costs_one_allocation() {
    let mut store = BufferAllocator::new();
    let empty: Vec<u8> = Vec::new();
    let id = store.create_vertex_buffer_with_staging(&empty);
    assert_eq!(store.live_buffers(), 1);
    assert!(store.contents(id).is_empty());
}

#[test]
fn staging_write_and_copy_move_bytes() {
    let mut store = BufferAllocator::new();
    let staging = store.allocate_staging_buffer(3);
    let destination = store.allocate_gpu_buffer(3, al_engine::upload::BufferUsage::Vertex);
    store.write(staging, &vec![10u8, 20, 30]);
    store.copy_buffer(staging, destination);
    store.free(staging);
    assert_eq!(store.contents(destination).as_slice(), &[10u8, 20, 30]);
    assert_eq!(store.live_buffers(), 1);
}

#[test]
fn uniform_buffers_are_sized_to_the_image_count() {
    let mut store = BufferAllocator::new();
    let ids = store.create_uniform_buffers(64, 3);
    assert_eq!(ids.len(), 3);
    assert_eq!(store.live_buffers(), 3);
    for &id in &ids {
        assert_eq!(store.contents(id).len(), 64);
    }
    store.free_all(&ids);
    assert_eq!(store.live_buffers(), 0);
}
