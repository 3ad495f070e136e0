use scaffolding::chunks::{chunk_index, chunk_offset, LoadedChunks, CHUNK_SIZE, MAX_INDEX, WINDOW};

#[test]
fn index_of_negative_forward_position() {
    assert_eq!(CHUNK_SIZE, 200);
    assert_eq!(chunk_index(-450), 2);
}

#[test]
fn index_ignores_sign_and_rounds_down() {
    assert_eq!(chunk_index(450), 2);
    assert_eq!(chunk_index(0), 0);
    assert_eq!(chunk_index(-199), 0);
    assert_eq!(chunk_index(-200), 1);
    assert_eq!(chunk_index(399), 1);
}

#[test]
fn index_at_the_extremes() {
    assert_eq!(chunk_index(i64::MIN), MAX_INDEX);
    assert_eq!(chunk_index(i64::MAX), MAX_INDEX);
}

#[test]
fn offset_is_index_times_size() {
    assert_eq!(chunk_offset(0), 0);
    assert_eq!(chunk_offset(3), 600);
    assert_eq!(chunk_offset(MAX_INDEX), MAX_INDEX * 200);
    assert_eq!(chunk_offset(MAX_INDEX + 4), (MAX_INDEX + 4) * 200);
}

#[test]
fn window_at_minus_450_loads_two_to_six() {
    assert_eq!(WINDOW, 5);
    let chunks = LoadedChunks::new();
    assert_eq!(chunks.plan_at(-450), vec![2, 3, 4, 5, 6]);
}

#[test]
fn ensure_step_twice_changes_nothing() {
    let mut chunks = LoadedChunks::new();
    let plan = chunks.plan_at(-450);
    for (handle, index) in plan.iter().enumerate() {
        assert!(chunks.register(*index, 100 + handle as u64));
    }
    assert_eq!(chunks.len(), 5);
    assert!(chunks.plan_at(-450).is_empty());
    for index in 0..10u64 {
        assert_eq!(chunks.is_loaded(index), (2..7).contains(&index));
    }
    assert_eq!(chunks.handle(2), Some(100));
    assert_eq!(chunks.handle(6), Some(104));
    assert_eq!(chunks.handle(7), None);
}

#[test]
fn plan_skips_loaded_chunks() {
    let mut chunks = LoadedChunks::new();
    assert!(chunks.register(3, 7));
    assert!(chunks.register(5, 8));
    assert_eq!(chunks.plan(2), vec![2, 4, 6]);
    assert_eq!(chunks.plan(4), vec![4, 6, 7, 8]);
}

#[test]
fn advancing_player_only_adds_the_new_front_chunk() {
    let mut chunks = LoadedChunks::new();
    for index in chunks.plan_at(-10) {
        chunks.register(index, index);
    }
    assert_eq!(chunks.plan_at(-210), vec![5]);
}

#[test]
fn registering_a_loaded_index_keeps_its_handle() {
    let mut chunks = LoadedChunks::new();
    assert!(chunks.register(4, 11));
    assert!(!chunks.register(4, 12));
    assert_eq!(chunks.handle(4), Some(11));
    assert_eq!(chunks.len(), 1);
}

#[test]
fn plan_at_the_largest_index() {
    let chunks = LoadedChunks::new();
    assert_eq!(
        chunks.plan_at(i64::MIN),
        vec![MAX_INDEX, MAX_INDEX + 1, MAX_INDEX + 2, MAX_INDEX + 3, MAX_INDEX + 4]
    );
}
