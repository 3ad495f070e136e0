use scaffolding::terrain::{vertex_sample_point, LatticePoint, SEGMENTS, VERTEX_COUNT, VERTICES_PER_SIDE};

#[test]
fn grid_dimensions() {
    assert_eq!(SEGMENTS, 65);
    assert_eq!(VERTICES_PER_SIDE, 66);
    assert_eq!(VERTEX_COUNT, 66 * 66);
}

#[test]
fn first_chunk_samples_its_own_rows() {
    assert_eq!(vertex_sample_point(0, 0), LatticePoint { column: 0, row: 0 });
    assert_eq!(vertex_sample_point(0, 67), LatticePoint { column: 1, row: 1 });
    assert_eq!(vertex_sample_point(0, VERTEX_COUNT - 1), LatticePoint { column: 65, row: 65 });
}

#[test]
fn later_chunks_shift_rows_by_sixty_five() {
    assert_eq!(vertex_sample_point(2, 67), LatticePoint { column: 1, row: -129 });
    assert_eq!(vertex_sample_point(1, 65 * 66 + 3), LatticePoint { column: 3, row: 0 });
}

#[test]
fn adjacent_chunks_meet_on_the_same_lattice_points() {
    for index in [0u64, 1, 7, 1000] {
        for column in 0..VERTICES_PER_SIDE {
            assert_eq!(
                vertex_sample_point(index, column),
                vertex_sample_point(index + 1, SEGMENTS * VERTICES_PER_SIDE + column)
            );
        }
    }
}

#[test]
fn interior_rows_of_adjacent_chunks_differ() {
    assert_ne!(vertex_sample_point(0, 66), vertex_sample_point(1, 66));
}
