use scaffolding::debug_texture::{debug_texture_data, ROW_BYTES, TEXTURE_SIZE};

const PALETTE: [u8; 32] = [
    255, 102, 159, 255, 255, 159, 102, 255, 236, 255, 102, 255, 121, 255, 102, 255, 102, 255,
    198, 255, 102, 198, 255, 255, 121, 102, 255, 255, 236, 102, 255, 255,
];

#[test]
fn pattern_rows_turn_right_by_one_pixel() {
    let data = debug_texture_data();
    assert_eq!(data.len(), TEXTURE_SIZE * ROW_BYTES);
    let mut row = PALETTE;
    for y in 0..TEXTURE_SIZE {
        assert_eq!(&data[y * ROW_BYTES..(y + 1) * ROW_BYTES], &row[..]);
        row.rotate_right(4);
    }
}

#[test]
fn second_row_starts_with_the_last_colour() {
    let data = debug_texture_data();
    assert_eq!(&data[32..36], &[236, 102, 255, 255]);
    assert_eq!(&data[36..40], &[255, 102, 159, 255]);
}
