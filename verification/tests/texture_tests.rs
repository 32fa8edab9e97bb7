use scene_motion::texture::{palette_bytes, uv_debug_texture_data};

const PALETTE: [u8; 32] = [
    255, 102, 159, 255, 255, 159, 102, 255, 236, 255, 102, 255, 121, 255, 102, 255, 102, 255, 198,
    255, 102, 198, 255, 255, 121, 102, 255, 255, 236, 102, 255, 255,
];

#[test]
fn palette_has_the_eight_test_pixels() {
    assert_eq!(palette_bytes(), PALETTE.to_vec());
}

#[test]
fn texture_rows_are_the_palette_rotated_right_by_a_pixel_per_row() {
    let data = uv_debug_texture_data();
    assert_eq!(data.len(), 8 * 8 * 4);
    for y in 0..8usize {
        for i in 0..32usize {
            let expected = PALETTE[(i + 32 - (4 * y) % 32) % 32];
            assert_eq!(data[y * 32 + i], expected, "row {y}, byte {i}");
        }
    }
}

#[test]
fn texture_spot_values() {
    let data = uv_debug_texture_data();
    // row 0 is the palette itself
    assert_eq!(&data[0..32], &PALETTE);
    // row 1 starts with the last pixel of the palette
    assert_eq!(&data[32..36], &[236, 102, 255, 255]);
    // row 7 starts with the second pixel of the palette
    assert_eq!(&data[224..228], &[255, 159, 102, 255]);
}
