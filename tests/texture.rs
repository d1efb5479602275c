use offscreen_relay::texture::{uv_debug_texture, TEXTURE_SIZE};

const ROW: [u8; 32] = [
    255, 102, 159, 255, 255, 159, 102, 255, 236, 255, 102, 255, 121, 255, 102, 255, 102, 255,
    198, 255, 102, 198, 255, 255, 121, 102, 255, 255, 236, 102, 255, 255,
];

#[test]
fn debug_texture_size() {
    assert_eq!(uv_debug_texture().len(), TEXTURE_SIZE * TEXTURE_SIZE * 4);
    assert_eq!(TEXTURE_SIZE, 8);
}

#[test]
fn debug_texture_rows_rotate_right() {
    let data = uv_debug_texture();
    let mut palette = ROW;
    for y in 0..8 {
        assert_eq!(&data[32 * y..32 * y + 32], &palette[..]);
        palette.rotate_right(4);
    }
    assert_eq!(&data[32..36], &[236, 102, 255, 255]);
    assert_eq!(&data[36..40], &[255, 102, 159, 255]);
}
