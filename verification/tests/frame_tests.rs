use sphere_cast::frame::{index_to_x, index_to_y, pixel_index, Framebuffer};

#[test]
fn fresh_buffer_is_black() {
    let fb = Framebuffer::new(4, 3);
    assert_eq!(fb.width(), 4);
    assert_eq!(fb.height(), 3);
    assert_eq!(fb.data().len(), 12);
    assert!(fb.data().iter().all(|&p| p == 0));
}

#[test]
fn set_pixel_writes_row_major() {
    let mut fb = Framebuffer::new(4, 3);
    fb.set_pixel(2, 1, 0xFFAA_0000);
    assert_eq!(fb.pixel(2, 1), 0xFFAA_0000);
    assert_eq!(fb.data()[1 * 4 + 2], 0xFFAA_0000);
    // Every other pixel is untouched.
    for i in 0..12 {
        if i != 6 {
            assert_eq!(fb.data()[i], 0);
        }
    }
}

#[test]
fn last_pixel_is_in_bounds() {
    let mut fb = Framebuffer::new(4, 3);
    fb.set_pixel(3, 2, 7);
    assert_eq!(fb.data()[11], 7);
}

#[test]
fn index_mapping_round_trips() {
    assert_eq!(pixel_index(2, 1, 4), 6);
    assert_eq!(index_to_x(6, 4), 2);
    assert_eq!(index_to_y(6, 4), 1);
    for i in 0..12usize {
        assert_eq!(pixel_index(index_to_x(i, 4), index_to_y(i, 4), 4), i);
    }
}
