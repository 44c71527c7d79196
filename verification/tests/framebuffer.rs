use oled_clock::fb::Framebuffer;

fn all_zero(fb: &Framebuffer) -> bool {
    for i in 0..512 {
        if fb.byte_at(i) != 0 {
            return false;
        }
    }
    true
}

#[test]
fn new_frame_is_blank() {
    let fb = Framebuffer::new();
    assert!(all_zero(&fb));
}

#[test]
fn set_pixel_sets_exactly_its_bit_everywhere() {
    for x in 0..128i32 {
        for y in 0..32i32 {
            let mut fb = Framebuffer::new();
            fb.set_pixel(x, y, true);
            let idx = (x as usize) + (y as usize / 8) * 128;
            for i in 0..512 {
                if i == idx {
                    assert_eq!(fb.byte_at(i), 1u8 << (y as usize % 8));
                } else {
                    assert_eq!(fb.byte_at(i), 0);
                }
            }
        }
    }
}

#[test]
fn set_then_clear_pixel_restores_blank() {
    let mut fb = Framebuffer::new();
    fb.set_pixel(77, 19, true);
    assert!(!all_zero(&fb));
    fb.set_pixel(77, 19, false);
    assert!(all_zero(&fb));
}

#[test]
fn set_pixel_out_of_bounds_is_a_no_op() {
    let mut fb = Framebuffer::new();
    fb.set_pixel(128, 0, true);
    fb.set_pixel(0, 32, true);
    fb.set_pixel(-1, 0, true);
    fb.set_pixel(0, -1, true);
    fb.set_pixel(100_000, 100_000, true);
    fb.set_pixel(-100_000, -100_000, true);
    assert!(all_zero(&fb));
}

#[test]
fn set_pixel_leaves_other_pixels_alone() {
    let mut fb = Framebuffer::new();
    fb.set_pixel(0, 0, true);
    fb.set_pixel(5, 9, true);
    assert_eq!(fb.byte_at(0), 0x01);
    assert_eq!(fb.byte_at(5 + 128), 0x02);
}

#[test]
fn clear_zeroes_everything() {
    let mut fb = Framebuffer::new();
    for x in 0..128 {
        fb.set_pixel(x, (x % 32) as i32, true);
    }
    assert!(!all_zero(&fb));
    fb.clear();
    assert!(all_zero(&fb));
}
