use oled_clock::fb::Framebuffer;
use oled_clock::font::glyph_row;

fn bytes_of(fb: &Framebuffer) -> Vec<u8> {
    (0..512).map(|i| fb.byte_at(i)).collect()
}

fn column_is_dark(fb: &Framebuffer, x: usize) -> bool {
    (0..4).all(|page| fb.byte_at(x + page * 128) == 0)
}

#[test]
fn glyph_data_for_a_matches_the_bundled_font() {
    let expected: [u8; 13] = [
        0x00, 0x00, 0x18, 0x24, 0x42, 0x42, 0x42, 0x7e, 0x42, 0x42, 0x42, 0x00, 0x00,
    ];
    for r in 0..13 {
        assert_eq!(glyph_row('A', r), expected[r]);
    }
}

#[test]
fn unknown_code_points_render_blank() {
    let mut fb = Framebuffer::new();
    fb.draw_text(0, 15, "\t\u{7f}\u{e9}\u{4e16}");
    assert_eq!(bytes_of(&fb), vec![0u8; 512]);
}

#[test]
fn space_renders_blank() {
    let mut fb = Framebuffer::new();
    fb.draw_text(0, 15, "    ");
    assert_eq!(bytes_of(&fb), vec![0u8; 512]);
}

#[test]
fn short_text_stays_within_its_columns() {
    let mut fb = Framebuffer::new();
    fb.draw_text(0, 15, "AB");
    assert!(!bytes_of(&fb).iter().all(|b| *b == 0));
    for x in 16..128 {
        assert!(column_is_dark(&fb, x));
    }
}

#[test]
fn sixteen_chars_reach_every_cell_of_the_line() {
    let mut fb = Framebuffer::new();
    fb.draw_text(0, 15, "MMMMMMMMMMMMMMMM");
    // 'M' inks columns 0..=6 of its cell and leaves column 7 blank,
    // so the pattern repeats across all 16 cells of the row.
    for x in 0..128 {
        assert_eq!(column_is_dark(&fb, x), x % 8 == 7, "column {}", x);
    }
}

#[test]
fn seventeenth_char_is_truncated_at_the_edge() {
    let mut long = Framebuffer::new();
    long.draw_text(0, 15, "AAAAAAAAAAAAAAAAA");
    let mut short = Framebuffer::new();
    short.draw_text(0, 15, "AAAAAAAAAAAAAAAA");
    assert_eq!(bytes_of(&long), bytes_of(&short));
}

#[test]
fn glyph_sits_on_its_baseline() {
    let mut fb = Framebuffer::new();
    fb.draw_text(0, 15, "A");
    // The 8x13 cell covers rows 3..=15; 'A' has dark bitmap rows 0,1,11,12,
    // so its ink spans rows 5..=13 and columns 1..=6.
    for y in 0..32i32 {
        let row_lit = (0..8usize).any(|x| {
            fb.byte_at(x + (y as usize / 8) * 128) & (1 << (y as usize % 8)) != 0
        });
        assert_eq!(row_lit, (5..=13).contains(&y), "row {}", y);
    }
}

#[test]
fn negative_start_clips_left() {
    let mut fb = Framebuffer::new();
    fb.draw_text(-4, 15, "A");
    for x in 4..128 {
        assert!(column_is_dark(&fb, x));
    }
}

#[test]
fn baseline_above_the_panel_draws_nothing() {
    let mut fb = Framebuffer::new();
    fb.draw_text(0, -1, "A");
    fb.draw_text(0, 100, "A");
    assert_eq!(bytes_of(&fb), vec![0u8; 512]);
}
