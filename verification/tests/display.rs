use oled_clock::driver::{Panel, PanelError};
use oled_clock::fb::Framebuffer;
use oled_clock::oled::Oled;
use oled_clock::transport::RecordingTransport;

const ADDR: u8 = 0x3C;

const INIT_BLOCK: [u8; 26] = [
    0x00, 0xae, 0xd5, 0x80, 0xa8, 0x1f, 0xd3, 0x00, 0x40, 0x8d, 0x14, 0x20, 0x00, 0xa1, 0xc8,
    0xda, 0x02, 0x81, 0x8f, 0xd9, 0xf1, 0xdb, 0x40, 0xa4, 0xa6, 0xaf,
];

const FLUSH_PREAMBLE: [u8; 7] = [0x00, 0x21, 0x00, 0x7f, 0x22, 0x00, 0x03];

fn new_display() -> Oled<RecordingTransport> {
    Oled::new(Panel::new(RecordingTransport::new(), ADDR))
}

fn payload(writes: &[(u8, Vec<u8>)]) -> Vec<u8> {
    let mut out = Vec::new();
    for (_, bytes) in writes {
        assert_eq!(bytes[0], 0x40, "expected a data transaction");
        out.extend_from_slice(&bytes[1..]);
    }
    out
}

fn rasterized(line_a: &str, line_b: &str) -> Vec<u8> {
    let mut fb = Framebuffer::new();
    fb.draw_text(0, 15, line_a);
    fb.draw_text(0, 30, line_b);
    (0..512).map(|i| fb.byte_at(i)).collect()
}

#[test]
fn end_to_end_init_then_show() {
    let mut display = new_display();
    display.init().unwrap();
    display.show(("00:00.00", "addr=0x3C")).unwrap();
    let writes = &display.bus().writes;
    assert_eq!(writes.len(), 1 + 1 + 16);
    assert_eq!(writes[0].1, INIT_BLOCK.to_vec());
    assert_eq!(writes[1].1, FLUSH_PREAMBLE.to_vec());
    assert_eq!(payload(&writes[2..]), rasterized("00:00.00", "addr=0x3C"));
}

#[test]
fn show_before_init_yields_uninitialized_and_emits_nothing() {
    let mut display = new_display();
    assert_eq!(
        display.show(("00:00.00", "addr=0x3C")),
        Err(PanelError::Uninitialized)
    );
    assert!(display.bus().writes.is_empty());
}

#[test]
fn show_replaces_the_previous_frame() {
    let mut display = new_display();
    display.init().unwrap();
    display.show(("11:11.11", "first")).unwrap();
    display.show(("22:22.22", "second")).unwrap();
    let writes = &display.bus().writes;
    assert_eq!(writes.len(), 1 + 17 + 17);
    assert_eq!(payload(&writes[19..]), rasterized("22:22.22", "second"));
}

#[test]
fn two_consecutive_clears_emit_identical_streams() {
    let mut display = new_display();
    display.init().unwrap();
    display.clear();
    let after_first = display.bus().writes.len();
    display.clear();
    let writes = &display.bus().writes;
    assert_eq!(after_first, 1 + 17);
    assert_eq!(writes.len(), 1 + 17 + 17);
    assert_eq!(&writes[1..18], &writes[18..35]);
    assert_eq!(payload(&writes[2..18]), vec![0u8; 512]);
}

#[test]
fn run_frame_shows_the_formatted_clock() {
    let mut display = new_display();
    display.init().unwrap();
    display.run_frame(61_230).unwrap();
    let writes = &display.bus().writes;
    assert_eq!(payload(&writes[2..]), rasterized("01:01.23", "addr=0x3C"));
}
