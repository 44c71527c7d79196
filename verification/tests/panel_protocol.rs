use oled_clock::driver::{Panel, PanelError};
use oled_clock::fb::Framebuffer;
use oled_clock::transport::{FailingTransport, RecordingTransport, TransportError};

const ADDR: u8 = 0x3C;

const INIT_BLOCK: [u8; 26] = [
    0x00, 0xae, 0xd5, 0x80, 0xa8, 0x1f, 0xd3, 0x00, 0x40, 0x8d, 0x14, 0x20, 0x00, 0xa1, 0xc8,
    0xda, 0x02, 0x81, 0x8f, 0xd9, 0xf1, 0xdb, 0x40, 0xa4, 0xa6, 0xaf,
];

const FLUSH_PREAMBLE: [u8; 7] = [0x00, 0x21, 0x00, 0x7f, 0x22, 0x00, 0x03];

/// The data payload of the writes at `range`: every byte after each
/// transaction's control byte.
fn payload(writes: &[(u8, Vec<u8>)]) -> Vec<u8> {
    let mut out = Vec::new();
    for (_, bytes) in writes {
        assert_eq!(bytes[0], 0x40, "expected a data transaction");
        out.extend_from_slice(&bytes[1..]);
    }
    out
}

#[test]
fn init_emits_the_whole_command_sequence_at_once() {
    let mut panel = Panel::new(RecordingTransport::new(), ADDR);
    assert!(!panel.is_initialized());
    panel.init().unwrap();
    assert!(panel.is_initialized());
    let writes = &panel.bus().writes;
    assert_eq!(writes.len(), 1);
    assert_eq!(writes[0].0, ADDR);
    assert_eq!(writes[0].1, INIT_BLOCK.to_vec());
}

#[test]
fn flush_before_init_yields_uninitialized_and_emits_nothing() {
    let fb = Framebuffer::new();
    let mut panel = Panel::new(RecordingTransport::new(), ADDR);
    assert_eq!(panel.flush(&fb), Err(PanelError::Uninitialized));
    assert!(panel.bus().writes.is_empty());
}

#[test]
fn flush_emits_one_preamble_and_exactly_512_data_bytes() {
    let fb = Framebuffer::new();
    let mut panel = Panel::new(RecordingTransport::new(), ADDR);
    panel.init().unwrap();
    panel.flush(&fb).unwrap();
    let writes = &panel.bus().writes;
    assert_eq!(writes.len(), 1 + 1 + 16);
    assert_eq!(writes[1].1, FLUSH_PREAMBLE.to_vec());
    for w in &writes[2..] {
        assert_eq!(w.0, ADDR);
        assert_eq!(w.1.len(), 33);
        assert_eq!(w.1[0], 0x40);
    }
    assert_eq!(payload(&writes[2..]).len(), 512);
}

#[test]
fn flush_streams_the_framebuffer_bytes_in_order() {
    let mut fb = Framebuffer::new();
    fb.set_pixel(0, 0, true);
    fb.set_pixel(127, 31, true);
    fb.set_pixel(64, 13, true);
    let mut panel = Panel::new(RecordingTransport::new(), ADDR);
    panel.init().unwrap();
    panel.flush(&fb).unwrap();
    let writes = &panel.bus().writes;
    let sent = payload(&writes[2..]);
    let expected: Vec<u8> = (0..512).map(|i| fb.byte_at(i)).collect();
    assert_eq!(sent, expected);
    assert_eq!(sent[0], 0x01);
    assert_eq!(sent[64 + 128], 1 << 5);
    assert_eq!(sent[127 + 3 * 128], 1 << 7);
}

#[test]
fn a_dead_bus_surfaces_as_an_io_error() {
    for error in [
        TransportError::Nack,
        TransportError::BusError,
        TransportError::Timeout,
    ] {
        let mut panel = Panel::new(FailingTransport::new(error), ADDR);
        assert_eq!(panel.init(), Err(PanelError::Io(error)));
        assert!(!panel.is_initialized());
        let fb = Framebuffer::new();
        assert_eq!(panel.flush(&fb), Err(PanelError::Uninitialized));
    }
}

#[test]
fn a_bus_fault_during_flush_surfaces_and_keeps_the_latch() {
    // Init on a healthy bus, then the bus dies: flush reports the fault
    // and the panel still counts as initialized.
    let mut panel = Panel::new(RecordingTransport::new(), ADDR);
    panel.init().unwrap();
    assert!(panel.is_initialized());
    let fb = Framebuffer::new();
    panel.flush(&fb).unwrap();
    let mut dead = Panel::new(FailingTransport::new(TransportError::Timeout), ADDR);
    assert_eq!(dead.init(), Err(PanelError::Io(TransportError::Timeout)));
    assert_eq!(dead.flush(&fb), Err(PanelError::Uninitialized));
}
