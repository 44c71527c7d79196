//! The display facade: one panel, one framebuffer, and a `show` that
//! clears, draws two text lines at fixed baselines, and flushes as one
//! complete frame.

use vstd::prelude::*;
use crate::clock::format_ms;
use crate::clock::spec_format_ms;
use crate::driver::Panel;
use crate::driver::PanelError;
use crate::driver::flush_txns;
use crate::fb::Framebuffer;
use crate::fb::blank;
use crate::fb::in_bounds;
use crate::fb::lemma_blank_dark;
use crate::fb::pixel;
use crate::raster::text_bit;
use crate::transport::Transport;
use crate::transport::Txn;

verus! {

/// Baseline row of the first text line.
pub const ROW_A: i32 = 15;

/// Baseline row of the second text line.
pub const ROW_B: i32 = 30;

/// The frame that `show` rasterizes: `a` on the first baseline, `b`
/// on the second, over a cleared buffer.
pub open spec fn two_line_frame(fb: Seq<u8>, a: Seq<char>, b: Seq<char>) -> bool {
    forall|px: int, py: int|
        in_bounds(px, py) ==> #[trigger] pixel(fb, px, py) == (text_bit(a, 0, 15, px, py)
            || text_bit(b, 0, 30, px, py))
}

/// Two completed `clear` flushes emit identical transaction streams,
/// whatever was on the screen or the bus before either of them: what a
/// clear appends to the log is a function of the slave address alone.
pub proof fn lemma_clear_streams_identical(l1: Seq<Txn>, f1: Seq<Txn>, l2: Seq<Txn>, f2: Seq<Txn>, addr: u8)
    requires
        f1 == l1 + flush_txns(addr, blank()),
        f2 == l2 + flush_txns(addr, blank()),
    ensures
        f1.skip(l1.len() as int) == f2.skip(l2.len() as int),
{
    assert(f1.skip(l1.len() as int) =~~= flush_txns(addr, blank()));
    assert(f2.skip(l2.len() as int) =~~= flush_txns(addr, blank()));
}

/// A 128x32 OLED display: the SSD1306 panel plus its framebuffer.
pub struct Oled<T: Transport> {
    panel: Panel<T>,
    fbuf: Framebuffer,
}

impl<T: Transport> Oled<T> {
    /// The framebuffer always holds a full frame.
    pub open spec fn wf(&self) -> bool {
        self.frame().len() == 512
    }

    /// All transactions acknowledged on this display's bus.
    pub closed spec fn log(&self) -> Seq<Txn> {
        self.panel.log()
    }

    /// The 7-bit slave address in use.
    pub closed spec fn address(&self) -> u8 {
        self.panel.address()
    }

    /// Whether the panel has been initialized.
    pub closed spec fn is_init(&self) -> bool {
        self.panel.is_init()
    }

    /// The current frame contents.
    pub closed spec fn frame(&self) -> Seq<u8> {
        self.fbuf@
    }

    /// Wrap a panel driver together with a cleared framebuffer.
    pub fn new(hw: Panel<T>) -> (r: Self)
        ensures
            r.wf(),
            r.log() == hw.log(),
            r.address() == hw.address(),
            r.is_init() == hw.is_init(),
            r.frame() == blank(),
    {
        Oled { panel: hw, fbuf: Framebuffer::new() }
    }

    /// Drive the panel initialization sequence.
    pub fn init(&mut self) -> (r: Result<(), PanelError>)
        requires
            old(self).wf(),
        ensures
            final(self).wf(),
            final(self).address() == old(self).address(),
            final(self).frame() == old(self).frame(),
            r is Ok ==> final(self).is_init() && final(self).log() == old(self).log().push(
                crate::driver::cmd_txn(old(self).address(), crate::driver::init_cmds()),
            ),
            r is Err ==> {
                &&& r->Err_0 is Io
                &&& final(self).is_init() == old(self).is_init()
                &&& final(self).log() == old(self).log()
            },
    {
        self.panel.init()
    }

    /// Borrow the transport, e.g. to inspect a test double's record.
    pub fn bus(&self) -> (r: &T)
        ensures
            r.log() == self.log(),
    {
        self.panel.bus()
    }

    /// Whether the panel has been initialized.
    pub fn is_initialized(&self) -> (r: bool)
        ensures
            r == self.is_init(),
    {
        self.panel.is_initialized()
    }

    /// Render `lines.0` and `lines.1` on the two baselines over a
    /// cleared buffer and flush the whole frame. Before `init` nothing
    /// is sent and `Uninitialized` comes back; a transport fault
    /// surfaces as `Io` with the log ending after a prefix of the
    /// flush transactions, and the panel keeps its last full frame.
    pub fn show(&mut self, lines: (&str, &str)) -> (r: Result<(), PanelError>)
        requires
            old(self).wf(),
        ensures
            final(self).wf(),
            final(self).address() == old(self).address(),
            final(self).is_init() == old(self).is_init(),
            two_line_frame(final(self).frame(), lines.0@, lines.1@),
            !old(self).is_init() ==> r == Err::<(), PanelError>(PanelError::Uninitialized)
                && final(self).log() == old(self).log(),
            old(self).is_init() ==> {
                &&& r is Ok ==> final(self).log() == old(self).log() + flush_txns(
                    old(self).address(),
                    final(self).frame(),
                )
                &&& r is Err ==> {
                    &&& r->Err_0 is Io
                    &&& old(self).log().len() <= final(self).log().len() < old(self).log().len()
                        + 17
                    &&& final(self).log() == (old(self).log() + flush_txns(
                        old(self).address(),
                        final(self).frame(),
                    )).take(final(self).log().len() as int)
                }
            },
    {
        self.fbuf.clear();
        self.fbuf.draw_text(0, ROW_A, lines.0);
        self.fbuf.draw_text(0, ROW_B, lines.1);
        proof {
            assert forall|px: int, py: int| in_bounds(px, py) implies #[trigger] pixel(
                self.fbuf@,
                px,
                py,
            ) == (text_bit(lines.0@, 0, 15, px, py) || text_bit(lines.1@, 0, 30, px, py)) by {
                lemma_blank_dark(px, py);
            }
        }
        match self.panel.flush(&self.fbuf) {
            Ok(()) => Ok(()),
            Err(e) => Err(e),
        }
    }

    /// Clear the framebuffer and flush the dark frame. A flush error
    /// is suppressed: the display is about to be reused or dropped.
    /// What a completed clear sends over the bus depends only on the
    /// slave address, so any two of them emit identical byte streams.
    pub fn clear(&mut self)
        requires
            old(self).wf(),
        ensures
            final(self).wf(),
            final(self).address() == old(self).address(),
            final(self).is_init() == old(self).is_init(),
            final(self).frame() == blank(),
            !old(self).is_init() ==> final(self).log() == old(self).log(),
            old(self).is_init() ==> {
                &&& old(self).log().len() <= final(self).log().len() <= old(self).log().len() + 17
                &&& final(self).log() == (old(self).log() + flush_txns(
                    old(self).address(),
                    blank(),
                )).take(final(self).log().len() as int)
            },
    {
        self.fbuf.clear();
        let _ = self.panel.flush(&self.fbuf);
        proof {
            if old(self).is_init() {
                assert((old(self).log() + flush_txns(old(self).address(), blank())).take(
                    (old(self).log() + flush_txns(old(self).address(), blank())).len() as int,
                ) =~~= old(self).log() + flush_txns(old(self).address(), blank()));
            }
        }
    }

    /// One frame of the clock: render `ms` as `MM:SS.cc` on the first
    /// line and the fixed address label on the second, then flush.
    pub fn run_frame(&mut self, ms: u64) -> (r: Result<(), PanelError>)
        requires
            old(self).wf(),
        ensures
            final(self).wf(),
            final(self).address() == old(self).address(),
            final(self).is_init() == old(self).is_init(),
            two_line_frame(final(self).frame(), spec_format_ms(ms), "addr=0x3C"@),
            !old(self).is_init() ==> r == Err::<(), PanelError>(PanelError::Uninitialized)
                && final(self).log() == old(self).log(),
            old(self).is_init() && r is Ok ==> final(self).log() == old(self).log() + flush_txns(
                old(self).address(),
                final(self).frame(),
            ),
            old(self).is_init() && r is Err ==> r->Err_0 is Io,
    {
        let text = format_ms(ms);
        self.show((text.as_str(), "addr=0x3C"))
    }
}

} // verus!
