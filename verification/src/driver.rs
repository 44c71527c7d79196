//! SSD1306 driver for a 128x32 panel: command/data framing over the
//! I2C transport, the panel initialization sequence, and the full-page
//! flush of a packed framebuffer.
//!
//! Every transaction starts with a control byte: `0x00` introduces
//! commands, `0x40` display data. The 512 framebuffer bytes are
//! streamed as 16 data transactions of 32 bytes each, a conservative
//! per-transaction bound for small I2C controllers.

use vstd::prelude::*;
use crate::fb::Framebuffer;
use crate::transport::Transport;
use crate::transport::TransportError;
use crate::transport::Txn;

verus! {

/// Control byte announcing a run of commands.
pub const CTRL_CMD: u8 = 0x00;

/// Control byte announcing a run of display data.
pub const CTRL_DATA: u8 = 0x40;

/// Data bytes per flush transaction (after the control byte).
pub const CHUNK: usize = 32;

/// What the panel driver can report.
#[derive(Clone, Copy, Debug, PartialEq, Eq, Structural)]
pub enum PanelError {
    /// `flush` was asked for before `init` had latched the panel on.
    Uninitialized,
    /// The transport failed underneath a command or data write.
    Io(TransportError),
}

/// The initialization command sequence for a 128x32 module: display
/// off, clock divide, multiplex ratio 31, no offset, start line 0,
/// charge pump on, horizontal addressing, segment remap, COM scan
/// decrement, COM pins for 32 rows, contrast, pre-charge, VCOMH,
/// resume from RAM, non-inverted, display on.
pub open spec fn init_cmds() -> Seq<u8> {
    seq![
        0xaeu8,
        0xd5u8,
        0x80u8,
        0xa8u8,
        0x1fu8,
        0xd3u8,
        0x00u8,
        0x40u8,
        0x8du8,
        0x14u8,
        0x20u8,
        0x00u8,
        0xa1u8,
        0xc8u8,
        0xdau8,
        0x02u8,
        0x81u8,
        0x8fu8,
        0xd9u8,
        0xf1u8,
        0xdbu8,
        0x40u8,
        0xa4u8,
        0xa6u8,
        0xafu8,
    ]
}

/// The flush preamble: column range 0..=127, page range 0..=3.
pub open spec fn flush_cmds() -> Seq<u8> {
    seq![0x21u8, 0x00u8, 0x7fu8, 0x22u8, 0x00u8, 0x03u8]
}

/// A command transaction: control byte 0x00, then the command bytes.
pub open spec fn cmd_txn(addr: u8, cmds: Seq<u8>) -> Txn {
    Txn { addr, data: seq![CTRL_CMD] + cmds }
}

/// A data transaction: control byte 0x40, then the payload bytes.
pub open spec fn data_txn(addr: u8, chunk: Seq<u8>) -> Txn {
    Txn { addr, data: seq![CTRL_DATA] + chunk }
}

/// The 16 data transactions of one flush: 32-byte slices of the frame,
/// in order.
pub open spec fn data_txns(addr: u8, fb: Seq<u8>) -> Seq<Txn> {
    Seq::new(16, |i: int| data_txn(addr, fb.subrange(32 * i, 32 * i + 32)))
}

/// Everything one successful flush appends to the bus log: the
/// preamble command transaction, then the frame data.
pub open spec fn flush_txns(addr: u8, fb: Seq<u8>) -> Seq<Txn> {
    seq![cmd_txn(addr, flush_cmds())] + data_txns(addr, fb)
}

/// The data payload of a run of transactions: every byte after each
/// transaction's control byte, concatenated in order.
pub open spec fn data_payload(txns: Seq<Txn>) -> Seq<u8>
    decreases txns.len(),
{
    if txns.len() == 0 {
        Seq::empty()
    } else {
        data_payload(txns.drop_last()) + txns.last().data.skip(1)
    }
}

proof fn lemma_data_payload_prefix(addr: u8, fb: Seq<u8>, k: int)
    requires
        fb.len() == 512,
        0 <= k <= 16,
    ensures
        data_payload(data_txns(addr, fb).take(k)) =~= fb.take(32 * k),
    decreases k,
{
    if k > 0 {
        lemma_data_payload_prefix(addr, fb, k - 1);
        let txns = data_txns(addr, fb);
        assert(txns.take(k).drop_last() =~= txns.take(k - 1));
        assert(txns.take(k).last() == data_txn(addr, fb.subrange(32 * (k - 1), 32 * k)));
        assert(data_txn(addr, fb.subrange(32 * (k - 1), 32 * k)).data.skip(1) =~= fb.subrange(
            32 * (k - 1),
            32 * k,
        ));
        assert(fb.take(32 * (k - 1)) + fb.subrange(32 * (k - 1), 32 * k) =~= fb.take(32 * k));
    }
}

/// Every flush of a full frame emits exactly one command transaction —
/// the six preamble bytes behind a command control byte — and then
/// data transactions whose payloads, concatenated, are exactly the 512
/// frame bytes.
pub proof fn lemma_flush_payload(addr: u8, fb: Seq<u8>)
    requires
        fb.len() == 512,
    ensures
        flush_txns(addr, fb).len() == 17,
        flush_txns(addr, fb)[0] == cmd_txn(addr, flush_cmds()),
        forall|i: int|
            1 <= i < 17 ==> (#[trigger] flush_txns(addr, fb)[i]).data[0] == CTRL_DATA,
        forall|i: int| 1 <= i < 17 ==> (#[trigger] flush_txns(addr, fb)[i]).data.len() == 33,
        data_payload(flush_txns(addr, fb).skip(1)) == fb,
{
    lemma_data_payload_prefix(addr, fb, 16);
    assert(data_txns(addr, fb).take(16) =~= data_txns(addr, fb));
    assert(flush_txns(addr, fb).skip(1) =~= data_txns(addr, fb));
    assert(fb.take(512) =~= fb);
}

/// The SSD1306 panel behind a transport: framing, the init latch, and
/// the flush protocol.
pub struct Panel<T: Transport> {
    transport: T,
    addr: u8,
    initialized: bool,
}

impl<T: Transport> Panel<T> {
    /// All transactions this panel's bus has acknowledged.
    pub closed spec fn log(&self) -> Seq<Txn> {
        self.transport.log()
    }

    /// The 7-bit slave address in use.
    pub closed spec fn address(&self) -> u8 {
        self.addr
    }

    /// Whether `init` has driven the panel command sequence.
    pub closed spec fn is_init(&self) -> bool {
        self.initialized
    }

    /// Take ownership of the bus; the panel starts uninitialized.
    pub fn new(transport: T, addr: u8) -> (r: Self)
        ensures
            r.log() == transport.log(),
            r.address() == addr,
            !r.is_init(),
    {
        Panel { transport, addr, initialized: false }
    }

    /// Borrow the transport, e.g. to inspect a test double's record.
    pub fn bus(&self) -> (r: &T)
        ensures
            r.log() == self.log(),
    {
        &self.transport
    }

    /// Whether the init latch is set.
    pub fn is_initialized(&self) -> (r: bool)
        ensures
            r == self.is_init(),
    {
        self.initialized
    }

    /// Send one run of commands as a single transaction.
    fn command(&mut self, cmds: &Vec<u8>) -> (r: Result<(), TransportError>)
        requires
            cmds@.len() <= 32,
        ensures
            final(self).address() == old(self).address(),
            final(self).is_init() == old(self).is_init(),
            r is Ok ==> final(self).log() == old(self).log().push(
                cmd_txn(old(self).address(), cmds@),
            ),
            r is Err ==> final(self).log() == old(self).log(),
    {
        let mut framed: Vec<u8> = Vec::new();
        framed.push(CTRL_CMD);
        let mut i: usize = 0;
        while i < cmds.len()
            invariant
                i <= cmds@.len(),
                framed@ == seq![CTRL_CMD] + cmds@.take(i as int),
            decreases cmds@.len() - i,
        {
            framed.push(cmds[i]);
            proof {
                assert(framed@ =~= seq![CTRL_CMD] + cmds@.take(i as int + 1));
            }
            i += 1;
        }
        proof {
            assert(framed@ =~= seq![CTRL_CMD] + cmds@);
        }
        let r = self.transport.write(self.addr, framed.as_slice());
        proof {
            if r is Ok {
                assert(final(self).log() =~~= old(self).log().push(
                    cmd_txn(old(self).address(), cmds@),
                ));
            }
        }
        r
    }

    /// Drive the panel initialization sequence and set the init latch.
    /// On success exactly one command transaction, holding the whole
    /// sequence, has been appended to the bus log.
    pub fn init(&mut self) -> (r: Result<(), PanelError>)
        ensures
            final(self).address() == old(self).address(),
            r is Ok ==> final(self).is_init() && final(self).log() == old(self).log().push(
                cmd_txn(old(self).address(), init_cmds()),
            ),
            r is Err ==> {
                &&& r->Err_0 is Io
                &&& final(self).is_init() == old(self).is_init()
                &&& final(self).log() == old(self).log()
            },
    {
        let mut cmds: Vec<u8> = Vec::new();
        cmds.push(0xae);
        cmds.push(0xd5);
        cmds.push(0x80);
        cmds.push(0xa8);
        cmds.push(0x1f);
        cmds.push(0xd3);
        cmds.push(0x00);
        cmds.push(0x40);
        cmds.push(0x8d);
        cmds.push(0x14);
        cmds.push(0x20);
        cmds.push(0x00);
        cmds.push(0xa1);
        cmds.push(0xc8);
        cmds.push(0xda);
        cmds.push(0x02);
        cmds.push(0x81);
        cmds.push(0x8f);
        cmds.push(0xd9);
        cmds.push(0xf1);
        cmds.push(0xdb);
        cmds.push(0x40);
        cmds.push(0xa4);
        cmds.push(0xa6);
        cmds.push(0xaf);
        proof {
            assert(cmds@ =~= init_cmds());
        }
        match self.command(&cmds) {
            Ok(()) => {
                self.initialized = true;
                Ok(())
            },
            Err(e) => Err(PanelError::Io(e)),
        }
    }

    /// Write the whole frame to the panel: the set-column/set-page
    /// preamble as one command transaction, then the 512 bytes as 16
    /// data transactions of 32 bytes. Before `init` nothing is sent
    /// and `Uninitialized` comes back; on a transport fault the log
    /// ends after some prefix of the flush transactions.
    pub fn flush(&mut self, fbuf: &Framebuffer) -> (r: Result<(), PanelError>)
        requires
            fbuf.wf(),
        ensures
            final(self).address() == old(self).address(),
            final(self).is_init() == old(self).is_init(),
            !old(self).is_init() ==> r == Err::<(), PanelError>(PanelError::Uninitialized)
                && final(self).log() == old(self).log(),
            old(self).is_init() ==> {
                &&& r is Ok ==> final(self).log() == old(self).log() + flush_txns(
                    old(self).address(),
                    fbuf@,
                )
                &&& r is Err ==> {
                    &&& r->Err_0 is Io
                    &&& old(self).log().len() <= final(self).log().len() < old(self).log().len()
                        + 17
                    &&& final(self).log() == (old(self).log() + flush_txns(
                        old(self).address(),
                        fbuf@,
                    )).take(final(self).log().len() as int)
                }
            },
    {
        if !self.initialized {
            return Err(PanelError::Uninitialized);
        }
        let ghost full = old(self).log() + flush_txns(old(self).address(), fbuf@);
        let mut cmds: Vec<u8> = Vec::new();
        cmds.push(0x21);
        cmds.push(0x00);
        cmds.push(0x7f);
        cmds.push(0x22);
        cmds.push(0x00);
        cmds.push(0x03);
        proof {
            assert(cmds@ =~= flush_cmds());
        }
        match self.command(&cmds) {
            Ok(()) => {
            },
            Err(e) => {
                proof {
                    assert(final(self).log() =~~= full.take(final(self).log().len() as int));
                }
                return Err(PanelError::Io(e));
            },
        }
        let mut k: usize = 0;
        while k < 16
            invariant
                fbuf.wf(),
                k <= 16,
                self.address() == old(self).address(),
                self.is_init() == old(self).is_init(),
                old(self).is_init(),
                full == old(self).log() + flush_txns(old(self).address(), fbuf@),
                self.log() =~~= full.take(old(self).log().len() + 1 + k as int),
            decreases 16 - k,
        {
            let mut framed: Vec<u8> = Vec::new();
            framed.push(CTRL_DATA);
            proof {
                assert(framed@ =~= seq![CTRL_DATA] + fbuf@.subrange(
                    32 * k as int,
                    32 * k as int,
                ));
            }
            let mut j: usize = 0;
            while j < 32
                invariant
                    fbuf.wf(),
                    k < 16,
                    j <= 32,
                    framed@ == seq![CTRL_DATA] + fbuf@.subrange(
                        32 * k as int,
                        32 * k as int + j as int,
                    ),
                decreases 32 - j,
            {
                framed.push(fbuf.byte_at(32 * k + j));
                proof {
                    assert(framed@ =~= seq![CTRL_DATA] + fbuf@.subrange(
                        32 * k as int,
                        32 * k as int + j as int + 1,
                    ));
                }
                j += 1;
            }
            proof {
                assert(framed@ == seq![CTRL_DATA] + fbuf@.subrange(
                    32 * k as int,
                    32 * k as int + 32,
                ));
            }
            let ghost before = self.log();
            match self.transport.write(self.addr, framed.as_slice()) {
                Ok(()) => {
                    proof {
                        assert(before.push(
                            data_txn(old(self).address(), fbuf@.subrange(
                                32 * k as int,
                                32 * k as int + 32,
                            )),
                        ) =~~= full.take(old(self).log().len() + 1 + k as int + 1));
                        assert(self.log() =~~= full.take(old(self).log().len() + 1 + k as int + 1));
                    }
                },
                Err(e) => {
                    proof {
                        assert(final(self).log() =~~= full.take(
                            final(self).log().len() as int,
                        ));
                    }
                    return Err(PanelError::Io(e));
                },
            }
            k += 1;
        }
        proof {
            assert(final(self).log() =~~= old(self).log() + flush_txns(
                old(self).address(),
                fbuf@,
            ));
        }
        Ok(())
    }
}

} // verus!
