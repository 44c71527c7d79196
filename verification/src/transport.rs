//! The I2C bus as seen by the display pipeline: a blocking,
//! byte-oriented master writing to one 7-bit addressed slave.
//!
//! The bus is modelled by the [`Transport`] trait, whose ghost `log`
//! is the sequence of fully acknowledged transactions. Host-side test
//! doubles live here too: one that records every write and one that
//! always fails.

use vstd::prelude::*;

verus! {

/// One acknowledged I2C write: a slave address and the bytes sent.
#[verifier::ext_equal]
pub struct Txn {
    pub addr: u8,
    pub data: Seq<u8>,
}

/// Why an I2C write failed.
#[derive(Clone, Copy, Debug, PartialEq, Eq, Structural)]
pub enum TransportError {
    /// The slave did not acknowledge a byte.
    Nack,
    /// Arbitration loss or another bus fault.
    BusError,
    /// The controller timed out.
    Timeout,
}

/// A blocking I2C master. `log` is the sequence of transactions the
/// slave has acknowledged; a successful `write` appends exactly one
/// transaction and a failed one appends nothing.
pub trait Transport: Sized {
    /// All transactions acknowledged so far, oldest first.
    spec fn log(&self) -> Seq<Txn>;

    /// Write `data` to the 7-bit slave address `addr`, blocking until
    /// every byte is acknowledged or the controller reports a fault.
    fn write(&mut self, addr: u8, data: &[u8]) -> (r: Result<(), TransportError>)
        ensures
            r is Ok ==> final(self).log() == old(self).log().push(
                Txn { addr, data: data@ },
            ),
            r is Err ==> final(self).log() == old(self).log(),
    ;
}

/// A host-side bus double that acknowledges and records every write.
pub struct RecordingTransport {
    /// Every write so far, oldest first.
    pub writes: Vec<(u8, Vec<u8>)>,
}

impl RecordingTransport {
    /// A double with an empty record.
    pub fn new() -> (r: Self)
        ensures
            r.log() == Seq::<Txn>::empty(),
            r.writes@.len() == 0,
    {
        let r = RecordingTransport { writes: Vec::new() };
        proof {
            assert(r.log() =~= Seq::<Txn>::empty());
        }
        r
    }
}

impl Transport for RecordingTransport {
    open spec fn log(&self) -> Seq<Txn> {
        self.writes@.map(|i: int, w: (u8, Vec<u8>)| Txn { addr: w.0, data: w.1@ })
    }

    fn write(&mut self, addr: u8, data: &[u8]) -> (r: Result<(), TransportError>) {
        let mut copy: Vec<u8> = Vec::new();
        let mut i: usize = 0;
        while i < data.len()
            invariant
                i <= data@.len(),
                copy@ == data@.take(i as int),
            decreases data@.len() - i,
        {
            copy.push(data[i]);
            proof {
                assert(copy@ =~= data@.take(i as int + 1));
            }
            i += 1;
        }
        proof {
            assert(copy@ =~= data@);
        }
        self.writes.push((addr, copy));
        proof {
            assert(self.log() =~~= old(self).log().push(Txn { addr, data: data@ }));
        }
        Ok(())
    }
}

/// A host-side bus double standing in for a dead bus: every write
/// fails with the chosen error and nothing is acknowledged.
pub struct FailingTransport {
    /// The fault every write reports.
    pub error: TransportError,
}

impl FailingTransport {
    /// A double whose every write fails with `error`.
    pub fn new(error: TransportError) -> (r: Self)
        ensures
            r.log() == Seq::<Txn>::empty(),
            r.error == error,
    {
        FailingTransport { error }
    }
}

impl Transport for FailingTransport {
    open spec fn log(&self) -> Seq<Txn> {
        Seq::empty()
    }

    fn write(&mut self, addr: u8, data: &[u8]) -> (r: Result<(), TransportError>)
        ensures
            r == Err::<(), TransportError>(old(self).error),
    {
        Err(self.error)
    }
}

} // verus!
