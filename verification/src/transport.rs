//! The byte-transport capability the driver writes through.
//!
//! The driver never reads from the bus: its whole observable behaviour is the
//! sequence of addressed byte writes it issues. A [`Transport`] therefore
//! carries a ghost log of the transactions performed so far, and `write`
//! either appends exactly one transaction or fails leaving the log unchanged.
//!
//! Two in-memory implementations are provided so that the driver's command
//! streams can be exercised without hardware: [`VecTransport`] records every
//! write, and [`FailingTransport`] records writes until a programmed number of
//! successes is exhausted, then reports a bus error.

use vstd::prelude::*;

verus! {

/// The bus reported a failure (nack, arbitration loss, hardware timeout)
/// while a write was in flight.
#[derive(Clone, Copy, PartialEq, Eq, Structural, Debug)]
pub struct BusError;

/// One addressed write as it went over the bus: the target address and the
/// full payload, control byte included.
pub struct Transaction {
    pub address: u8,
    pub bytes: Seq<u8>,
}

/// Capability to send an addressed byte sequence over the bus.
///
/// `transactions` is the ghost history of completed writes. A successful
/// `write` appends exactly one transaction with the given address and payload;
/// a failed one leaves the history as it was, so a caller that stops at the
/// first error has sent exactly a prefix of what it intended.
pub trait Transport: Sized {
    /// The writes completed so far, oldest first.
    spec fn transactions(&self) -> Seq<Transaction>;

    /// Send `payload` to the device at `address`, blocking until the bus
    /// accepts or rejects it.
    fn write(&mut self, address: u8, payload: &[u8]) -> (r: Result<(), BusError>)
        ensures
            r is Ok ==> final(self).transactions() == old(self).transactions().push(
                (Transaction { address, bytes: payload@ }),
            ),
            r is Err ==> final(self).transactions() == old(self).transactions(),
    ;
}

/// Map one recorded `(address, payload)` pair to its transaction view.
pub open spec fn record_view(record: (u8, Vec<u8>)) -> Transaction {
    Transaction { address: record.0, bytes: record.1@ }
}

/// An in-memory transport that accepts every write and records it, for
/// driving the protocol layer without hardware.
pub struct VecTransport {
    /// Every write performed, oldest first, as `(address, payload)`.
    pub writes: Vec<(u8, Vec<u8>)>,
}

impl VecTransport {
    /// A recorder with an empty history.
    pub fn new() -> (r: VecTransport)
        ensures
            r.transactions() == Seq::<Transaction>::empty(),
    {
        let r = VecTransport { writes: Vec::new() };
        proof {
            assert(r.transactions() =~= Seq::<Transaction>::empty());
        }
        r
    }
}

impl Transport for VecTransport {
    open spec fn transactions(&self) -> Seq<Transaction> {
        self.writes@.map_values(|record: (u8, Vec<u8>)| record_view(record))
    }

    fn write(&mut self, address: u8, payload: &[u8]) -> (r: Result<(), BusError>)
        ensures
            r is Ok,
    {
        let bytes = copy_bytes(payload);
        self.writes.push((address, bytes));
        proof {
            assert(self.transactions() =~= old(self).transactions().push(
                (Transaction { address, bytes: payload@ }),
            ));
        }
        Ok(())
    }
}

/// An in-memory transport that accepts a programmed number of writes and then
/// fails every further one, for exercising error propagation.
pub struct FailingTransport {
    /// Every successful write, oldest first, as `(address, payload)`.
    pub writes: Vec<(u8, Vec<u8>)>,
    /// How many more writes will succeed before the bus starts failing.
    pub successes_left: usize,
}

impl FailingTransport {
    /// A transport whose first `successes` writes succeed and whose later
    /// writes all fail.
    pub fn new(successes: usize) -> (r: FailingTransport)
        ensures
            r.transactions() == Seq::<Transaction>::empty(),
            r.successes_left == successes,
    {
        let r = FailingTransport { writes: Vec::new(), successes_left: successes };
        proof {
            assert(r.transactions() =~= Seq::<Transaction>::empty());
        }
        r
    }
}

impl Transport for FailingTransport {
    open spec fn transactions(&self) -> Seq<Transaction> {
        self.writes@.map_values(|record: (u8, Vec<u8>)| record_view(record))
    }

    fn write(&mut self, address: u8, payload: &[u8]) -> (r: Result<(), BusError>)
        ensures
            r is Ok <==> old(self).successes_left > 0,
            old(self).successes_left > 0 ==> final(self).successes_left == old(
                self,
            ).successes_left - 1,
            old(self).successes_left == 0 ==> *final(self) == *old(self),
    {
        if self.successes_left == 0 {
            Err(BusError)
        } else {
            self.successes_left = self.successes_left - 1;
            let bytes = copy_bytes(payload);
            self.writes.push((address, bytes));
            proof {
                assert(self.transactions() =~= old(self).transactions().push(
                    (Transaction { address, bytes: payload@ }),
                ));
            }
            Ok(())
        }
    }
}

/// Copy a byte slice into an owned vector.
fn copy_bytes(payload: &[u8]) -> (r: Vec<u8>)
    ensures
        r@ == payload@,
{
    let mut r: Vec<u8> = Vec::new();
    let mut i: usize = 0;
    while i < payload.len()
        invariant
            i <= payload@.len(),
            r@ == payload@.take(i as int),
        decreases payload@.len() - i,
    {
        r.push(payload[i]);
        proof {
            assert(r@ =~= payload@.take(i + 1));
        }
        i = i + 1;
    }
    proof {
        assert(payload@.take(payload@.len() as int) =~= payload@);
    }
    r
}

} // verus!
