//! The bus transport capability and its transaction model.
//!
//! Every peripheral driver in this crate talks to its device through the
//! [`Bus`] trait: a write transaction and a combined write-then-read
//! transaction against a device at a fixed bus address. The embedding
//! program supplies the implementation that drives the real two-wire bus;
//! this module also provides [`MockBus`], an in-memory implementation used
//! by the tests and the simulator.
//!
//! The model is a pair of logs. Each `Bus` value carries a ghost sequence
//! of the [`Transaction`]s it has acknowledged — every driver contract is
//! stated as "on success, exactly these bytes were appended to the
//! history, in this order" — and a ghost sequence of the [`BusError`]s it
//! has reported, one per refused transaction. The second log is what
//! makes the error policy provable: a function whose contract says "on
//! `Err(e)`, exactly one refusal was recorded and it reported `e`" can
//! neither substitute another error value nor quietly retry until the bus
//! gives in.

use vstd::prelude::*;

verus! {

/// A bus-level failure, surfaced verbatim to the caller of any register
/// transaction. The codec and the drivers never retry.
#[derive(Clone, Copy, Debug, PartialEq, Eq, Structural)]
pub enum BusError {
    /// The device did not acknowledge the transfer.
    NoAcknowledge,
    /// Bus arbitration was lost to another master.
    ArbitrationLoss,
    /// The transfer timed out.
    Timeout,
}

/// One completed bus transaction, as recorded in a [`Bus`] history.
#[verifier::ext_equal]
pub enum Transaction {
    /// `bytes` were written to the device at `addr` in one transaction.
    Write { addr: u8, bytes: Seq<u8> },
    /// `sent` was written to the device at `addr`, then `received` was
    /// read back, all in one transaction.
    WriteRead { addr: u8, sent: Seq<u8>, received: Seq<u8> },
}

/// True when `after` is `before` extended by some strict prefix of the
/// planned transactions `planned`: the shape a history is left in when a
/// planned run of writes stops at its first failure.
pub open spec fn extended_by_prefix(
    before: Seq<Transaction>,
    after: Seq<Transaction>,
    planned: Seq<Transaction>,
) -> bool {
    exists|k: int|
        #![trigger planned.subrange(0, k)]
        0 <= k < planned.len() && after == before + planned.subrange(0, k)
}

/// True when `t` is a write-then-read at `addr` that sent `sent` and read
/// `n` bytes back.
pub open spec fn is_write_read(t: Transaction, addr: u8, sent: Seq<u8>, n: int) -> bool {
    match t {
        Transaction::WriteRead { addr: a, sent: s, received } => a == addr && s == sent
            && received.len() == n,
        Transaction::Write { .. } => false,
    }
}

/// The bytes a write-then-read transaction read back.
pub open spec fn read_result(t: Transaction) -> Seq<u8> {
    match t {
        Transaction::WriteRead { received, .. } => received,
        Transaction::Write { .. } => Seq::empty(),
    }
}

/// The bus transport capability that the embedding program supplies.
///
/// An implementation's `history()` is the sequence of transactions it has
/// acknowledged so far; its `failures()` is the sequence of errors it has
/// reported, one per refused transaction. A successful call appends
/// exactly its transaction to the history and records no failure; a
/// failed call leaves the history unchanged and records exactly the error
/// it returns. What a read returns is up to the device, but its length
/// and its place in the history are pinned down.
pub trait Bus {
    /// The transactions acknowledged so far, oldest first.
    spec fn history(&self) -> Seq<Transaction>;

    /// The errors reported so far, one per refused transaction, oldest
    /// first.
    spec fn failures(&self) -> Seq<BusError>;

    /// One write transaction: `bytes`, to the device at `addr`.
    fn write(&mut self, addr: u8, bytes: Vec<u8>) -> (r: Result<(), BusError>)
        ensures
            r is Ok ==> final(self).history() == old(self).history().push(
                Transaction::Write { addr, bytes: bytes@ },
            ) && final(self).failures() == old(self).failures(),
            r matches Err(e) ==> final(self).history() == old(self).history()
                && final(self).failures() == old(self).failures().push(e),
    ;

    /// One write-then-read transaction: `sent` to the device at `addr`,
    /// then exactly `read_len` bytes read back.
    fn write_read(&mut self, addr: u8, sent: Vec<u8>, read_len: usize) -> (r: Result<
        Vec<u8>,
        BusError,
    >)
        ensures
            r matches Ok(received) ==> received@.len() == read_len && final(self).history() == old(
                self,
            ).history().push(
                Transaction::WriteRead { addr, sent: sent@, received: received@ },
            ) && final(self).failures() == old(self).failures(),
            r matches Err(e) ==> final(self).history() == old(self).history()
                && final(self).failures() == old(self).failures().push(e),
    ;
}

/// An exec-level record of one transaction, kept by [`MockBus`] so that
/// tests can inspect the exact bytes a driver put on the bus.
#[derive(Debug, PartialEq, Eq)]
pub enum TransactionRecord {
    /// See [`Transaction::Write`].
    Write { addr: u8, bytes: Vec<u8> },
    /// See [`Transaction::WriteRead`].
    WriteRead { addr: u8, sent: Vec<u8>, received: Vec<u8> },
}

impl View for TransactionRecord {
    type V = Transaction;

    open spec fn view(&self) -> Transaction {
        match self {
            TransactionRecord::Write { addr, bytes } => Transaction::Write {
                addr: *addr,
                bytes: bytes@,
            },
            TransactionRecord::WriteRead { addr, sent, received } => Transaction::WriteRead {
                addr: *addr,
                sent: sent@,
                received: received@,
            },
        }
    }
}

/// A scripted failure: the transaction attempted once `after` more have
/// gone through is refused with `error`.
#[derive(Clone, Copy, Debug, PartialEq, Eq, Structural)]
pub struct Fault {
    /// How many more transactions go through before the failure.
    pub after: usize,
    /// The error the failing transaction reports.
    pub error: BusError,
}

/// An in-memory [`Bus`]: acknowledges every transaction, records each one,
/// answers reads from a queue of scripted replies, and can be told to fail
/// a coming transaction with a chosen [`BusError`].
pub struct MockBus {
    /// Every acknowledged transaction, oldest first.
    pub log: Vec<TransactionRecord>,
    /// The error of every refused transaction, oldest first.
    pub refusals: Vec<BusError>,
    /// Replies for coming read transactions, consumed front first. A read
    /// finding no reply of the requested length is not acknowledged.
    pub replies: Vec<Vec<u8>>,
    /// When set, the scripted failure still to happen (cleared once it
    /// does).
    pub fault: Option<Fault>,
}

impl MockBus {
    /// A bus with empty logs, no scripted replies and no fault.
    pub fn new() -> (r: MockBus)
        ensures
            r.history() == Seq::<Transaction>::empty(),
            r.failures() == Seq::<BusError>::empty(),
            r.replies@.len() == 0,
            r.fault is None,
    {
        MockBus { log: Vec::new(), refusals: Vec::new(), replies: Vec::new(), fault: None }
    }

    /// Script the reply for the next unanswered read transaction.
    pub fn queue_reply(&mut self, data: Vec<u8>)
        ensures
            final(self).replies@ == old(self).replies@.push(data),
            final(self).history() == old(self).history(),
            final(self).failures() == old(self).failures(),
            final(self).fault == old(self).fault,
    {
        self.replies.push(data);
    }

    /// Make the next transaction fail with `error`.
    pub fn inject_fault(&mut self, error: BusError)
        ensures
            final(self).fault == Some(Fault { after: 0, error }),
            final(self).history() == old(self).history(),
            final(self).failures() == old(self).failures(),
    {
        self.fault = Some(Fault { after: 0, error });
    }

    /// Let `after` more transactions go through, then fail one with
    /// `error`.
    pub fn inject_fault_after(&mut self, after: usize, error: BusError)
        ensures
            final(self).fault == Some(Fault { after, error }),
            final(self).history() == old(self).history(),
            final(self).failures() == old(self).failures(),
    {
        self.fault = Some(Fault { after, error });
    }
}

impl Bus for MockBus {
    open spec fn history(&self) -> Seq<Transaction> {
        self.log@.map_values(|t: TransactionRecord| t@)
    }

    open spec fn failures(&self) -> Seq<BusError> {
        self.refusals@
    }

    fn write(&mut self, addr: u8, bytes: Vec<u8>) -> (r: Result<(), BusError>) {
        if let Some(error) = take_fault(&mut self.fault) {
            self.refusals.push(error);
            return Err(error);
        }
        let ghost previous = self.log@;
        self.log.push(TransactionRecord::Write { addr, bytes });
        proof {
            assert(self.history() =~= previous.map_values(|t: TransactionRecord| t@).push(
                self.log@[previous.len() as int]@,
            ));
        }
        Ok(())
    }

    fn write_read(&mut self, addr: u8, sent: Vec<u8>, read_len: usize) -> (r: Result<
        Vec<u8>,
        BusError,
    >) {
        if let Some(error) = take_fault(&mut self.fault) {
            self.refusals.push(error);
            return Err(error);
        }
        if self.replies.len() == 0 {
            self.refusals.push(BusError::NoAcknowledge);
            return Err(BusError::NoAcknowledge);
        }
        let received = self.replies.remove(0);
        if received.len() != read_len {
            self.refusals.push(BusError::NoAcknowledge);
            return Err(BusError::NoAcknowledge);
        }
        let data = clone_bytes(&received);
        let ghost previous = self.log@;
        self.log.push(TransactionRecord::WriteRead { addr, sent, received });
        proof {
            assert(self.history() =~= previous.map_values(|t: TransactionRecord| t@).push(
                self.log@[previous.len() as int]@,
            ));
        }
        Ok(data)
    }
}

/// Advance the fault script by one attempted transaction: the error to
/// report now, if the script says this is the failing one.
fn take_fault(fault: &mut Option<Fault>) -> (r: Option<BusError>)
    ensures
        r matches Some(e) ==> *old(fault) == Some(Fault { after: 0, error: e })
            && *final(fault) is None,
{
    match *fault {
        None => None,
        Some(f) => {
            if f.after == 0 {
                *fault = None;
                Some(f.error)
            } else {
                *fault = Some(Fault { after: f.after - 1, error: f.error });
                None
            }
        },
    }
}

/// An element-for-element copy of a byte vector.
fn clone_bytes(v: &Vec<u8>) -> (r: Vec<u8>)
    ensures
        r@ == v@,
{
    let mut r: Vec<u8> = Vec::new();
    let mut i: usize = 0;
    while i < v.len()
        invariant
            i <= v@.len(),
            r@ == v@.subrange(0, i as int),
        decreases v@.len() - i,
    {
        r.push(v[i]);
        proof {
            assert(r@ =~= v@.subrange(0, i + 1));
        }
        i += 1;
    }
    proof {
        assert(r@ =~= v@);
    }
    r
}

} // verus!
