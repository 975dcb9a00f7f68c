//! The two-wire bus, and the bridge that gives a blocking write over a bus
//! master that only offers a suspend-based one.
//!
//! A blocking write is a [`PendingWrite`] that is advanced, poll after poll,
//! until the bus master reports the end of the transaction. Nothing else runs
//! in between: the caller keeps polling and never goes back to the scheduler.
//! The types make the protocol one-way. An [`Adapter`] is consumed by the
//! write it starts and comes back only with the transaction's outcome.

use vstd::prelude::*;
use vstd::slice::slice_to_vec;
use crate::peripherals::BusHandle;

verus! {

/// Seven-bit bus address of the display.
pub const DISPLAY_ADDRESS: u8 = 0x3C;

/// Why a bus transaction failed.
#[derive(Clone, Copy, Debug, PartialEq, Eq, Structural)]
pub enum BusError {
    /// Misplaced start or stop condition.
    Bus,
    /// Another master won the bus.
    Arbitration,
    /// The addressed device did not acknowledge.
    Nack,
    /// The transaction did not finish in time.
    Timeout,
    /// Packet error check failed.
    Crc,
    /// Data was lost in the peripheral.
    Overrun,
    /// A transfer of no bytes was asked for.
    ZeroLengthTransfer,
}

/// What the bus master answers when its pending operation is polled.
#[derive(Clone, Copy, Debug, PartialEq, Eq)]
pub enum BusPoll {
    /// The transaction is still under way.
    Pending,
    /// The transaction is over: every byte was accepted, or it failed.
    Ready(Result<(), BusError>),
}

/// The blocking bridge, between two writes. It owns the bus master.
#[derive(Debug)]
pub struct Adapter {
    bus: BusHandle,
}

/// A blocking write that has been handed to the bus master and is not over.
#[derive(Debug)]
pub struct PendingWrite {
    adapter: Adapter,
    address: u8,
    bytes: Vec<u8>,
}

/// The bridge after one poll of the bus master.
#[derive(Debug)]
pub enum Advance {
    /// The transaction is still under way: poll again, at once.
    Again(PendingWrite),
    /// The transaction is over. The blocking write returns this outcome.
    Done(Adapter, Result<(), BusError>),
}

/// The bridge after a run of polls.
#[derive(Debug)]
pub enum Driven {
    /// The bus master reported the end of the transaction at the poll with
    /// index `polls - 1`.
    Done { adapter: Adapter, outcome: Result<(), BusError>, polls: usize },
    /// Every poll found the transaction still under way.
    Starved(PendingWrite),
}

/// Whether the first `n` polls all found the transaction under way.
pub open spec fn all_pending(polls: Seq<BusPoll>, n: int) -> bool {
    forall|i: int| 0 <= i < n ==> (#[trigger] polls[i]) is Pending
}

impl Adapter {
    /// The bus master the bridge owns.
    pub closed spec fn bus(&self) -> BusHandle {
        self.bus
    }

    /// A bridge over the bus master. The bus master is the bridge's from
    /// here on.
    pub fn new(bus: BusHandle) -> (adapter: Adapter)
        ensures
            adapter.bus() == bus,
    {
        Adapter { bus }
    }

    /// Starts a blocking write of `bytes` to the device at `address`.
    ///
    /// The pending write carries the address and the whole byte sequence, as
    /// given: this is what the bus master is handed.
    pub fn write(self, address: u8, bytes: &[u8]) -> (pending: PendingWrite)
        ensures
            pending.address() == address,
            pending.bytes() == bytes@,
            pending.bridge() == self,
    {
        PendingWrite { adapter: self, address, bytes: slice_to_vec(bytes) }
    }

    /// Takes the bridge apart and gives back the bus master it was made
    /// over.
    pub fn release(self) -> (bus: BusHandle)
        ensures
            bus == self.bus(),
    {
        self.bus
    }
}

impl PendingWrite {
    /// The bridge that started the write and comes back when it is over.
    pub closed spec fn bridge(&self) -> Adapter {
        self.adapter
    }

    /// Address of the device written to.
    pub closed spec fn address(&self) -> u8 {
        self.address
    }

    /// The bytes of the transaction.
    pub closed spec fn bytes(&self) -> Seq<u8> {
        self.bytes@
    }

    /// Address of the device written to.
    pub fn target(&self) -> (address: u8)
        ensures
            address == self.address(),
    {
        self.address
    }

    /// The bytes of the transaction, all of them.
    pub fn payload(&self) -> (bytes: &Vec<u8>)
        ensures
            bytes@ == self.bytes(),
    {
        &self.bytes
    }

    /// Takes the answer of one poll of the bus master.
    ///
    /// While the transaction is under way the same write stays pending. Once
    /// the bus master reports its end, the write is over and its outcome is
    /// the bus master's: success as success, an error as that error.
    pub fn advance(self, poll: BusPoll) -> (next: Advance)
        ensures
            match poll {
                BusPoll::Pending => {
                    &&& next matches Advance::Again(pending)
                    &&& pending.address() == self.address()
                    &&& pending.bytes() == self.bytes()
                    &&& pending.bridge() == self.bridge()
                },
                BusPoll::Ready(outcome) => {
                    &&& next matches Advance::Done(adapter, returned)
                    &&& returned == outcome
                    &&& adapter == self.bridge()
                },
            },
    {
        match poll {
            BusPoll::Pending => Advance::Again(self),
            BusPoll::Ready(outcome) => Advance::Done(self.adapter, outcome),
        }
    }

    /// Drives the write through the answers of successive polls, in order,
    /// without stopping at a pending one.
    ///
    /// The write ends at the first answer that reports the end of the
    /// transaction, with that outcome unchanged; later answers are not looked
    /// at. If every answer is pending, the same write is still pending.
    pub fn drive(self, polls: &Vec<BusPoll>) -> (end: Driven)
        ensures
            match end {
                Driven::Done { adapter, outcome, polls: used } => {
                    &&& 0 < used <= polls.len()
                    &&& all_pending(polls@, used - 1)
                    &&& polls[used - 1] == BusPoll::Ready(outcome)
                    &&& adapter == self.bridge()
                },
                Driven::Starved(pending) => {
                    &&& all_pending(polls@, polls.len() as int)
                    &&& pending.address() == self.address()
                    &&& pending.bytes() == self.bytes()
                    &&& pending.bridge() == self.bridge()
                },
            },
    {
        let mut pending = self;
        let mut i: usize = 0;
        while i < polls.len()
            invariant
                i <= polls.len(),
                all_pending(polls@, i as int),
                pending.address() == self.address(),
                pending.bytes() == self.bytes(),
                pending.bridge() == self.bridge(),
            decreases polls.len() - i,
        {
            match pending.advance(polls[i]) {
                Advance::Again(same) => {
                    pending = same;
                },
                Advance::Done(adapter, outcome) => {
                    return Driven::Done { adapter, outcome, polls: i + 1 };
                },
            }
            i += 1;
        }
        Driven::Starved(pending)
    }
}

} // verus!
