//! The CPU's view of the outside world: a byte bus with idle cycles and an
//! interrupt query.
//!
//! Every bus operation is recorded in a ghost trace, so CPU contracts can
//! state exactly which reads, writes, idles, and interrupt acknowledgements
//! an instruction performs, and in which order — instruction timing is
//! load-bearing for synchronization with the other chips.

use vstd::prelude::*;
use crate::gb::sm83::InterruptType;

verus! {

/// One observable bus operation.
#[derive(Debug, Clone, Copy, PartialEq, Eq, Structural)]
pub enum BusOp {
    Read { address: u16, value: u8 },
    Write { address: u16, value: u8 },
    Idle,
    Ack { interrupt: InterruptType },
}

/// The data byte carried by a read or write operation.
pub open spec fn op_value(op: BusOp) -> u8 {
    match op {
        BusOp::Read { address: _, value } => value,
        BusOp::Write { address: _, value } => value,
        BusOp::Idle => 0,
        BusOp::Ack { .. } => 0,
    }
}

/// The bus the SM83 executes against.
///
/// `ops()` is the ghost trace of operations performed so far and `pending()`
/// the interrupt query's current answer. Writes and idle cycles are assumed
/// not to change the answer within one instruction; the answer changes
/// between instructions (peripheral events) or by acknowledgement.
pub trait BusInterface: Sized {
    /// Ghost trace of every operation performed on this bus.
    spec fn ops(&self) -> Seq<BusOp>;

    /// The highest-priority pending interrupt, if any.
    spec fn pending(&self) -> Option<InterruptType>;

    /// Read one byte.
    fn read(&mut self, address: u16) -> (value: u8)
        ensures
            final(self).ops() == old(self).ops().push(BusOp::Read { address, value }),
            final(self).pending() == old(self).pending();

    /// Write one byte.
    fn write(&mut self, address: u16, value: u8)
        ensures
            final(self).ops() == old(self).ops().push(BusOp::Write { address, value }),
            final(self).pending() == old(self).pending();

    /// Let one M-cycle elapse with no bus access.
    fn idle(&mut self)
        ensures
            final(self).ops() == old(self).ops().push(BusOp::Idle),
            final(self).pending() == old(self).pending();

    /// Query the highest-priority pending interrupt.
    fn highest_priority_interrupt(&self) -> (r: Option<InterruptType>)
        ensures
            r == self.pending();

    /// Acknowledge (clear) exactly the given interrupt source.
    fn acknowledge_interrupt(&mut self, interrupt_type: InterruptType)
        ensures
            final(self).ops() == old(self).ops().push(BusOp::Ack { interrupt: interrupt_type }),
            final(self).pending() is Some && final(self).pending() != Some(interrupt_type)
                ==> final(self).pending() == old(self).pending();
}

/// A flat 64 KiB RAM bus with a single software-settable interrupt line:
/// the simplest faithful [`BusInterface`], used to run the CPU in isolation.
pub struct FlatBus {
    pub mem: Vec<u8>,
    pub pending_interrupt: Option<InterruptType>,
    pub trace: Ghost<Seq<BusOp>>,
}

impl FlatBus {
    pub open spec fn wf(self) -> bool {
        self.mem.len() == 0x10000
    }

    /// A bus whose memory is all zeroes and with no interrupt pending.
    pub fn new() -> (r: Self)
        ensures
            r.wf(),
            r.ops() == Seq::<BusOp>::empty(),
            r.pending() is None,
            forall|i: int| 0 <= i < 0x10000 ==> r.mem[i] == 0u8,
    {
        let mut mem: Vec<u8> = Vec::new();
        let mut i: usize = 0;
        while i < 0x10000
            invariant
                i <= 0x10000,
                mem.len() == i,
                forall|j: int| 0 <= j < i ==> mem[j] == 0u8,
            decreases 0x10000 - i,
        {
            mem.push(0);
            i = i + 1;
        }
        FlatBus { mem, pending_interrupt: Option::None, trace: Ghost(Seq::empty()) }
    }

    /// Store a byte directly (for loading a program), without a bus trace.
    pub fn poke(&mut self, address: u16, value: u8)
        requires
            old(self).wf(),
        ensures
            final(self).wf(),
            final(self).mem@ == old(self).mem@.update(address as int, value),
            final(self).pending() == old(self).pending(),
            final(self).ops() == old(self).ops(),
    {
        self.mem.set(address as usize, value);
    }

    /// Read a byte directly (for inspecting memory), without a bus trace.
    pub fn peek(&self, address: u16) -> (r: u8)
        requires
            self.wf(),
        ensures
            r == self.mem[address as int],
    {
        self.mem[address as usize]
    }

    /// Raise an interrupt line.
    pub fn set_pending_interrupt(&mut self, interrupt: Option<InterruptType>)
        requires
            old(self).wf(),
        ensures
            final(self).wf(),
            final(self).pending() == interrupt,
            final(self).mem@ == old(self).mem@,
            final(self).ops() == old(self).ops(),
    {
        self.pending_interrupt = interrupt;
    }
}

impl BusInterface for FlatBus {
    open spec fn ops(&self) -> Seq<BusOp> {
        self.trace@
    }

    open spec fn pending(&self) -> Option<InterruptType> {
        self.pending_interrupt
    }

    fn read(&mut self, address: u16) -> (value: u8)
        ensures
            value == (if (address as int) < old(self).mem.len() {
                old(self).mem[address as int]
            } else {
                0xFFu8
            }),
            final(self).mem@ == old(self).mem@,
    {
        let value = if (address as usize) < self.mem.len() {
            self.mem[address as usize]
        } else {
            // Open bus: an unmapped address reads as 0xFF.
            0xFF
        };
        self.trace = Ghost(self.trace@.push(BusOp::Read { address, value }));
        value
    }

    fn write(&mut self, address: u16, value: u8)
        ensures
            final(self).mem@ == (if (address as int) < old(self).mem.len() {
                old(self).mem@.update(address as int, value)
            } else {
                old(self).mem@
            }),
    {
        if (address as usize) < self.mem.len() {
            self.mem.set(address as usize, value);
        }
        self.trace = Ghost(self.trace@.push(BusOp::Write { address, value }));
    }

    fn idle(&mut self)
        ensures
            final(self).mem@ == old(self).mem@,
    {
        self.trace = Ghost(self.trace@.push(BusOp::Idle));
    }

    fn highest_priority_interrupt(&self) -> (r: Option<InterruptType>) {
        self.pending_interrupt
    }

    fn acknowledge_interrupt(&mut self, interrupt_type: InterruptType)
        ensures
            final(self).mem@ == old(self).mem@,
            final(self).pending() is None,
    {
        self.pending_interrupt = Option::None;
        self.trace = Ghost(self.trace@.push(BusOp::Ack { interrupt: interrupt_type }));
    }
}

} // verus!
