//! Sharp SM83, the Game Boy CPU: an 8-bit register file with a 16-bit
//! address bus, executed one instruction per call against a
//! [`bus::BusInterface`].
//!
//! The decode is a total function of the opcode byte: every value maps to
//! exactly one handler or to the explicit invalid-opcode lockup, and the
//! contracts pin down which flags each instruction may change.

pub mod arithmetic;
pub mod bitops;
pub mod bus;
pub mod flow;
pub mod load;

use vstd::prelude::*;
use crate::bits::{spec_lsb, spec_msb, spec_word};
use crate::gb::sm83::arithmetic::{
    spec_acc_imm_ensures, spec_acc_op_ensures, spec_add16, spec_add8, spec_and8, spec_apply_acc,
    spec_daa, spec_dec8, spec_inc8, spec_or8, spec_sp_plus_e, spec_sub8, spec_xor8,
};
use crate::gb::sm83::bitops::{
    spec_cb_rmw_ensures, spec_rl, spec_rlc, spec_rr, spec_rrc, spec_sla, spec_sra, spec_srl,
    spec_swap,
};
use crate::gb::sm83::bus::{op_value, BusInterface, BusOp};
use crate::gb::sm83::flow::{spec_condition, spec_jr_target};
use crate::gb::sm83::load::{spec_stack_pair, spec_with_stack_pair};

verus! {

/// The four SM83 flags, stored in the high nibble of F.
#[derive(Debug, Clone, Copy, PartialEq, Eq, Structural)]
pub struct Flags {
    pub zero: bool,
    pub subtract: bool,
    pub half_carry: bool,
    pub carry: bool,
}

impl Flags {
    /// The F register byte: Z at bit 7, N at 6, H at 5, C at 4.
    pub open spec fn spec_to_byte(self) -> u8 {
        ((if self.zero { 0x80int } else { 0int }) + (if self.subtract { 0x40int } else { 0int })
            + (if self.half_carry { 0x20int } else { 0int })
            + (if self.carry { 0x10int } else { 0int })) as u8
    }

    pub open spec fn spec_from_byte(value: u8) -> Flags {
        Flags {
            zero: crate::bits::spec_bit8(value, 7),
            subtract: crate::bits::spec_bit8(value, 6),
            half_carry: crate::bits::spec_bit8(value, 5),
            carry: crate::bits::spec_bit8(value, 4),
        }
    }

    pub fn to_byte(self) -> (r: u8)
        ensures
            r == self.spec_to_byte(),
    {
        (if self.zero { 0x80u8 } else { 0u8 }) + (if self.subtract { 0x40u8 } else { 0u8 })
            + (if self.half_carry { 0x20u8 } else { 0u8 }) + (if self.carry { 0x10u8 } else { 0u8 })
    }

    pub fn from_byte(value: u8) -> (r: Flags)
        ensures
            r == Flags::spec_from_byte(value),
    {
        Flags {
            zero: crate::bits::bit8(value, 7),
            subtract: crate::bits::bit8(value, 6),
            half_carry: crate::bits::bit8(value, 5),
            carry: crate::bits::bit8(value, 4),
        }
    }
}

/// The SM83 register file.
#[derive(Debug, Clone, Copy, PartialEq, Eq, Structural)]
pub struct Registers {
    pub a: u8,
    pub f: Flags,
    pub b: u8,
    pub c: u8,
    pub d: u8,
    pub e: u8,
    pub h: u8,
    pub l: u8,
    pub sp: u16,
    pub pc: u16,
    pub ime: bool,
}

/// Program entry point after the boot ROM hands over.
pub const ENTRY_POINT: u16 = 0x0100;

/// Initial stack pointer (top of HRAM).
pub const HRAM_END: u16 = 0xFFFE;

impl Registers {
    pub open spec fn spec_bc(self) -> u16 {
        spec_word(self.b, self.c)
    }

    pub open spec fn spec_de(self) -> u16 {
        spec_word(self.d, self.e)
    }

    pub open spec fn spec_hl(self) -> u16 {
        spec_word(self.h, self.l)
    }

    pub open spec fn spec_af(self) -> u16 {
        spec_word(self.a, self.f.spec_to_byte())
    }

    /// Post-boot register values of the original DMG.
    pub fn new() -> (r: Self)
        ensures
            r == (Registers {
                a: 0x01,
                f: Flags { zero: true, subtract: false, half_carry: false, carry: false },
                b: 0x00,
                c: 0x13,
                d: 0x00,
                e: 0xD8,
                h: 0x01,
                l: 0x4D,
                sp: HRAM_END,
                pc: ENTRY_POINT,
                ime: false,
            }),
    {
        Self {
            a: 0x01,
            f: Flags { zero: true, subtract: false, half_carry: false, carry: false },
            b: 0x00,
            c: 0x13,
            d: 0x00,
            e: 0xD8,
            h: 0x01,
            l: 0x4D,
            sp: HRAM_END,
            pc: ENTRY_POINT,
            ime: false,
        }
    }

    pub fn bc(&self) -> (r: u16)
        ensures
            r == self.spec_bc(),
    {
        crate::bits::word_from_bytes(self.b, self.c)
    }

    pub fn de(&self) -> (r: u16)
        ensures
            r == self.spec_de(),
    {
        crate::bits::word_from_bytes(self.d, self.e)
    }

    pub fn hl(&self) -> (r: u16)
        ensures
            r == self.spec_hl(),
    {
        crate::bits::word_from_bytes(self.h, self.l)
    }

    pub fn af(&self) -> (r: u16)
        ensures
            r == self.spec_af(),
    {
        crate::bits::word_from_bytes(self.a, self.f.to_byte())
    }

    pub fn set_bc(&mut self, value: u16)
        ensures
            *final(self) == (Registers {
                b: spec_msb(value),
                c: spec_lsb(value),
                ..*old(self)
            }),
    {
        self.b = crate::bits::word_msb(value);
        self.c = crate::bits::word_lsb(value);
    }

    pub fn set_de(&mut self, value: u16)
        ensures
            *final(self) == (Registers {
                d: spec_msb(value),
                e: spec_lsb(value),
                ..*old(self)
            }),
    {
        self.d = crate::bits::word_msb(value);
        self.e = crate::bits::word_lsb(value);
    }

    pub fn set_hl(&mut self, value: u16)
        ensures
            *final(self) == (Registers {
                h: spec_msb(value),
                l: spec_lsb(value),
                ..*old(self)
            }),
    {
        self.h = crate::bits::word_msb(value);
        self.l = crate::bits::word_lsb(value);
    }

    pub fn increment_sp(&mut self)
        ensures
            *final(self) == (Registers {
                sp: crate::bits::spec_wadd16(old(self).sp, 1),
                ..*old(self)
            }),
    {
        self.sp = self.sp.wrapping_add(1);
    }

    pub fn decrement_sp(&mut self)
        ensures
            *final(self) == (Registers {
                sp: crate::bits::spec_wsub16(old(self).sp, 1),
                ..*old(self)
            }),
    {
        self.sp = self.sp.wrapping_sub(1);
    }

    /// The 8-bit register selected by a 3-bit field (6, the (HL) slot, is
    /// resolved by the caller through the bus).
    pub open spec fn spec_r8(self, bits: u8) -> u8 {
        let sel = bits & 0x7;
        if sel == 0 {
            self.b
        } else if sel == 1 {
            self.c
        } else if sel == 2 {
            self.d
        } else if sel == 3 {
            self.e
        } else if sel == 4 {
            self.h
        } else if sel == 5 {
            self.l
        } else {
            self.a
        }
    }

    /// The register file with the selected 8-bit register replaced.
    pub open spec fn spec_with_r8(self, bits: u8, value: u8) -> Registers {
        let sel = bits & 0x7;
        if sel == 0 {
            Registers { b: value, ..self }
        } else if sel == 1 {
            Registers { c: value, ..self }
        } else if sel == 2 {
            Registers { d: value, ..self }
        } else if sel == 3 {
            Registers { e: value, ..self }
        } else if sel == 4 {
            Registers { h: value, ..self }
        } else if sel == 5 {
            Registers { l: value, ..self }
        } else {
            Registers { a: value, ..self }
        }
    }

    /// The 16-bit pair selected by a 2-bit field: BC, DE, HL, or SP.
    pub open spec fn spec_pair(self, sel: u8) -> u16 {
        if sel & 0x3 == 0 {
            self.spec_bc()
        } else if sel & 0x3 == 1 {
            self.spec_de()
        } else if sel & 0x3 == 2 {
            self.spec_hl()
        } else {
            self.sp
        }
    }

    /// The register file with the selected 16-bit pair replaced.
    pub open spec fn spec_with_pair(self, sel: u8, value: u16) -> Registers {
        if sel & 0x3 == 0 {
            Registers { b: spec_msb(value), c: spec_lsb(value), ..self }
        } else if sel & 0x3 == 1 {
            Registers { d: spec_msb(value), e: spec_lsb(value), ..self }
        } else if sel & 0x3 == 2 {
            Registers { h: spec_msb(value), l: spec_lsb(value), ..self }
        } else {
            Registers { sp: value, ..self }
        }
    }
}

/// Execution-state latches outside the register file.
#[derive(Debug, Clone, Copy, PartialEq, Eq, Structural)]
pub struct State {
    /// EI takes effect only after the following instruction.
    pub pending_ime_set: bool,
    /// The next instruction boundary services an interrupt.
    pub handling_interrupt: bool,
    /// HALT: fetch is suspended until an interrupt is pending.
    pub halted: bool,
    /// HALT with IME clear and an interrupt already pending: the next
    /// opcode fetch does not advance PC.
    pub halt_bug_triggered: bool,
    /// An invalid opcode was executed; the CPU is locked until reset.
    pub executed_invalid_opcode: bool,
    /// A STOP instruction was executed. Low-power mode is not modelled;
    /// the CPU idles until reset (explicit unsupported-instruction stop).
    pub stopped: bool,
}

impl State {
    pub fn new() -> (r: Self)
        ensures
            r == (State {
                pending_ime_set: false,
                handling_interrupt: false,
                halted: false,
                halt_bug_triggered: false,
                executed_invalid_opcode: false,
                stopped: false,
            }),
    {
        Self {
            pending_ime_set: false,
            handling_interrupt: false,
            halted: false,
            halt_bug_triggered: false,
            executed_invalid_opcode: false,
            stopped: false,
        }
    }
}

/// The five SM83 interrupt sources, in priority order.
#[derive(Debug, Clone, Copy, PartialEq, Eq, Structural)]
pub enum InterruptType {
    VBlank,
    LcdStatus,
    Timer,
    Serial,
    Joypad,
}

impl InterruptType {
    /// The fixed handler address for this interrupt source.
    pub open spec fn spec_interrupt_vector(self) -> u16 {
        match self {
            InterruptType::VBlank => 0x0040,
            InterruptType::LcdStatus => 0x0048,
            InterruptType::Timer => 0x0050,
            InterruptType::Serial => 0x0058,
            InterruptType::Joypad => 0x0060,
        }
    }

    pub fn interrupt_vector(self) -> (r: u16)
        ensures
            r == self.spec_interrupt_vector(),
    {
        match self {
            Self::VBlank => 0x0040,
            Self::LcdStatus => 0x0048,
            Self::Timer => 0x0050,
            Self::Serial => 0x0058,
            Self::Joypad => 0x0060,
        }
    }
}

/// The opcodes whose execution permanently locks the CPU.
pub open spec fn spec_is_invalid_opcode(opcode: u8) -> bool {
    ||| opcode == 0xD3
    ||| opcode == 0xDB
    ||| opcode == 0xDD
    ||| opcode == 0xE3
    ||| opcode == 0xE4
    ||| opcode == 0xEB
    ||| opcode == 0xEC
    ||| opcode == 0xED
    ||| opcode == 0xF4
    ||| opcode == 0xFC
    ||| opcode == 0xFD
}

/// The SM83 CPU: register file plus execution-state latches.
#[derive(Debug, Clone, Copy, PartialEq, Eq, Structural)]
pub struct Sm83 {
    pub registers: Registers,
    pub state: State,
}

/// The CPU is permanently frozen: locked by an invalid opcode, or stopped.
pub open spec fn spec_frozen(s: Sm83) -> bool {
    s.state.executed_invalid_opcode || s.state.stopped
}

/// One whole fetch-execute step, as [`Sm83::execute_instruction`] performs
/// it when the CPU is neither frozen nor servicing an interrupt (a halted
/// CPU takes this path only when waking with IME clear): a delayed EI takes
/// effect before the instruction, one opcode is fetched at PC (the halt bug
/// holds PC still for exactly this fetch), that opcode's whole transition
/// ([`spec_opcode_effect`]) is applied, and only then does the interrupt
/// poll arm servicing, exactly when IME is set and an interrupt is pending.
pub open spec fn spec_fetch_execute_ensures(
    pre: Sm83,
    post: Sm83,
    pre_ops: Seq<BusOp>,
    post_ops: Seq<BusOp>,
    pre_pending: Option<InterruptType>,
    post_pending: Option<InterruptType>,
) -> bool {
    let n = pre_ops.len() as int;
    let opcode = op_value(post_ops[n]);
    let fetched = BusOp::Read { address: pre.registers.pc, value: opcode };
    let started = Sm83 {
        registers: Registers {
            ime: pre.registers.ime || pre.state.pending_ime_set,
            ..pre.registers
        },
        state: State { halted: false, pending_ime_set: false, ..pre.state },
    };
    let mid = Sm83 {
        registers: Registers {
            pc: if pre.state.halt_bug_triggered {
                started.registers.pc
            } else {
                crate::bits::spec_wadd16(started.registers.pc, 1)
            },
            ..started.registers
        },
        state: State { halt_bug_triggered: false, ..started.state },
    };
    let executed = Sm83 {
        registers: post.registers,
        state: State { handling_interrupt: mid.state.handling_interrupt, ..post.state },
    };
    &&& post_ops.len() > n
    &&& post_ops[n] == fetched
    &&& spec_opcode_effect(mid, executed, pre_ops.push(fetched), post_ops, pre_pending, opcode)
    &&& post.state.handling_interrupt == (post.registers.ime && post_pending is Some)
}

impl Sm83 {
    pub fn new() -> (r: Self)
        ensures
            r.registers == Registers::new_spec(),
            r.state == (State {
                pending_ime_set: false,
                handling_interrupt: false,
                halted: false,
                halt_bug_triggered: false,
                executed_invalid_opcode: false,
                stopped: false,
            }),
    {
        Self { registers: Registers::new(), state: State::new() }
    }

    /// Execute one instruction, service one interrupt, or idle, against
    /// the given bus. A frozen CPU idles forever; a halted CPU idles until
    /// an interrupt is pending, then wakes and services it exactly when IME
    /// is set (with IME clear the interrupt stays pending and execution
    /// resumes at the next instruction); otherwise one instruction is
    /// fetched and executed and the interrupt lines are polled afterwards.
    ///
    /// The `handling_interrupt` latch is only ever set while the bus reports
    /// a pending interrupt, which the caller must not have withdrawn.
    pub fn execute_instruction<B: BusInterface>(&mut self, bus: &mut B)
        requires
            old(self).state.handling_interrupt ==> old(bus).pending() is Some,
        ensures
            final(self).state.handling_interrupt ==> final(bus).pending() is Some,
            // Frozen: locked or stopped CPUs idle forever.
            spec_frozen(*old(self)) ==> {
                &&& *final(self) == *old(self)
                &&& final(bus).ops() == old(bus).ops().push(BusOp::Idle)
            },
            // Halted with nothing pending: one idle, nothing else changes.
            !spec_frozen(*old(self)) && old(self).state.halted
                && !old(self).state.handling_interrupt && old(bus).pending() is None ==> {
                &&& *final(self) == *old(self)
                &&& final(bus).ops() == old(bus).ops().push(BusOp::Idle)
            },
            // Interrupt service: armed at the previous boundary, or a halted
            // CPU waking with IME set. Pushes PC, acknowledges exactly the
            // pending source, jumps to its vector, and clears IME.
            !spec_frozen(*old(self)) && (old(self).state.handling_interrupt
                || (old(self).state.halted && old(bus).pending() is Some
                    && old(self).registers.ime)) ==> {
                let intr = old(bus).pending()->0;
                let sp1 = crate::bits::spec_wsub16(old(self).registers.sp, 1);
                let sp2 = crate::bits::spec_wsub16(old(self).registers.sp, 2);
                &&& final(self).registers == (Registers {
                    pc: intr.spec_interrupt_vector(),
                    sp: sp2,
                    ime: false,
                    ..old(self).registers
                })
                &&& final(self).state == (State {
                    halted: old(self).state.halted && old(self).state.handling_interrupt,
                    handling_interrupt: false,
                    ..old(self).state
                })
                &&& final(bus).ops() == old(bus).ops()
                    .push(BusOp::Idle)
                    .push(BusOp::Idle)
                    .push(BusOp::Write {
                        address: sp1,
                        value: spec_msb(old(self).registers.pc),
                    })
                    .push(BusOp::Write {
                        address: sp2,
                        value: spec_lsb(old(self).registers.pc),
                    })
                    .push(BusOp::Ack { interrupt: intr })
                    .push(BusOp::Idle)
            },
            // Fetch-execute: not frozen, not servicing, and either running
            // or waking from HALT with IME clear (no service; the interrupt
            // stays pending).
            !spec_frozen(*old(self)) && !old(self).state.handling_interrupt
                && (!old(self).state.halted
                    || (old(bus).pending() is Some && !old(self).registers.ime))
                ==> spec_fetch_execute_ensures(
                    *old(self),
                    *final(self),
                    old(bus).ops(),
                    final(bus).ops(),
                    old(bus).pending(),
                    final(bus).pending(),
                ),
    {
        if self.state.executed_invalid_opcode || self.state.stopped {
            // The CPU is frozen.
            bus.idle();
            return;
        }

        if self.state.halted && !self.state.handling_interrupt {
            // HALT suspends fetch until an interrupt becomes pending; IME is
            // not checked here, so the interrupt is not necessarily serviced.
            if bus.highest_priority_interrupt().is_none() {
                bus.idle();
                return;
            }

            self.state.halted = false;
            if self.registers.ime {
                self.state.handling_interrupt = true;
            }
        }

        if self.state.handling_interrupt {
            self.execute_interrupt_service_routine(bus);
            self.state.handling_interrupt = false;
            return;
        }

        if self.state.pending_ime_set {
            self.registers.ime = true;
            self.state.pending_ime_set = false;
        }

        let ghost ops0 = bus.ops();
        let opcode = self.fetch_operand(bus);
        let ghost mid = *self;
        let ghost ops1 = bus.ops();
        self.execute_opcode(bus, opcode);
        let ghost executed = *self;

        self.poll_for_interrupts(bus);

        proof {
            lemma_opcode_effect_extends(
                mid,
                executed,
                ops1,
                bus.ops(),
                old(bus).pending(),
                opcode,
            );
            assert(bus.ops()[ops0.len() as int] == (BusOp::Read {
                address: old(self).registers.pc,
                value: opcode,
            }));
        }
    }

    /// Service the highest-priority pending interrupt: two idle cycles,
    /// push PC, acknowledge exactly that source, jump to its fixed vector
    /// with IME cleared, and one closing idle cycle.
    pub fn execute_interrupt_service_routine<B: BusInterface>(&mut self, bus: &mut B)
        requires
            old(bus).pending() is Some,
        ensures
            ({
                let intr = old(bus).pending()->0;
                let sp1 = crate::bits::spec_wsub16(old(self).registers.sp, 1);
                let sp2 = crate::bits::spec_wsub16(old(self).registers.sp, 2);
                &&& final(self).registers == (Registers {
                    pc: intr.spec_interrupt_vector(),
                    sp: sp2,
                    ime: false,
                    ..old(self).registers
                })
                &&& final(self).state == old(self).state
                &&& final(bus).ops() == old(bus).ops()
                    .push(BusOp::Idle)
                    .push(BusOp::Idle)
                    .push(BusOp::Write { address: sp1, value: spec_msb(old(self).registers.pc) })
                    .push(BusOp::Write { address: sp2, value: spec_lsb(old(self).registers.pc) })
                    .push(BusOp::Ack { interrupt: intr })
                    .push(BusOp::Idle)
            }),
    {
        // The CPU idles for 2 M-cycles at the start of the routine.
        bus.idle();
        bus.idle();

        self.push_stack_u16(bus, self.registers.pc);

        let interrupt_type = match bus.highest_priority_interrupt() {
            Option::Some(interrupt_type) => interrupt_type,
            // Unreachable: writes and idles leave the pending query as it
            // was at entry, where an interrupt was pending.
            Option::None => InterruptType::VBlank,
        };
        bus.acknowledge_interrupt(interrupt_type);

        self.registers.pc = interrupt_type.interrupt_vector();
        self.registers.ime = false;

        // One more idle cycle while the CPU sets PC to the handler address.
        bus.idle();
    }

    /// Fetch one byte at PC and advance PC — unless the halt bug is armed,
    /// in which case PC stays put for exactly this one fetch.
    pub fn fetch_operand<B: BusInterface>(&mut self, bus: &mut B) -> (r: u8)
        ensures
            final(bus).ops() == old(bus).ops().push(BusOp::Read {
                address: old(self).registers.pc,
                value: r,
            }),
            final(bus).pending() == old(bus).pending(),
            final(self).registers == (Registers {
                pc: if old(self).state.halt_bug_triggered {
                    old(self).registers.pc
                } else {
                    crate::bits::spec_wadd16(old(self).registers.pc, 1)
                },
                ..old(self).registers
            }),
            final(self).state == (State { halt_bug_triggered: false, ..old(self).state }),
    {
        let operand = bus.read(self.registers.pc);
        if self.state.halt_bug_triggered {
            self.state.halt_bug_triggered = false;
        } else {
            self.registers.pc = self.registers.pc.wrapping_add(1);
        }
        operand
    }

    /// Fetch a little-endian 16-bit operand.
    pub fn fetch_operand_u16<B: BusInterface>(&mut self, bus: &mut B) -> (r: u16)
        requires
            !old(self).state.halt_bug_triggered,
        ensures
            final(bus).ops().len() == old(bus).ops().len() + 2,
            final(bus).ops() == old(bus).ops()
                .push(BusOp::Read { address: old(self).registers.pc, value: spec_lsb(r) })
                .push(BusOp::Read {
                    address: crate::bits::spec_wadd16(old(self).registers.pc, 1),
                    value: spec_msb(r),
                }),
            final(self).registers == (Registers {
                pc: crate::bits::spec_wadd16(old(self).registers.pc, 2),
                ..old(self).registers
            }),
            final(self).state == old(self).state,
    {
        let operand_lsb = self.fetch_operand(bus);
        let operand_msb = self.fetch_operand(bus);
        let r = crate::bits::word_from_bytes(operand_msb, operand_lsb);
        proof {
            let pc = old(self).registers.pc;
            assert(crate::bits::spec_wadd16(crate::bits::spec_wadd16(pc, 1), 1)
                == crate::bits::spec_wadd16(pc, 2));
        }
        r
    }

    /// Push one byte: pre-decrement SP, then write.
    pub fn push_stack<B: BusInterface>(&mut self, bus: &mut B, value: u8)
        ensures
            final(self).registers == (Registers {
                sp: crate::bits::spec_wsub16(old(self).registers.sp, 1),
                ..old(self).registers
            }),
            final(self).state == old(self).state,
            final(bus).ops() == old(bus).ops().push(BusOp::Write {
                address: crate::bits::spec_wsub16(old(self).registers.sp, 1),
                value,
            }),
            final(bus).pending() == old(bus).pending(),
    {
        self.registers.sp = self.registers.sp.wrapping_sub(1);
        bus.write(self.registers.sp, value);
    }

    /// Push a 16-bit value, high byte first.
    pub fn push_stack_u16<B: BusInterface>(&mut self, bus: &mut B, value: u16)
        ensures
            final(self).registers == (Registers {
                sp: crate::bits::spec_wsub16(old(self).registers.sp, 2),
                ..old(self).registers
            }),
            final(self).state == old(self).state,
            final(bus).ops() == old(bus).ops()
                .push(BusOp::Write {
                    address: crate::bits::spec_wsub16(old(self).registers.sp, 1),
                    value: spec_msb(value),
                })
                .push(BusOp::Write {
                    address: crate::bits::spec_wsub16(old(self).registers.sp, 2),
                    value: spec_lsb(value),
                }),
            final(bus).pending() == old(bus).pending(),
    {
        let value_msb = crate::bits::word_msb(value);
        let value_lsb = crate::bits::word_lsb(value);
        self.push_stack(bus, value_msb);
        self.push_stack(bus, value_lsb);
    }

    /// Pop one byte: read at SP, then post-increment SP.
    pub fn pop_stack<B: BusInterface>(&mut self, bus: &mut B) -> (r: u8)
        ensures
            final(self).registers == (Registers {
                sp: crate::bits::spec_wadd16(old(self).registers.sp, 1),
                ..old(self).registers
            }),
            final(self).state == old(self).state,
            final(bus).ops() == old(bus).ops().push(BusOp::Read {
                address: old(self).registers.sp,
                value: r,
            }),
    {
        let value = bus.read(self.registers.sp);
        self.registers.sp = self.registers.sp.wrapping_add(1);
        value
    }

    /// Pop a 16-bit value, low byte first.
    pub fn pop_stack_u16<B: BusInterface>(&mut self, bus: &mut B) -> (r: u16)
        ensures
            final(self).registers == (Registers {
                sp: crate::bits::spec_wadd16(old(self).registers.sp, 2),
                ..old(self).registers
            }),
            final(self).state == old(self).state,
            final(bus).ops() == old(bus).ops()
                .push(BusOp::Read { address: old(self).registers.sp, value: spec_lsb(r) })
                .push(BusOp::Read {
                    address: crate::bits::spec_wadd16(old(self).registers.sp, 1),
                    value: spec_msb(r),
                }),
    {
        let lsb = self.pop_stack(bus);
        let msb = self.pop_stack(bus);
        crate::bits::word_from_bytes(msb, lsb)
    }

    /// Instruction-boundary interrupt poll: arm interrupt handling exactly
    /// when IME is set and the bus reports a pending interrupt.
    pub fn poll_for_interrupts<B: BusInterface>(&mut self, bus: &mut B)
        ensures
            final(self).registers == old(self).registers,
            final(self).state == (State {
                handling_interrupt: old(self).registers.ime && final(bus).pending() is Some,
                ..old(self).state
            }),
            final(bus).ops() == old(bus).ops(),
            final(bus).pending() == old(bus).pending(),
    {
        self.state.handling_interrupt = self.registers.ime
            && bus.highest_priority_interrupt().is_some();
    }

    /// Read the 8-bit register (or (HL) memory operand) selected by the low
    /// three opcode bits.
    pub fn read_register<B: BusInterface>(&self, bus: &mut B, register_bits: u8) -> (r: u8)
        ensures
            register_bits & 0x7 != 6 ==> {
                &&& r == self.registers.spec_r8(register_bits)
                &&& final(bus).ops() == old(bus).ops()
            },
            register_bits & 0x7 == 6 ==> final(bus).ops() == old(bus).ops().push(BusOp::Read {
                address: self.registers.spec_hl(),
                value: r,
            }),
    {
        match register_bits & 0x7 {
            0x0 => self.registers.b,
            0x1 => self.registers.c,
            0x2 => self.registers.d,
            0x3 => self.registers.e,
            0x4 => self.registers.h,
            0x5 => self.registers.l,
            // Indirect HL
            0x6 => bus.read(self.registers.hl()),
            _ => self.registers.a,
        }
    }

    /// Write the 8-bit register (or (HL) memory operand) selected by the
    /// low three opcode bits.
    pub fn write_register<B: BusInterface>(&mut self, bus: &mut B, register_bits: u8, value: u8)
        ensures
            register_bits & 0x7 != 6 ==> {
                &&& final(self).registers == old(self).registers.spec_with_r8(register_bits, value)
                &&& final(bus).ops() == old(bus).ops()
            },
            register_bits & 0x7 == 6 ==> {
                &&& final(self).registers == old(self).registers
                &&& final(bus).ops() == old(bus).ops().push(BusOp::Write {
                    address: old(self).registers.spec_hl(),
                    value,
                })
            },
            final(self).state == old(self).state,
    {
        match register_bits & 0x7 {
            0x0 => self.registers.b = value,
            0x1 => self.registers.c = value,
            0x2 => self.registers.d = value,
            0x3 => self.registers.e = value,
            0x4 => self.registers.h = value,
            0x5 => self.registers.l = value,
            // Indirect HL
            0x6 => bus.write(self.registers.hl(), value),
            _ => self.registers.a = value,
        }
    }
}

/// The transition of one $CB-prefixed opcode (the byte after the prefix):
/// every value selects exactly one rotate/shift/swap/bit operation on the
/// register (or (HL) operand) in its low three bits.
pub open spec fn spec_cb_opcode_effect(
    pre: Sm83,
    post: Sm83,
    pre_ops: Seq<BusOp>,
    post_ops: Seq<BusOp>,
    cb: u8,
) -> bool {
    if cb <= 0x07 {
        spec_cb_rmw_ensures(pre, post, pre_ops, post_ops, cb, |v: u8| spec_rlc(v, true))
    } else if cb <= 0x0F {
        spec_cb_rmw_ensures(pre, post, pre_ops, post_ops, cb, |v: u8| spec_rrc(v, true))
    } else if cb <= 0x17 {
        spec_cb_rmw_ensures(
            pre,
            post,
            pre_ops,
            post_ops,
            cb,
            |v: u8| spec_rl(v, pre.registers.f.carry, true),
        )
    } else if cb <= 0x1F {
        spec_cb_rmw_ensures(
            pre,
            post,
            pre_ops,
            post_ops,
            cb,
            |v: u8| spec_rr(v, pre.registers.f.carry, true),
        )
    } else if cb <= 0x27 {
        spec_cb_rmw_ensures(pre, post, pre_ops, post_ops, cb, |v: u8| spec_sla(v))
    } else if cb <= 0x2F {
        spec_cb_rmw_ensures(pre, post, pre_ops, post_ops, cb, |v: u8| spec_sra(v))
    } else if cb <= 0x37 {
        spec_cb_rmw_ensures(pre, post, pre_ops, post_ops, cb, |v: u8| spec_swap(v))
    } else if cb <= 0x3F {
        spec_cb_rmw_ensures(pre, post, pre_ops, post_ops, cb, |v: u8| spec_srl(v))
    } else if cb <= 0x7F {
        // BIT n: Z from the tested bit, C unaffected, no write-back.
        let n = ((cb >> 3) & 0x7) as u8;
        &&& post.state == pre.state
        &&& (cb & 0x7 != 6 ==> {
            &&& post_ops == pre_ops
            &&& post.registers == (Registers {
                f: Flags {
                    zero: !crate::bits::spec_bit8(pre.registers.spec_r8(cb), n),
                    subtract: false,
                    half_carry: true,
                    carry: pre.registers.f.carry,
                },
                ..pre.registers
            })
        })
        &&& (cb & 0x7 == 6 ==> {
            let v = op_value(post_ops.last());
            &&& post_ops == pre_ops.push(BusOp::Read {
                address: pre.registers.spec_hl(),
                value: v,
            })
            &&& post.registers == (Registers {
                f: Flags {
                    zero: !crate::bits::spec_bit8(v, n),
                    subtract: false,
                    half_carry: true,
                    carry: pre.registers.f.carry,
                },
                ..pre.registers
            })
        })
    } else if cb <= 0xBF {
        spec_cb_rmw_ensures(
            pre,
            post,
            pre_ops,
            post_ops,
            cb,
            |v: u8| (v & !((1u8 << (((cb >> 3) & 0x7) as u8)) as u8), pre.registers.f),
        )
    } else {
        spec_cb_rmw_ensures(
            pre,
            post,
            pre_ops,
            post_ops,
            cb,
            |v: u8| (v | ((1u8 << (((cb >> 3) & 0x7) as u8)) as u8), pre.registers.f),
        )
    }
}

/// The whole $CB-prefix transition: one fetch at PC selects the second
/// opcode byte, whose effect is [`spec_cb_opcode_effect`].
pub open spec fn spec_cb_prefix_effect(
    pre: Sm83,
    post: Sm83,
    pre_ops: Seq<BusOp>,
    post_ops: Seq<BusOp>,
) -> bool {
    let n = pre_ops.len() as int;
    let cb = op_value(post_ops[n]);
    let fetched = BusOp::Read { address: pre.registers.pc, value: cb };
    let mid = Sm83 {
        registers: Registers {
            pc: crate::bits::spec_wadd16(pre.registers.pc, 1),
            ..pre.registers
        },
        state: pre.state,
    };
    &&& post_ops.len() > n
    &&& post_ops[n] == fetched
    &&& spec_cb_opcode_effect(mid, post, pre_ops.push(fetched), post_ops, cb)
}

/// The transition of an opcode in $00-$3F: 16-bit arithmetic, 8-bit
/// INC/DEC, immediate and indirect loads, accumulator rotates, relative
/// jumps, and the STOP latch. Consulted only for opcodes below $40.
pub open spec fn spec_misc_block_effect(
    pre: Sm83,
    post: Sm83,
    pre_ops: Seq<BusOp>,
    post_ops: Seq<BusOp>,
    opcode: u8,
) -> bool {
    let n = pre_ops.len() as int;
    if opcode == 0x00 {
        // NOP
        &&& post == pre
        &&& post_ops == pre_ops
    } else if opcode == 0x01 || opcode == 0x11 || opcode == 0x21 || opcode == 0x31 {
        // LD rr, u16
        &&& post.state == pre.state
        &&& ({
            let nn = spec_word(op_value(post_ops[n + 1]), op_value(post_ops[n]));
            &&& post_ops == pre_ops
                .push(BusOp::Read { address: pre.registers.pc, value: op_value(post_ops[n]) })
                .push(BusOp::Read {
                    address: crate::bits::spec_wadd16(pre.registers.pc, 1),
                    value: op_value(post_ops[n + 1]),
                })
            &&& post.registers == (Registers {
                pc: crate::bits::spec_wadd16(pre.registers.pc, 2),
                ..pre.registers
            }).spec_with_pair(((opcode >> 4) & 0x3) as u8, nn)
        })
    } else if opcode == 0x03 || opcode == 0x13 || opcode == 0x23 || opcode == 0x33 {
        // INC rr
        &&& post.state == pre.state
        &&& post_ops == pre_ops.push(BusOp::Idle)
        &&& ({
            let sel = ((opcode >> 4) & 0x3) as u8;
            post.registers == pre.registers.spec_with_pair(
                sel,
                crate::bits::spec_wadd16(pre.registers.spec_pair(sel), 1),
            )
        })
    } else if opcode == 0x0B || opcode == 0x1B || opcode == 0x2B || opcode == 0x3B {
        // DEC rr
        &&& post.state == pre.state
        &&& post_ops == pre_ops.push(BusOp::Idle)
        &&& ({
            let sel = ((opcode >> 4) & 0x3) as u8;
            post.registers == pre.registers.spec_with_pair(
                sel,
                crate::bits::spec_wsub16(pre.registers.spec_pair(sel), 1),
            )
        })
    } else if opcode == 0x09 || opcode == 0x19 || opcode == 0x29 || opcode == 0x39 {
        // ADD HL, rr
        &&& post.state == pre.state
        &&& post_ops == pre_ops.push(BusOp::Idle)
        &&& ({
            let sel = ((opcode >> 4) & 0x3) as u8;
            let rf = spec_add16(
                pre.registers.spec_hl(),
                pre.registers.spec_pair(sel),
                pre.registers.f.zero,
            );
            post.registers == (Registers {
                h: spec_msb(rf.0),
                l: spec_lsb(rf.0),
                f: rf.1,
                ..pre.registers
            })
        })
    } else if opcode == 0x04 || opcode == 0x0C || opcode == 0x14 || opcode == 0x1C
        || opcode == 0x24 || opcode == 0x2C || opcode == 0x34 || opcode == 0x3C {
        // INC r / INC (HL)
        &&& post.state == pre.state
        &&& ({
            let sel = (opcode >> 3) as u8;
            let rf = spec_inc8(
                if sel & 0x7 == 6 {
                    op_value(post_ops[n])
                } else {
                    pre.registers.spec_r8(sel)
                },
                pre.registers.f.carry,
            );
            &&& (sel & 0x7 != 6 ==> {
                &&& post_ops == pre_ops
                &&& post.registers == (Registers {
                    f: rf.1,
                    ..pre.registers.spec_with_r8(sel, rf.0)
                })
            })
            &&& (sel & 0x7 == 6 ==> {
                let hl = pre.registers.spec_hl();
                &&& post_ops == pre_ops
                    .push(post_ops[n])
                    .push(BusOp::Write { address: hl, value: rf.0 })
                &&& post_ops[n] matches BusOp::Read { address: a, value: _ } && a == hl
                &&& post.registers == (Registers { f: rf.1, ..pre.registers })
            })
        })
    } else if opcode == 0x05 || opcode == 0x0D || opcode == 0x15 || opcode == 0x1D
        || opcode == 0x25 || opcode == 0x2D || opcode == 0x35 || opcode == 0x3D {
        // DEC r / DEC (HL)
        &&& post.state == pre.state
        &&& ({
            let sel = (opcode >> 3) as u8;
            let rf = spec_dec8(
                if sel & 0x7 == 6 {
                    op_value(post_ops[n])
                } else {
                    pre.registers.spec_r8(sel)
                },
                pre.registers.f.carry,
            );
            &&& (sel & 0x7 != 6 ==> {
                &&& post_ops == pre_ops
                &&& post.registers == (Registers {
                    f: rf.1,
                    ..pre.registers.spec_with_r8(sel, rf.0)
                })
            })
            &&& (sel & 0x7 == 6 ==> {
                let hl = pre.registers.spec_hl();
                &&& post_ops == pre_ops
                    .push(post_ops[n])
                    .push(BusOp::Write { address: hl, value: rf.0 })
                &&& post_ops[n] matches BusOp::Read { address: a, value: _ } && a == hl
                &&& post.registers == (Registers { f: rf.1, ..pre.registers })
            })
        })
    } else if opcode == 0x06 || opcode == 0x0E || opcode == 0x16 || opcode == 0x1E
        || opcode == 0x26 || opcode == 0x2E || opcode == 0x36 || opcode == 0x3E {
        // LD r, u8 / LD (HL), u8
        &&& post.state == pre.state
        &&& ({
            let sel = ((opcode >> 3) & 0x7) as u8;
            let v = op_value(post_ops[n]);
            let fetched = BusOp::Read { address: pre.registers.pc, value: v };
            let regs1 = Registers {
                pc: crate::bits::spec_wadd16(pre.registers.pc, 1),
                ..pre.registers
            };
            &&& (sel != 6 ==> {
                &&& post_ops == pre_ops.push(fetched)
                &&& post.registers == regs1.spec_with_r8(sel, v)
            })
            &&& (sel == 6 ==> {
                &&& post_ops == pre_ops.push(fetched).push(BusOp::Write {
                    address: pre.registers.spec_hl(),
                    value: v,
                })
                &&& post.registers == regs1
            })
        })
    } else if opcode == 0x02 {
        // LD (BC), A
        &&& post.state == pre.state
        &&& post.registers == pre.registers
        &&& post_ops == pre_ops.push(BusOp::Write {
            address: pre.registers.spec_bc(),
            value: pre.registers.a,
        })
    } else if opcode == 0x07 {
        // RLCA
        &&& post.state == pre.state
        &&& post_ops == pre_ops
        &&& post.registers == (Registers {
            a: spec_rlc(pre.registers.a, false).0,
            f: spec_rlc(pre.registers.a, false).1,
            ..pre.registers
        })
    } else if opcode == 0x08 {
        // LD (u16), SP
        &&& post.state == pre.state
        &&& ({
            let nn = spec_word(op_value(post_ops[n + 1]), op_value(post_ops[n]));
            &&& post_ops == pre_ops
                .push(BusOp::Read { address: pre.registers.pc, value: op_value(post_ops[n]) })
                .push(BusOp::Read {
                    address: crate::bits::spec_wadd16(pre.registers.pc, 1),
                    value: op_value(post_ops[n + 1]),
                })
                .push(BusOp::Write { address: nn, value: spec_lsb(pre.registers.sp) })
                .push(BusOp::Write {
                    address: crate::bits::spec_wadd16(nn, 1),
                    value: spec_msb(pre.registers.sp),
                })
            &&& post.registers == (Registers {
                pc: crate::bits::spec_wadd16(pre.registers.pc, 2),
                ..pre.registers
            })
        })
    } else if opcode == 0x0A {
        // LD A, (BC)
        &&& post.state == pre.state
        &&& ({
            let v = op_value(post_ops.last());
            &&& post_ops == pre_ops.push(BusOp::Read {
                address: pre.registers.spec_bc(),
                value: v,
            })
            &&& post.registers == (Registers { a: v, ..pre.registers })
        })
    } else if opcode == 0x0F {
        // RRCA
        &&& post.state == pre.state
        &&& post_ops == pre_ops
        &&& post.registers == (Registers {
            a: spec_rrc(pre.registers.a, false).0,
            f: spec_rrc(pre.registers.a, false).1,
            ..pre.registers
        })
    } else if opcode == 0x10 {
        // STOP: the explicit unsupported-instruction latch.
        &&& post.registers == pre.registers
        &&& post.state == (State { stopped: true, ..pre.state })
        &&& post_ops == pre_ops
    } else if opcode == 0x12 {
        // LD (DE), A
        &&& post.state == pre.state
        &&& post.registers == pre.registers
        &&& post_ops == pre_ops.push(BusOp::Write {
            address: pre.registers.spec_de(),
            value: pre.registers.a,
        })
    } else if opcode == 0x17 {
        // RLA
        &&& post.state == pre.state
        &&& post_ops == pre_ops
        &&& post.registers == (Registers {
            a: spec_rl(pre.registers.a, pre.registers.f.carry, false).0,
            f: spec_rl(pre.registers.a, pre.registers.f.carry, false).1,
            ..pre.registers
        })
    } else if opcode == 0x18 {
        // JR e
        &&& post.state == pre.state
        &&& ({
            let v = op_value(post_ops[n]);
            &&& post_ops == pre_ops
                .push(BusOp::Read { address: pre.registers.pc, value: v })
                .push(BusOp::Idle)
            &&& post.registers == (Registers {
                pc: spec_jr_target(crate::bits::spec_wadd16(pre.registers.pc, 1), v),
                ..pre.registers
            })
        })
    } else if opcode == 0x1A {
        // LD A, (DE)
        &&& post.state == pre.state
        &&& ({
            let v = op_value(post_ops.last());
            &&& post_ops == pre_ops.push(BusOp::Read {
                address: pre.registers.spec_de(),
                value: v,
            })
            &&& post.registers == (Registers { a: v, ..pre.registers })
        })
    } else if opcode == 0x1F {
        // RRA
        &&& post.state == pre.state
        &&& post_ops == pre_ops
        &&& post.registers == (Registers {
            a: spec_rr(pre.registers.a, pre.registers.f.carry, false).0,
            f: spec_rr(pre.registers.a, pre.registers.f.carry, false).1,
            ..pre.registers
        })
    } else if opcode == 0x20 || opcode == 0x28 || opcode == 0x30 || opcode == 0x38 {
        // JR cc, e
        &&& post.state == pre.state
        &&& ({
            let taken = spec_condition(opcode, pre.registers);
            let v = op_value(post_ops[n]);
            let fetched = BusOp::Read { address: pre.registers.pc, value: v };
            let pc1 = crate::bits::spec_wadd16(pre.registers.pc, 1);
            &&& (taken ==> {
                &&& post_ops == pre_ops.push(fetched).push(BusOp::Idle)
                &&& post.registers == (Registers {
                    pc: spec_jr_target(pc1, v),
                    ..pre.registers
                })
            })
            &&& (!taken ==> {
                &&& post_ops == pre_ops.push(fetched)
                &&& post.registers == (Registers { pc: pc1, ..pre.registers })
            })
        })
    } else if opcode == 0x22 {
        // LD (HL+), A
        &&& post.state == pre.state
        &&& post_ops == pre_ops.push(BusOp::Write {
            address: pre.registers.spec_hl(),
            value: pre.registers.a,
        })
        &&& ({
            let hl = crate::bits::spec_wadd16(pre.registers.spec_hl(), 1);
            post.registers == (Registers {
                h: spec_msb(hl),
                l: spec_lsb(hl),
                ..pre.registers
            })
        })
    } else if opcode == 0x27 {
        // DAA
        &&& post.state == pre.state
        &&& post_ops == pre_ops
        &&& post.registers == spec_apply_acc(
            pre.registers,
            spec_daa(pre.registers.a, pre.registers.f),
        )
    } else if opcode == 0x2A {
        // LD A, (HL+)
        &&& post.state == pre.state
        &&& ({
            let v = op_value(post_ops.last());
            let hl = crate::bits::spec_wadd16(pre.registers.spec_hl(), 1);
            &&& post_ops == pre_ops.push(BusOp::Read {
                address: pre.registers.spec_hl(),
                value: v,
            })
            &&& post.registers == (Registers {
                a: v,
                h: spec_msb(hl),
                l: spec_lsb(hl),
                ..pre.registers
            })
        })
    } else if opcode == 0x2F {
        // CPL
        &&& post.state == pre.state
        &&& post_ops == pre_ops
        &&& post.registers == (Registers {
            a: !pre.registers.a,
            f: Flags {
                zero: pre.registers.f.zero,
                subtract: true,
                half_carry: true,
                carry: pre.registers.f.carry,
            },
            ..pre.registers
        })
    } else if opcode == 0x32 {
        // LD (HL-), A
        &&& post.state == pre.state
        &&& post_ops == pre_ops.push(BusOp::Write {
            address: pre.registers.spec_hl(),
            value: pre.registers.a,
        })
        &&& ({
            let hl = crate::bits::spec_wsub16(pre.registers.spec_hl(), 1);
            post.registers == (Registers {
                h: spec_msb(hl),
                l: spec_lsb(hl),
                ..pre.registers
            })
        })
    } else if opcode == 0x37 {
        // SCF
        &&& post.state == pre.state
        &&& post_ops == pre_ops
        &&& post.registers == (Registers {
            f: Flags {
                zero: pre.registers.f.zero,
                subtract: false,
                half_carry: false,
                carry: true,
            },
            ..pre.registers
        })
    } else if opcode == 0x3A {
        // LD A, (HL-)
        &&& post.state == pre.state
        &&& ({
            let v = op_value(post_ops.last());
            let hl = crate::bits::spec_wsub16(pre.registers.spec_hl(), 1);
            &&& post_ops == pre_ops.push(BusOp::Read {
                address: pre.registers.spec_hl(),
                value: v,
            })
            &&& post.registers == (Registers {
                a: v,
                h: spec_msb(hl),
                l: spec_lsb(hl),
                ..pre.registers
            })
        })
    } else {
        // CCF: the one remaining value in this block, $3F.
        &&& post.state == pre.state
        &&& post_ops == pre_ops
        &&& post.registers == (Registers {
            f: Flags {
                zero: pre.registers.f.zero,
                subtract: false,
                half_carry: false,
                carry: !pre.registers.f.carry,
            },
            ..pre.registers
        })
    }
}

/// The transition of an opcode in $40-$7F: the register-to-register
/// load block, with HALT in the (HL),(HL) slot. `pre_pending` is the
/// interrupt query's answer, which HALT reads to arm the halt bug.
/// Consulted only for opcodes in $40-$7F.
pub open spec fn spec_load_block_effect(
    pre: Sm83,
    post: Sm83,
    pre_ops: Seq<BusOp>,
    post_ops: Seq<BusOp>,
    pre_pending: Option<InterruptType>,
    opcode: u8,
) -> bool {
    if opcode == 0x76 {
        // HALT, or the halt bug with IME clear and an interrupt pending.
        &&& post.registers == pre.registers
        &&& post_ops == pre_ops
        &&& ({
            let bug = !pre.registers.ime && pre_pending is Some;
            &&& (bug ==> post.state == (State { halt_bug_triggered: true, ..pre.state }))
            &&& (!bug ==> post.state == (State { halted: true, ..pre.state }))
        })
    } else {
        // LD r, r' / LD r, (HL) / LD (HL), r
        &&& post.state == pre.state
        &&& ({
            let dst = ((opcode >> 3) & 0x7) as u8;
            let src = (opcode & 0x7) as u8;
            let hl = pre.registers.spec_hl();
            &&& (src != 6 && dst != 6 ==> {
                &&& post_ops == pre_ops
                &&& post.registers == pre.registers.spec_with_r8(
                    dst,
                    pre.registers.spec_r8(src),
                )
            })
            &&& (src == 6 && dst != 6 ==> {
                let v = op_value(post_ops.last());
                &&& post_ops == pre_ops.push(BusOp::Read { address: hl, value: v })
                &&& post.registers == pre.registers.spec_with_r8(dst, v)
            })
            &&& (src != 6 && dst == 6 ==> {
                &&& post_ops == pre_ops.push(BusOp::Write {
                    address: hl,
                    value: pre.registers.spec_r8(src),
                })
                &&& post.registers == pre.registers
            })
        })
    }
}

/// The transition of an opcode in $80-$BF: the eight accumulator ALU
/// operations over the register selector in the low three bits.
/// Consulted only for opcodes in $80-$BF; the final group is CP.
pub open spec fn spec_alu_block_effect(
    pre: Sm83,
    post: Sm83,
    pre_ops: Seq<BusOp>,
    post_ops: Seq<BusOp>,
    opcode: u8,
) -> bool {
    if opcode <= 0x87 && opcode >= 0x80 {
        // ADD A, r
        spec_acc_op_ensures(pre, post, pre_ops, post_ops, opcode, |v: u8|
            spec_add8(pre.registers.a, v, false))
    } else if opcode <= 0x8F && opcode >= 0x88 {
        // ADC A, r
        spec_acc_op_ensures(pre, post, pre_ops, post_ops, opcode, |v: u8|
            spec_add8(pre.registers.a, v, pre.registers.f.carry))
    } else if opcode <= 0x97 && opcode >= 0x90 {
        // SUB A, r
        spec_acc_op_ensures(pre, post, pre_ops, post_ops, opcode, |v: u8|
            spec_sub8(pre.registers.a, v, false))
    } else if opcode <= 0x9F && opcode >= 0x98 {
        // SBC A, r
        spec_acc_op_ensures(pre, post, pre_ops, post_ops, opcode, |v: u8|
            spec_sub8(pre.registers.a, v, pre.registers.f.carry))
    } else if opcode <= 0xA7 && opcode >= 0xA0 {
        // AND A, r
        spec_acc_op_ensures(pre, post, pre_ops, post_ops, opcode, |v: u8|
            spec_and8(pre.registers.a, v))
    } else if opcode <= 0xAF && opcode >= 0xA8 {
        // XOR A, r
        spec_acc_op_ensures(pre, post, pre_ops, post_ops, opcode, |v: u8|
            spec_xor8(pre.registers.a, v))
    } else if opcode <= 0xB7 && opcode >= 0xB0 {
        // OR A, r
        spec_acc_op_ensures(pre, post, pre_ops, post_ops, opcode, |v: u8|
            spec_or8(pre.registers.a, v))
    } else {
        // CP A, r
        spec_acc_op_ensures(pre, post, pre_ops, post_ops, opcode, |v: u8|
            (pre.registers.a, spec_sub8(pre.registers.a, v, false).1))
    }
}

/// The transition of an opcode in $C0-$FF: jumps, calls, returns, the
/// stack instructions, immediate ALU operations, the $CB prefix, EI/DI,
/// and the eleven invalid opcodes. Consulted only for opcodes from $C0.
pub open spec fn spec_control_block_effect(
    pre: Sm83,
    post: Sm83,
    pre_ops: Seq<BusOp>,
    post_ops: Seq<BusOp>,
    opcode: u8,
) -> bool {
    let n = pre_ops.len() as int;
    if opcode == 0xC1 || opcode == 0xD1 || opcode == 0xE1 || opcode == 0xF1 {
        // POP rr
        &&& post.state == pre.state
        &&& ({
            let sel = ((opcode >> 4) & 0x3) as u8;
            let value = spec_word(op_value(post_ops[n + 1]), op_value(post_ops[n]));
            &&& post_ops == pre_ops
                .push(BusOp::Read { address: pre.registers.sp, value: op_value(post_ops[n]) })
                .push(BusOp::Read {
                    address: crate::bits::spec_wadd16(pre.registers.sp, 1),
                    value: op_value(post_ops[n + 1]),
                })
            &&& post.registers == spec_with_stack_pair(
                Registers {
                    sp: crate::bits::spec_wadd16(pre.registers.sp, 2),
                    ..pre.registers
                },
                sel,
                value,
            )
        })
    } else if opcode == 0xC5 || opcode == 0xD5 || opcode == 0xE5 || opcode == 0xF5 {
        // PUSH rr
        &&& post.state == pre.state
        &&& ({
            let sel = ((opcode >> 4) & 0x3) as u8;
            let value = spec_stack_pair(pre.registers, sel);
            let sp1 = crate::bits::spec_wsub16(pre.registers.sp, 1);
            let sp2 = crate::bits::spec_wsub16(pre.registers.sp, 2);
            &&& post_ops == pre_ops
                .push(BusOp::Idle)
                .push(BusOp::Write { address: sp1, value: spec_msb(value) })
                .push(BusOp::Write { address: sp2, value: spec_lsb(value) })
            &&& post.registers == (Registers { sp: sp2, ..pre.registers })
        })
    } else if opcode == 0xC0 || opcode == 0xC8 || opcode == 0xD0 || opcode == 0xD8 {
        // RET cc
        &&& post.state == pre.state
        &&& ({
            let taken = spec_condition(opcode, pre.registers);
            let target = spec_word(op_value(post_ops[n + 2]), op_value(post_ops[n + 1]));
            &&& (taken ==> {
                &&& post_ops == pre_ops
                    .push(BusOp::Idle)
                    .push(BusOp::Read {
                        address: pre.registers.sp,
                        value: op_value(post_ops[n + 1]),
                    })
                    .push(BusOp::Read {
                        address: crate::bits::spec_wadd16(pre.registers.sp, 1),
                        value: op_value(post_ops[n + 2]),
                    })
                    .push(BusOp::Idle)
                &&& post.registers == (Registers {
                    pc: target,
                    sp: crate::bits::spec_wadd16(pre.registers.sp, 2),
                    ..pre.registers
                })
            })
            &&& (!taken ==> {
                &&& post_ops == pre_ops.push(BusOp::Idle)
                &&& post.registers == pre.registers
            })
        })
    } else if opcode == 0xC2 || opcode == 0xCA || opcode == 0xD2 || opcode == 0xDA {
        // JP cc, u16
        &&& post.state == pre.state
        &&& ({
            let taken = spec_condition(opcode, pre.registers);
            let target = spec_word(op_value(post_ops[n + 1]), op_value(post_ops[n]));
            let reads = pre_ops
                .push(BusOp::Read { address: pre.registers.pc, value: op_value(post_ops[n]) })
                .push(BusOp::Read {
                    address: crate::bits::spec_wadd16(pre.registers.pc, 1),
                    value: op_value(post_ops[n + 1]),
                });
            &&& (taken ==> {
                &&& post_ops == reads.push(BusOp::Idle)
                &&& post.registers == (Registers { pc: target, ..pre.registers })
            })
            &&& (!taken ==> {
                &&& post_ops == reads
                &&& post.registers == (Registers {
                    pc: crate::bits::spec_wadd16(pre.registers.pc, 2),
                    ..pre.registers
                })
            })
        })
    } else if opcode == 0xC4 || opcode == 0xCC || opcode == 0xD4 || opcode == 0xDC {
        // CALL cc, u16
        &&& post.state == pre.state
        &&& ({
            let taken = spec_condition(opcode, pre.registers);
            let target = spec_word(op_value(post_ops[n + 1]), op_value(post_ops[n]));
            let ret = crate::bits::spec_wadd16(pre.registers.pc, 2);
            let sp1 = crate::bits::spec_wsub16(pre.registers.sp, 1);
            let sp2 = crate::bits::spec_wsub16(pre.registers.sp, 2);
            let reads = pre_ops
                .push(BusOp::Read { address: pre.registers.pc, value: op_value(post_ops[n]) })
                .push(BusOp::Read {
                    address: crate::bits::spec_wadd16(pre.registers.pc, 1),
                    value: op_value(post_ops[n + 1]),
                });
            &&& (taken ==> {
                &&& post_ops == reads
                    .push(BusOp::Idle)
                    .push(BusOp::Write { address: sp1, value: spec_msb(ret) })
                    .push(BusOp::Write { address: sp2, value: spec_lsb(ret) })
                &&& post.registers == (Registers {
                    pc: target,
                    sp: sp2,
                    ..pre.registers
                })
            })
            &&& (!taken ==> {
                &&& post_ops == reads
                &&& post.registers == (Registers { pc: ret, ..pre.registers })
            })
        })
    } else if opcode == 0xC7 || opcode == 0xCF || opcode == 0xD7 || opcode == 0xDF
        || opcode == 0xE7 || opcode == 0xEF || opcode == 0xF7 || opcode == 0xFF {
        // RST $xx
        &&& post.state == pre.state
        &&& ({
            let sp1 = crate::bits::spec_wsub16(pre.registers.sp, 1);
            let sp2 = crate::bits::spec_wsub16(pre.registers.sp, 2);
            &&& post_ops == pre_ops
                .push(BusOp::Idle)
                .push(BusOp::Write { address: sp1, value: spec_msb(pre.registers.pc) })
                .push(BusOp::Write { address: sp2, value: spec_lsb(pre.registers.pc) })
            &&& post.registers == (Registers {
                pc: (opcode & 0x38) as u16,
                sp: sp2,
                ..pre.registers
            })
        })
    } else if opcode == 0xC3 {
        // JP u16
        &&& post.state == pre.state
        &&& ({
            let target = spec_word(op_value(post_ops[n + 1]), op_value(post_ops[n]));
            &&& post_ops == pre_ops
                .push(BusOp::Read { address: pre.registers.pc, value: op_value(post_ops[n]) })
                .push(BusOp::Read {
                    address: crate::bits::spec_wadd16(pre.registers.pc, 1),
                    value: op_value(post_ops[n + 1]),
                })
                .push(BusOp::Idle)
            &&& post.registers == (Registers { pc: target, ..pre.registers })
        })
    } else if opcode == 0xC6 {
        // ADD A, u8
        spec_acc_imm_ensures(pre, post, pre_ops, post_ops, |v: u8|
            spec_add8(pre.registers.a, v, false))
    } else if opcode == 0xC9 {
        // RET
        &&& post.state == pre.state
        &&& ({
            let target = spec_word(op_value(post_ops[n + 1]), op_value(post_ops[n]));
            &&& post_ops == pre_ops
                .push(BusOp::Read { address: pre.registers.sp, value: op_value(post_ops[n]) })
                .push(BusOp::Read {
                    address: crate::bits::spec_wadd16(pre.registers.sp, 1),
                    value: op_value(post_ops[n + 1]),
                })
                .push(BusOp::Idle)
            &&& post.registers == (Registers {
                pc: target,
                sp: crate::bits::spec_wadd16(pre.registers.sp, 2),
                ..pre.registers
            })
        })
    } else if opcode == 0xCB {
        // $CB prefix: the second fetch selects the instruction.
        spec_cb_prefix_effect(pre, post, pre_ops, post_ops)
    } else if opcode == 0xCD {
        // CALL u16
        &&& post.state == pre.state
        &&& ({
            let target = spec_word(op_value(post_ops[n + 1]), op_value(post_ops[n]));
            let ret = crate::bits::spec_wadd16(pre.registers.pc, 2);
            let sp1 = crate::bits::spec_wsub16(pre.registers.sp, 1);
            let sp2 = crate::bits::spec_wsub16(pre.registers.sp, 2);
            &&& post_ops == pre_ops
                .push(BusOp::Read { address: pre.registers.pc, value: op_value(post_ops[n]) })
                .push(BusOp::Read {
                    address: crate::bits::spec_wadd16(pre.registers.pc, 1),
                    value: op_value(post_ops[n + 1]),
                })
                .push(BusOp::Idle)
                .push(BusOp::Write { address: sp1, value: spec_msb(ret) })
                .push(BusOp::Write { address: sp2, value: spec_lsb(ret) })
            &&& post.registers == (Registers {
                pc: target,
                sp: sp2,
                ..pre.registers
            })
        })
    } else if opcode == 0xCE {
        // ADC A, u8
        spec_acc_imm_ensures(pre, post, pre_ops, post_ops, |v: u8|
            spec_add8(pre.registers.a, v, pre.registers.f.carry))
    } else if opcode == 0xD6 {
        // SUB A, u8
        spec_acc_imm_ensures(pre, post, pre_ops, post_ops, |v: u8|
            spec_sub8(pre.registers.a, v, false))
    } else if opcode == 0xD9 {
        // RETI
        &&& post.state == pre.state
        &&& ({
            let target = spec_word(op_value(post_ops[n + 1]), op_value(post_ops[n]));
            &&& post_ops == pre_ops
                .push(BusOp::Read { address: pre.registers.sp, value: op_value(post_ops[n]) })
                .push(BusOp::Read {
                    address: crate::bits::spec_wadd16(pre.registers.sp, 1),
                    value: op_value(post_ops[n + 1]),
                })
                .push(BusOp::Idle)
            &&& post.registers == (Registers {
                pc: target,
                sp: crate::bits::spec_wadd16(pre.registers.sp, 2),
                ime: true,
                ..pre.registers
            })
        })
    } else if opcode == 0xDE {
        // SBC A, u8
        spec_acc_imm_ensures(pre, post, pre_ops, post_ops, |v: u8|
            spec_sub8(pre.registers.a, v, pre.registers.f.carry))
    } else if opcode == 0xE0 {
        // LDH (u8), A
        &&& post.state == pre.state
        &&& ({
            let v = op_value(post_ops[n]);
            &&& post_ops == pre_ops
                .push(BusOp::Read { address: pre.registers.pc, value: v })
                .push(BusOp::Write { address: (0xFF00 + v) as u16, value: pre.registers.a })
            &&& post.registers == (Registers {
                pc: crate::bits::spec_wadd16(pre.registers.pc, 1),
                ..pre.registers
            })
        })
    } else if opcode == 0xE2 {
        // LD ($FF00+C), A
        &&& post.state == pre.state
        &&& post.registers == pre.registers
        &&& post_ops == pre_ops.push(BusOp::Write {
            address: (0xFF00 + pre.registers.c) as u16,
            value: pre.registers.a,
        })
    } else if opcode == 0xE6 {
        // AND A, u8
        spec_acc_imm_ensures(pre, post, pre_ops, post_ops, |v: u8|
            spec_and8(pre.registers.a, v))
    } else if opcode == 0xE8 {
        // ADD SP, e
        &&& post.state == pre.state
        &&& ({
            let v = op_value(post_ops[n]);
            let rf = spec_sp_plus_e(pre.registers.sp, v);
            &&& post_ops == pre_ops
                .push(BusOp::Read { address: pre.registers.pc, value: v })
                .push(BusOp::Idle)
                .push(BusOp::Idle)
            &&& post.registers == (Registers {
                pc: crate::bits::spec_wadd16(pre.registers.pc, 1),
                sp: rf.0,
                f: rf.1,
                ..pre.registers
            })
        })
    } else if opcode == 0xE9 {
        // JP HL
        &&& post.state == pre.state
        &&& post_ops == pre_ops
        &&& post.registers == (Registers { pc: pre.registers.spec_hl(), ..pre.registers })
    } else if opcode == 0xEA {
        // LD (u16), A
        &&& post.state == pre.state
        &&& ({
            let nn = spec_word(op_value(post_ops[n + 1]), op_value(post_ops[n]));
            &&& post_ops == pre_ops
                .push(BusOp::Read { address: pre.registers.pc, value: op_value(post_ops[n]) })
                .push(BusOp::Read {
                    address: crate::bits::spec_wadd16(pre.registers.pc, 1),
                    value: op_value(post_ops[n + 1]),
                })
                .push(BusOp::Write { address: nn, value: pre.registers.a })
            &&& post.registers == (Registers {
                pc: crate::bits::spec_wadd16(pre.registers.pc, 2),
                ..pre.registers
            })
        })
    } else if opcode == 0xEE {
        // XOR A, u8
        spec_acc_imm_ensures(pre, post, pre_ops, post_ops, |v: u8|
            spec_xor8(pre.registers.a, v))
    } else if opcode == 0xF0 {
        // LDH A, (u8)
        &&& post.state == pre.state
        &&& ({
            let offset = op_value(post_ops[n]);
            let v = op_value(post_ops[n + 1]);
            &&& post_ops == pre_ops
                .push(BusOp::Read { address: pre.registers.pc, value: offset })
                .push(BusOp::Read { address: (0xFF00 + offset) as u16, value: v })
            &&& post.registers == (Registers {
                a: v,
                pc: crate::bits::spec_wadd16(pre.registers.pc, 1),
                ..pre.registers
            })
        })
    } else if opcode == 0xF2 {
        // LD A, ($FF00+C)
        &&& post.state == pre.state
        &&& ({
            let v = op_value(post_ops.last());
            &&& post_ops == pre_ops.push(BusOp::Read {
                address: (0xFF00 + pre.registers.c) as u16,
                value: v,
            })
            &&& post.registers == (Registers { a: v, ..pre.registers })
        })
    } else if opcode == 0xF3 {
        // DI
        &&& post_ops == pre_ops
        &&& post.registers == (Registers { ime: false, ..pre.registers })
        &&& post.state == (State { pending_ime_set: false, ..pre.state })
    } else if opcode == 0xF6 {
        // OR A, u8
        spec_acc_imm_ensures(pre, post, pre_ops, post_ops, |v: u8|
            spec_or8(pre.registers.a, v))
    } else if opcode == 0xF8 {
        // LD HL, SP+e
        &&& post.state == pre.state
        &&& ({
            let v = op_value(post_ops[n]);
            let rf = spec_sp_plus_e(pre.registers.sp, v);
            &&& post_ops == pre_ops
                .push(BusOp::Read { address: pre.registers.pc, value: v })
                .push(BusOp::Idle)
            &&& post.registers == (Registers {
                pc: crate::bits::spec_wadd16(pre.registers.pc, 1),
                h: spec_msb(rf.0),
                l: spec_lsb(rf.0),
                f: rf.1,
                ..pre.registers
            })
        })
    } else if opcode == 0xF9 {
        // LD SP, HL
        &&& post.state == pre.state
        &&& post_ops == pre_ops.push(BusOp::Idle)
        &&& post.registers == (Registers { sp: pre.registers.spec_hl(), ..pre.registers })
    } else if opcode == 0xFA {
        // LD A, (u16)
        &&& post.state == pre.state
        &&& ({
            let nn = spec_word(op_value(post_ops[n + 1]), op_value(post_ops[n]));
            let v = op_value(post_ops[n + 2]);
            &&& post_ops == pre_ops
                .push(BusOp::Read { address: pre.registers.pc, value: op_value(post_ops[n]) })
                .push(BusOp::Read {
                    address: crate::bits::spec_wadd16(pre.registers.pc, 1),
                    value: op_value(post_ops[n + 1]),
                })
                .push(BusOp::Read { address: nn, value: v })
            &&& post.registers == (Registers {
                a: v,
                pc: crate::bits::spec_wadd16(pre.registers.pc, 2),
                ..pre.registers
            })
        })
    } else if opcode == 0xFB {
        // EI
        &&& post_ops == pre_ops
        &&& post.registers == pre.registers
        &&& post.state == (State { pending_ime_set: true, ..pre.state })
    } else if opcode == 0xFE {
        // CP A, u8
        spec_acc_imm_ensures(pre, post, pre_ops, post_ops, |v: u8|
            (pre.registers.a, spec_sub8(pre.registers.a, v, false).1))
    } else {
        // The eleven invalid opcodes: executing one permanently locks the CPU.
        &&& spec_is_invalid_opcode(opcode)
        &&& post.registers == pre.registers
        &&& post.state == (State { executed_invalid_opcode: true, ..pre.state })
        &&& post_ops == pre_ops
    }
}

/// The transition of one opcode against the register file, the execution
/// latches, and the bus trace: for every byte value, exactly the effect of
/// the one instruction it decodes to (or the STOP / invalid-opcode latch).
/// Values read from the bus appear in `post_ops`; `pre_pending` is the
/// interrupt query's answer while the opcode executes (HALT reads it).
pub open spec fn spec_opcode_effect(
    pre: Sm83,
    post: Sm83,
    pre_ops: Seq<BusOp>,
    post_ops: Seq<BusOp>,
    pre_pending: Option<InterruptType>,
    opcode: u8,
) -> bool {
    if opcode < 0x40 {
        spec_misc_block_effect(pre, post, pre_ops, post_ops, opcode)
    } else if opcode < 0x80 {
        spec_load_block_effect(pre, post, pre_ops, post_ops, pre_pending, opcode)
    } else if opcode < 0xC0 {
        spec_alu_block_effect(pre, post, pre_ops, post_ops, opcode)
    } else {
        spec_control_block_effect(pre, post, pre_ops, post_ops, opcode)
    }
}


/// A $CB-prefixed opcode only appends to the bus trace: what stood in the
/// trace before the instruction is untouched.
pub proof fn lemma_cb_opcode_effect_extends(
    pre: Sm83,
    post: Sm83,
    pre_ops: Seq<BusOp>,
    post_ops: Seq<BusOp>,
    cb: u8,
)
    requires
        spec_cb_opcode_effect(pre, post, pre_ops, post_ops, cb),
    ensures
        pre_ops.len() <= post_ops.len(),
        forall|i: int| 0 <= i < pre_ops.len() ==> post_ops[i] == pre_ops[i],
{
}

/// An opcode in $00-$3F only appends to the bus trace.
#[verifier::spinoff_prover]
#[verifier::rlimit(100)]
pub proof fn lemma_misc_block_extends(
    pre: Sm83,
    post: Sm83,
    pre_ops: Seq<BusOp>,
    post_ops: Seq<BusOp>,
    opcode: u8,
)
    requires
        opcode < 0x40,
        spec_misc_block_effect(pre, post, pre_ops, post_ops, opcode),
    ensures
        pre_ops.len() <= post_ops.len(),
        forall|i: int| 0 <= i < pre_ops.len() ==> post_ops[i] == pre_ops[i],
{
}

/// An opcode in $40-$7F only appends to the bus trace.
#[verifier::spinoff_prover]
#[verifier::rlimit(100)]
pub proof fn lemma_load_block_extends(
    pre: Sm83,
    post: Sm83,
    pre_ops: Seq<BusOp>,
    post_ops: Seq<BusOp>,
    pre_pending: Option<InterruptType>,
    opcode: u8,
)
    requires
        0x40 <= opcode && opcode < 0x80,
        spec_load_block_effect(pre, post, pre_ops, post_ops, pre_pending, opcode),
    ensures
        pre_ops.len() <= post_ops.len(),
        forall|i: int| 0 <= i < pre_ops.len() ==> post_ops[i] == pre_ops[i],
{
    if opcode != 0x76 {
        // The (HL),(HL) slot is HALT; every other value selects a load.
        assert(!(opcode & 0x7 == 6 && (opcode >> 3) & 0x7 == 6)) by (bit_vector)
            requires
                0x40 <= opcode && opcode < 0x80 && opcode != 0x76,
        ;
    }
}

/// An opcode in $80-$BF only appends to the bus trace.
#[verifier::spinoff_prover]
#[verifier::rlimit(100)]
pub proof fn lemma_alu_block_extends(
    pre: Sm83,
    post: Sm83,
    pre_ops: Seq<BusOp>,
    post_ops: Seq<BusOp>,
    opcode: u8,
)
    requires
        0x80 <= opcode && opcode < 0xC0,
        spec_alu_block_effect(pre, post, pre_ops, post_ops, opcode),
    ensures
        pre_ops.len() <= post_ops.len(),
        forall|i: int| 0 <= i < pre_ops.len() ==> post_ops[i] == pre_ops[i],
{
}

/// An opcode in $C0-$FF only appends to the bus trace.
#[verifier::spinoff_prover]
#[verifier::rlimit(100)]
pub proof fn lemma_control_block_extends(
    pre: Sm83,
    post: Sm83,
    pre_ops: Seq<BusOp>,
    post_ops: Seq<BusOp>,
    opcode: u8,
)
    requires
        0xC0 <= opcode,
        spec_control_block_effect(pre, post, pre_ops, post_ops, opcode),
    ensures
        pre_ops.len() <= post_ops.len(),
        forall|i: int| 0 <= i < pre_ops.len() ==> post_ops[i] == pre_ops[i],
{
    if opcode == 0xCB {
        assert(spec_cb_prefix_effect(pre, post, pre_ops, post_ops));
        let n = pre_ops.len() as int;
        let cb = op_value(post_ops[n]);
        let fetched = BusOp::Read { address: pre.registers.pc, value: cb };
        let mid = Sm83 {
            registers: Registers {
                pc: crate::bits::spec_wadd16(pre.registers.pc, 1),
                ..pre.registers
            },
            state: pre.state,
        };
        lemma_cb_opcode_effect_extends(mid, post, pre_ops.push(fetched), post_ops, cb);
        assert forall|i: int| 0 <= i < pre_ops.len() implies post_ops[i] == pre_ops[i] by {
            assert(post_ops[i] == pre_ops.push(fetched)[i]);
        }
    }
}

/// An opcode only appends to the bus trace: what stood in the trace before
/// the instruction is untouched.
pub proof fn lemma_opcode_effect_extends(
    pre: Sm83,
    post: Sm83,
    pre_ops: Seq<BusOp>,
    post_ops: Seq<BusOp>,
    pre_pending: Option<InterruptType>,
    opcode: u8,
)
    requires
        spec_opcode_effect(pre, post, pre_ops, post_ops, pre_pending, opcode),
    ensures
        pre_ops.len() <= post_ops.len(),
        forall|i: int| 0 <= i < pre_ops.len() ==> post_ops[i] == pre_ops[i],
{
    if opcode < 0x40 {
        lemma_misc_block_extends(pre, post, pre_ops, post_ops, opcode);
    } else if opcode < 0x80 {
        lemma_load_block_extends(pre, post, pre_ops, post_ops, pre_pending, opcode);
    } else if opcode < 0xC0 {
        lemma_alu_block_extends(pre, post, pre_ops, post_ops, opcode);
    } else {
        lemma_control_block_extends(pre, post, pre_ops, post_ops, opcode);
    }
}

impl Sm83 {
    /// Decode and execute one opcode. The decode is total: every byte maps
    /// to exactly one handler, or to the invalid-opcode lockup.
    #[verifier::spinoff_prover]
    #[verifier::rlimit(100)]
    pub fn execute_opcode<B: BusInterface>(&mut self, bus: &mut B, opcode: u8)
        requires
            !old(self).state.halt_bug_triggered,
        ensures
            spec_opcode_effect(
                *old(self),
                *final(self),
                old(bus).ops(),
                final(bus).ops(),
                old(bus).pending(),
                opcode,
            ),
            final(self).state.executed_invalid_opcode == (
                old(self).state.executed_invalid_opcode || spec_is_invalid_opcode(opcode)
            ),
            final(self).state.stopped == (old(self).state.stopped || opcode == 0x10),
            final(self).state.handling_interrupt == old(self).state.handling_interrupt,
            spec_is_invalid_opcode(opcode) ==> {
                &&& final(self).registers == old(self).registers
                &&& final(bus).ops() == old(bus).ops()
            },
            opcode == 0x10 ==> {
                &&& final(self).registers == old(self).registers
                &&& final(bus).ops() == old(bus).ops()
            },
    {
        if opcode < 0x20 {
            self.execute_misc_low_block(bus, opcode);
        } else if opcode < 0x40 {
            self.execute_misc_high_block(bus, opcode);
        } else if opcode < 0x80 {
            self.execute_load_block(bus, opcode);
        } else if opcode < 0xC0 {
            self.execute_alu_block(bus, opcode);
        } else if opcode < 0xE0 {
            self.execute_control_low_block(bus, opcode);
        } else {
            self.execute_control_high_block(bus, opcode);
        }
    }

    /// Opcodes $00-$1F: 16-bit arithmetic and loads on BC/DE, 8-bit
    /// INC/DEC, accumulator rotates through carry, JR, and STOP.
    #[verifier::spinoff_prover]
    #[verifier::rlimit(100)]
    fn execute_misc_low_block<B: BusInterface>(&mut self, bus: &mut B, opcode: u8)
        requires
            opcode < 0x20,
            !old(self).state.halt_bug_triggered,
        ensures
            spec_misc_block_effect(
                *old(self),
                *final(self),
                old(bus).ops(),
                final(bus).ops(),
                opcode,
            ),
            final(self).state.executed_invalid_opcode
                == old(self).state.executed_invalid_opcode,
            final(self).state.stopped == (old(self).state.stopped || opcode == 0x10),
            final(self).state.handling_interrupt == old(self).state.handling_interrupt,
            opcode == 0x10 ==> {
                &&& final(self).registers == old(self).registers
                &&& final(bus).ops() == old(bus).ops()
            },
    {
        match opcode {
            // NOP
            0x00 => {}
            // LD rr, u16
            0x01 | 0x11 => self.ld_rr_nn(bus, opcode),
            // INC rr
            0x03 | 0x13 => self.inc_rr(bus, opcode),
            // DEC rr
            0x0B | 0x1B => self.dec_rr(bus, opcode),
            // ADD HL, rr
            0x09 | 0x19 => self.add_hl_rr(bus, opcode),
            // INC r
            0x04 | 0x0C | 0x14 | 0x1C => self.inc_r(bus, opcode),
            // DEC r
            0x05 | 0x0D | 0x15 | 0x1D => self.dec_r(bus, opcode),
            // LD r, u8
            0x06 | 0x0E | 0x16 | 0x1E => self.ld_r_imm(bus, opcode),
            // LD (BC), A
            0x02 => self.ld_bc_a(bus),
            // RLCA
            0x07 => self.rlca(),
            // LD (u16), SP
            0x08 => self.ld_indirect_sp(bus),
            // LD A, (BC)
            0x0A => self.ld_a_bc(bus),
            // RRCA
            0x0F => self.rrca(),
            // STOP: low-power mode is not modelled; explicit stop condition.
            0x10 => self.state.stopped = true,
            // LD (DE), A
            0x12 => self.ld_de_a(bus),
            // RLA
            0x17 => self.rla(),
            // JR i8
            0x18 => self.jr_e(bus),
            // LD A, (DE)
            0x1A => self.ld_a_de(bus),
            // RRA
            _ => self.rra(),
        }
    }

    /// Opcodes $20-$3F: conditional JR, 16-bit arithmetic and loads on
    /// HL/SP, the HL+/HL- loads, DAA/CPL/SCF/CCF.
    #[verifier::spinoff_prover]
    #[verifier::rlimit(100)]
    fn execute_misc_high_block<B: BusInterface>(&mut self, bus: &mut B, opcode: u8)
        requires
            0x20 <= opcode && opcode < 0x40,
            !old(self).state.halt_bug_triggered,
        ensures
            spec_misc_block_effect(
                *old(self),
                *final(self),
                old(bus).ops(),
                final(bus).ops(),
                opcode,
            ),
            final(self).state == old(self).state,
    {
        match opcode {
            // LD rr, u16
            0x21 | 0x31 => self.ld_rr_nn(bus, opcode),
            // INC rr
            0x23 | 0x33 => self.inc_rr(bus, opcode),
            // DEC rr
            0x2B | 0x3B => self.dec_rr(bus, opcode),
            // ADD HL, rr
            0x29 | 0x39 => self.add_hl_rr(bus, opcode),
            // INC r / INC (HL)
            0x24 | 0x2C | 0x34 | 0x3C => self.inc_r(bus, opcode),
            // DEC r / DEC (HL)
            0x25 | 0x2D | 0x35 | 0x3D => self.dec_r(bus, opcode),
            // LD r, u8 / LD (HL), u8
            0x26 | 0x2E | 0x36 | 0x3E => self.ld_r_imm(bus, opcode),
            // JR cc, i8
            0x20 | 0x28 | 0x30 | 0x38 => self.jr_cc_e(bus, opcode),
            // LD (HL+), A
            0x22 => self.ld_hl_a_postinc(bus),
            // DAA
            0x27 => self.daa(),
            // LD A, (HL+)
            0x2A => self.ld_a_hl_postinc(bus),
            // CPL
            0x2F => self.cpl(),
            // LD (HL-), A
            0x32 => self.ld_hl_a_postdec(bus),
            // SCF
            0x37 => self.scf(),
            // LD A, (HL-)
            0x3A => self.ld_a_hl_postdec(bus),
            // CCF
            _ => self.ccf(),
        }
    }

    /// Opcodes $40-$7F: the register-to-register load block, and HALT in
    /// the (HL),(HL) slot.
    #[verifier::spinoff_prover]
    #[verifier::rlimit(100)]
    fn execute_load_block<B: BusInterface>(&mut self, bus: &mut B, opcode: u8)
        requires
            0x40 <= opcode && opcode < 0x80,
        ensures
            spec_load_block_effect(
                *old(self),
                *final(self),
                old(bus).ops(),
                final(bus).ops(),
                old(bus).pending(),
                opcode,
            ),
            final(self).state.executed_invalid_opcode
                == old(self).state.executed_invalid_opcode,
            final(self).state.stopped == old(self).state.stopped,
            final(self).state.handling_interrupt == old(self).state.handling_interrupt,
    {
        if opcode == 0x76 {
            self.halt(bus);
        } else {
            self.ld_r_r(bus, opcode);
        }
    }

    /// Opcodes $80-$BF: the eight accumulator ALU operations over the
    /// register selector.
    #[verifier::spinoff_prover]
    #[verifier::rlimit(100)]
    fn execute_alu_block<B: BusInterface>(&mut self, bus: &mut B, opcode: u8)
        requires
            0x80 <= opcode && opcode < 0xC0,
        ensures
            spec_alu_block_effect(
                *old(self),
                *final(self),
                old(bus).ops(),
                final(bus).ops(),
                opcode,
            ),
            final(self).state == old(self).state,
    {
        match opcode {
            // ADD A, r / ADD A, (HL)
            0x80..=0x87 => self.add_a_r(bus, opcode),
            // ADC A, r / ADC A, (HL)
            0x88..=0x8F => self.adc_a_r(bus, opcode),
            // SUB A, r / SUB A, (HL)
            0x90..=0x97 => self.sub_a_r(bus, opcode),
            // SBC A, r / SBC A, (HL)
            0x98..=0x9F => self.sbc_a_r(bus, opcode),
            // AND A, r / AND A, (HL)
            0xA0..=0xA7 => self.and_a_r(bus, opcode),
            // XOR A, r / XOR A, (HL)
            0xA8..=0xAF => self.xor_a_r(bus, opcode),
            // OR A, r / OR A, (HL)
            0xB0..=0xB7 => self.or_a_r(bus, opcode),
            // CP A, r / CP A, (HL)
            _ => self.cp_a_r(bus, opcode),
        }
    }

    /// Opcodes $C0-$DF: conditional and plain jumps/calls/returns, the
    /// BC/DE stack instructions, the $CB prefix, immediate ALU operations,
    /// RETI, and three invalid opcodes.
    #[verifier::spinoff_prover]
    #[verifier::rlimit(100)]
    fn execute_control_low_block<B: BusInterface>(&mut self, bus: &mut B, opcode: u8)
        requires
            0xC0 <= opcode && opcode < 0xE0,
            !old(self).state.halt_bug_triggered,
        ensures
            spec_control_block_effect(
                *old(self),
                *final(self),
                old(bus).ops(),
                final(bus).ops(),
                opcode,
            ),
            final(self).state.executed_invalid_opcode == (
                old(self).state.executed_invalid_opcode || spec_is_invalid_opcode(opcode)
            ),
            final(self).state.stopped == old(self).state.stopped,
            final(self).state.handling_interrupt == old(self).state.handling_interrupt,
            spec_is_invalid_opcode(opcode) ==> {
                &&& final(self).registers == old(self).registers
                &&& final(bus).ops() == old(bus).ops()
            },
    {
        match opcode {
            // POP rr
            0xC1 | 0xD1 => self.pop_rr(bus, opcode),
            // PUSH rr
            0xC5 | 0xD5 => self.push_rr(bus, opcode),
            // RET cc
            0xC0 | 0xC8 | 0xD0 | 0xD8 => self.ret_cc(bus, opcode),
            // JP cc, u16
            0xC2 | 0xCA | 0xD2 | 0xDA => self.jp_cc_nn(bus, opcode),
            // CALL cc, u16
            0xC4 | 0xCC | 0xD4 | 0xDC => self.call_cc_nn(bus, opcode),
            // RST $xx
            0xC7 | 0xCF | 0xD7 | 0xDF => self.rst(bus, opcode),
            // JP u16
            0xC3 => self.jp_nn(bus),
            // ADD A, u8
            0xC6 => self.add_a_imm(bus),
            // RET
            0xC9 => self.ret(bus),
            // $CB prefix: a second fetch selects the instruction.
            0xCB => self.execute_cb_prefix_opcode(bus),
            // CALL u16
            0xCD => self.call_nn(bus),
            // ADC A, u8
            0xCE => self.adc_a_imm(bus),
            // SUB A, u8
            0xD6 => self.sub_a_imm(bus),
            // RETI
            0xD9 => self.reti(bus),
            // SBC A, u8
            0xDE => self.sbc_a_imm(bus),
            // Invalid opcodes ($D3, $DB, $DD): executing one locks the CPU.
            _ => self.state.executed_invalid_opcode = true,
        }
    }

    /// Opcodes $E0-$FF: the $FF00-page loads, absolute loads of A, the
    /// HL/AF stack instructions, SP arithmetic, EI/DI, and eight invalid
    /// opcodes.
    #[verifier::spinoff_prover]
    #[verifier::rlimit(100)]
    fn execute_control_high_block<B: BusInterface>(&mut self, bus: &mut B, opcode: u8)
        requires
            0xE0 <= opcode,
            !old(self).state.halt_bug_triggered,
        ensures
            spec_control_block_effect(
                *old(self),
                *final(self),
                old(bus).ops(),
                final(bus).ops(),
                opcode,
            ),
            final(self).state.executed_invalid_opcode == (
                old(self).state.executed_invalid_opcode || spec_is_invalid_opcode(opcode)
            ),
            final(self).state.stopped == old(self).state.stopped,
            final(self).state.handling_interrupt == old(self).state.handling_interrupt,
            spec_is_invalid_opcode(opcode) ==> {
                &&& final(self).registers == old(self).registers
                &&& final(bus).ops() == old(bus).ops()
            },
    {
        match opcode {
            // POP rr
            0xE1 | 0xF1 => self.pop_rr(bus, opcode),
            // PUSH rr
            0xE5 | 0xF5 => self.push_rr(bus, opcode),
            // RST $xx
            0xE7 | 0xEF | 0xF7 | 0xFF => self.rst(bus, opcode),
            // LDH (u8), A
            0xE0 => self.ldh_imm_a(bus),
            // LD ($FF00+C), A
            0xE2 => self.ld_c_a_high_page(bus),
            // AND A, u8
            0xE6 => self.and_a_imm(bus),
            // ADD SP, i8
            0xE8 => self.add_sp_e(bus),
            // JP HL
            0xE9 => self.jp_hl(bus),
            // LD (u16), A
            0xEA => self.ld_indirect_a(bus),
            // XOR A, u8
            0xEE => self.xor_a_imm(bus),
            // LDH A, (u8)
            0xF0 => self.ldh_a_imm(bus),
            // LD A, ($FF00+C)
            0xF2 => self.ld_a_c_high_page(bus),
            // DI
            0xF3 => self.di(),
            // OR A, u8
            0xF6 => self.or_a_imm(bus),
            // LD HL, SP+i8
            0xF8 => self.ld_hl_sp_e(bus),
            // LD SP, HL
            0xF9 => self.ld_sp_hl(bus),
            // LD A, (u16)
            0xFA => self.ld_a_indirect(bus),
            // EI
            0xFB => self.ei(),
            // CP A, u8
            0xFE => self.cp_a_imm(bus),
            // Invalid opcodes ($E3, $E4, $EB-$ED, $F4, $FC, $FD).
            _ => self.state.executed_invalid_opcode = true,
        }
    }

    /// Fetch and execute a $CB-prefixed opcode. The second decode is also
    /// total: every byte maps to exactly one handler, and the whole
    /// transition is pinned down by [`spec_cb_prefix_effect`].
    pub fn execute_cb_prefix_opcode<B: BusInterface>(&mut self, bus: &mut B)
        requires
            !old(self).state.halt_bug_triggered,
        ensures
            final(self).state == old(self).state,
            spec_cb_prefix_effect(*old(self), *final(self), old(bus).ops(), final(bus).ops()),
            old(bus).ops().len() <= final(bus).ops().len(),
            forall|i: int| 0 <= i < old(bus).ops().len() ==> final(bus).ops()[i]
                == old(bus).ops()[i],
    {
        let opcode = self.fetch_operand(bus);
        match opcode {
            // RLC r / RLC (HL)
            0x00..=0x07 => self.rlc_r(bus, opcode),
            // RRC r / RRC (HL)
            0x08..=0x0F => self.rrc_r(bus, opcode),
            // RL r / RL (HL)
            0x10..=0x17 => self.rl_r(bus, opcode),
            // RR r / RR (HL)
            0x18..=0x1F => self.rr_r(bus, opcode),
            // SLA r / SLA (HL)
            0x20..=0x27 => self.sla(bus, opcode),
            // SRA r / SRA (HL)
            0x28..=0x2F => self.sra(bus, opcode),
            // SWAP r / SWAP (HL)
            0x30..=0x37 => self.swap(bus, opcode),
            // SRL r / SRL (HL)
            0x38..=0x3F => self.srl(bus, opcode),
            // BIT n, r / BIT n, (HL)
            0x40..=0x7F => self.bit(bus, opcode),
            // RES n, r / RES n, (HL)
            0x80..=0xBF => self.res(bus, opcode),
            // SET n, r / SET n, (HL)
            0xC0..=0xFF => self.set(bus, opcode),
        }
    }
}

impl Registers {
    /// Spec-level view of [`Registers::new`].
    pub open spec fn new_spec() -> Registers {
        Registers {
            a: 0x01,
            f: Flags { zero: true, subtract: false, half_carry: false, carry: false },
            b: 0x00,
            c: 0x13,
            d: 0x00,
            e: 0xD8,
            h: 0x01,
            l: 0x4D,
            sp: HRAM_END,
            pc: ENTRY_POINT,
            ime: false,
        }
    }
}

} // verus!
