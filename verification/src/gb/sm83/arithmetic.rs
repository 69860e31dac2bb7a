//! 8-bit and 16-bit arithmetic and logic instructions.
//!
//! Each operation's result and flags are defined by a spec function; the
//! handlers are proved to apply exactly that function and to leave every
//! undocumented flag untouched.

use vstd::prelude::*;
use crate::bits::{spec_wadd16, spec_wadd8};
use crate::gb::sm83::bus::{op_value, BusInterface, BusOp};
use crate::gb::sm83::{Flags, Registers, Sm83, State};

verus! {

/// ADD/ADC: result and flags of `a + b (+ carry)`.
pub open spec fn spec_add8(a: u8, b: u8, carry_in: bool) -> (u8, Flags) {
    let cin = if carry_in { 1int } else { 0int };
    let sum = a + b + cin;
    let result = (sum % 256) as u8;
    (result, Flags {
        zero: result == 0,
        subtract: false,
        half_carry: (a & 0xF) + (b & 0xF) + cin > 0xF,
        carry: sum > 0xFF,
    })
}

/// SUB/SBC/CP: result and flags of `a - b (- carry)`.
pub open spec fn spec_sub8(a: u8, b: u8, carry_in: bool) -> (u8, Flags) {
    let cin = if carry_in { 1int } else { 0int };
    let diff = a - b - cin;
    let result = (if diff >= 0 { diff } else { diff + 256 }) as u8;
    (result, Flags {
        zero: result == 0,
        subtract: true,
        half_carry: (a & 0xF) - (b & 0xF) - cin < 0,
        carry: diff < 0,
    })
}

/// AND: bitwise and; the half-carry flag is always set.
pub open spec fn spec_and8(a: u8, b: u8) -> (u8, Flags) {
    let result = a & b;
    (result, Flags { zero: result == 0, subtract: false, half_carry: true, carry: false })
}

/// XOR: bitwise exclusive or; all other flags cleared.
pub open spec fn spec_xor8(a: u8, b: u8) -> (u8, Flags) {
    let result = a ^ b;
    (result, Flags { zero: result == 0, subtract: false, half_carry: false, carry: false })
}

/// OR: bitwise or; all other flags cleared.
pub open spec fn spec_or8(a: u8, b: u8) -> (u8, Flags) {
    let result = a | b;
    (result, Flags { zero: result == 0, subtract: false, half_carry: false, carry: false })
}

/// INC r: the carry flag is documented as unaffected and keeps `carry`.
pub open spec fn spec_inc8(v: u8, carry: bool) -> (u8, Flags) {
    let result = spec_wadd8(v, 1);
    (result, Flags {
        zero: result == 0,
        subtract: false,
        half_carry: v & 0xF == 0xF,
        carry,
    })
}

/// DEC r: the carry flag is documented as unaffected and keeps `carry`.
pub open spec fn spec_dec8(v: u8, carry: bool) -> (u8, Flags) {
    let result = crate::bits::spec_wsub8(v, 1);
    (result, Flags {
        zero: result == 0,
        subtract: true,
        half_carry: v & 0xF == 0,
        carry,
    })
}

/// DAA: BCD adjustment of A after an addition or subtraction.
pub open spec fn spec_daa(a: u8, f: Flags) -> (u8, Flags) {
    if !f.subtract {
        let carry = f.carry || a > 0x99;
        let a1 = if carry { spec_wadd8(a, 0x60) } else { a };
        let result = if f.half_carry || (a & 0xF) > 9 { spec_wadd8(a1, 0x06) } else { a1 };
        (result, Flags { zero: result == 0, subtract: f.subtract, half_carry: false, carry })
    } else {
        let a1 = if f.carry { crate::bits::spec_wsub8(a, 0x60) } else { a };
        let result = if f.half_carry { crate::bits::spec_wsub8(a1, 0x06) } else { a1 };
        (result, Flags { zero: result == 0, subtract: f.subtract, half_carry: false, carry: f.carry })
    }
}

/// ADD HL, rr: 16-bit add into HL; the zero flag is unaffected.
pub open spec fn spec_add16(hl: u16, rr: u16, zero: bool) -> (u16, Flags) {
    (spec_wadd16(hl, rr), Flags {
        zero,
        subtract: false,
        half_carry: (hl & 0xFFF) + (rr & 0xFFF) > 0xFFF,
        carry: hl + rr > 0xFFFF,
    })
}

/// ADD SP, e / LD HL, SP+e: SP plus a sign-extended byte; Z and N cleared,
/// H and C from the low-byte addition.
pub open spec fn spec_sp_plus_e(sp: u16, e: u8) -> (u16, Flags) {
    let offset = if e >= 0x80 { (e + 0xFF00) as u16 } else { e as u16 };
    (spec_wadd16(sp, offset), Flags {
        zero: false,
        subtract: false,
        half_carry: (sp & 0xF) + (e & 0xF) > 0xF,
        carry: (sp & 0xFF) + e > 0xFF,
    })
}

/// The register file after an accumulator operation: A and F replaced.
pub open spec fn spec_apply_acc(regs: Registers, rf: (u8, Flags)) -> Registers {
    Registers { a: rf.0, f: rf.1, ..regs }
}

/// ADD/ADC/SUB/SBC/AND/XOR/OR/CP with a register (or (HL)) operand.
pub open spec fn spec_acc_op_ensures(
    pre: Sm83,
    post: Sm83,
    pre_ops: Seq<BusOp>,
    post_ops: Seq<BusOp>,
    opcode: u8,
    rf_of: spec_fn(u8) -> (u8, Flags),
) -> bool {
    &&& post.state == pre.state
    &&& (opcode & 0x7 != 6 ==> {
        &&& post_ops == pre_ops
        &&& post.registers == spec_apply_acc(pre.registers, rf_of(pre.registers.spec_r8(opcode)))
    })
    &&& (opcode & 0x7 == 6 ==> {
        let v = op_value(post_ops.last());
        &&& post_ops == pre_ops.push(BusOp::Read { address: pre.registers.spec_hl(), value: v })
        &&& post.registers == spec_apply_acc(pre.registers, rf_of(v))
    })
}

/// Immediate-operand accumulator operation: one fetch, then apply.
pub open spec fn spec_acc_imm_ensures(
    pre: Sm83,
    post: Sm83,
    pre_ops: Seq<BusOp>,
    post_ops: Seq<BusOp>,
    rf_of: spec_fn(u8) -> (u8, Flags),
) -> bool {
    let v = op_value(post_ops.last());
    &&& post.state == pre.state
    &&& post_ops == pre_ops.push(BusOp::Read { address: pre.registers.pc, value: v })
    &&& post.registers == spec_apply_acc(
        Registers { pc: spec_wadd16(pre.registers.pc, 1), ..pre.registers },
        rf_of(v),
    )
}

/// Compute ADD/ADC as an executable step.
fn alu_add8(a: u8, b: u8, carry_in: bool) -> (r: (u8, Flags))
    ensures
        r == spec_add8(a, b, carry_in),
{
    let cin: u16 = if carry_in { 1 } else { 0 };
    let sum: u16 = a as u16 + b as u16 + cin;
    let result: u8 = (sum % 256) as u8;
    (result, Flags {
        zero: result == 0,
        subtract: false,
        half_carry: (a & 0xF) as u16 + (b & 0xF) as u16 + cin > 0xF,
        carry: sum > 0xFF,
    })
}

/// Compute SUB/SBC/CP as an executable step.
fn alu_sub8(a: u8, b: u8, carry_in: bool) -> (r: (u8, Flags))
    ensures
        r == spec_sub8(a, b, carry_in),
{
    let cin: u16 = if carry_in { 1 } else { 0 };
    let rhs: u16 = b as u16 + cin;
    let result: u8 = if a as u16 >= rhs {
        (a as u16 - rhs) as u8
    } else {
        (a as u16 + 256 - rhs) as u8
    };
    (result, Flags {
        zero: result == 0,
        subtract: true,
        half_carry: ((a & 0xF) as u16) < ((b & 0xF) as u16) + cin,
        carry: (a as u16) < rhs,
    })
}

impl Sm83 {
    /// ADD A, r / ADD A, (HL)
    pub(in crate::gb::sm83) fn add_a_r<B: BusInterface>(&mut self, bus: &mut B, opcode: u8)
        ensures
            spec_acc_op_ensures(
                *old(self),
                *final(self),
                old(bus).ops(),
                final(bus).ops(),
                opcode,
                |v: u8| spec_add8(old(self).registers.a, v, false),
            ),
    {
        let value = self.read_register(bus, opcode);
        let (result, flags) = alu_add8(self.registers.a, value, false);
        self.registers.a = result;
        self.registers.f = flags;
    }

    /// ADC A, r / ADC A, (HL)
    pub(in crate::gb::sm83) fn adc_a_r<B: BusInterface>(&mut self, bus: &mut B, opcode: u8)
        ensures
            spec_acc_op_ensures(
                *old(self),
                *final(self),
                old(bus).ops(),
                final(bus).ops(),
                opcode,
                |v: u8| spec_add8(old(self).registers.a, v, old(self).registers.f.carry),
            ),
    {
        let value = self.read_register(bus, opcode);
        let (result, flags) = alu_add8(self.registers.a, value, self.registers.f.carry);
        self.registers.a = result;
        self.registers.f = flags;
    }

    /// SUB A, r / SUB A, (HL)
    pub(in crate::gb::sm83) fn sub_a_r<B: BusInterface>(&mut self, bus: &mut B, opcode: u8)
        ensures
            spec_acc_op_ensures(
                *old(self),
                *final(self),
                old(bus).ops(),
                final(bus).ops(),
                opcode,
                |v: u8| spec_sub8(old(self).registers.a, v, false),
            ),
    {
        let value = self.read_register(bus, opcode);
        let (result, flags) = alu_sub8(self.registers.a, value, false);
        self.registers.a = result;
        self.registers.f = flags;
    }

    /// SBC A, r / SBC A, (HL)
    pub(in crate::gb::sm83) fn sbc_a_r<B: BusInterface>(&mut self, bus: &mut B, opcode: u8)
        ensures
            spec_acc_op_ensures(
                *old(self),
                *final(self),
                old(bus).ops(),
                final(bus).ops(),
                opcode,
                |v: u8| spec_sub8(old(self).registers.a, v, old(self).registers.f.carry),
            ),
    {
        let value = self.read_register(bus, opcode);
        let (result, flags) = alu_sub8(self.registers.a, value, self.registers.f.carry);
        self.registers.a = result;
        self.registers.f = flags;
    }

    /// AND A, r / AND A, (HL)
    pub(in crate::gb::sm83) fn and_a_r<B: BusInterface>(&mut self, bus: &mut B, opcode: u8)
        ensures
            spec_acc_op_ensures(
                *old(self),
                *final(self),
                old(bus).ops(),
                final(bus).ops(),
                opcode,
                |v: u8| spec_and8(old(self).registers.a, v),
            ),
    {
        let value = self.read_register(bus, opcode);
        let result = self.registers.a & value;
        self.registers.a = result;
        self.registers.f = Flags {
            zero: result == 0,
            subtract: false,
            half_carry: true,
            carry: false,
        };
    }

    /// XOR A, r / XOR A, (HL)
    pub(in crate::gb::sm83) fn xor_a_r<B: BusInterface>(&mut self, bus: &mut B, opcode: u8)
        ensures
            spec_acc_op_ensures(
                *old(self),
                *final(self),
                old(bus).ops(),
                final(bus).ops(),
                opcode,
                |v: u8| spec_xor8(old(self).registers.a, v),
            ),
    {
        let value = self.read_register(bus, opcode);
        let result = self.registers.a ^ value;
        self.registers.a = result;
        self.registers.f = Flags {
            zero: result == 0,
            subtract: false,
            half_carry: false,
            carry: false,
        };
    }

    /// OR A, r / OR A, (HL)
    pub(in crate::gb::sm83) fn or_a_r<B: BusInterface>(&mut self, bus: &mut B, opcode: u8)
        ensures
            spec_acc_op_ensures(
                *old(self),
                *final(self),
                old(bus).ops(),
                final(bus).ops(),
                opcode,
                |v: u8| spec_or8(old(self).registers.a, v),
            ),
    {
        let value = self.read_register(bus, opcode);
        let result = self.registers.a | value;
        self.registers.a = result;
        self.registers.f = Flags {
            zero: result == 0,
            subtract: false,
            half_carry: false,
            carry: false,
        };
    }

    /// CP A, r / CP A, (HL): flags of the subtraction, A unchanged.
    pub(in crate::gb::sm83) fn cp_a_r<B: BusInterface>(&mut self, bus: &mut B, opcode: u8)
        ensures
            spec_acc_op_ensures(
                *old(self),
                *final(self),
                old(bus).ops(),
                final(bus).ops(),
                opcode,
                |v: u8| (old(self).registers.a, spec_sub8(old(self).registers.a, v, false).1),
            ),
    {
        let value = self.read_register(bus, opcode);
        let (_, flags) = alu_sub8(self.registers.a, value, false);
        self.registers.f = flags;
    }

    /// ADD A, u8
    pub(in crate::gb::sm83) fn add_a_imm<B: BusInterface>(&mut self, bus: &mut B)
        requires
            !old(self).state.halt_bug_triggered,
        ensures
            spec_acc_imm_ensures(
                *old(self),
                *final(self),
                old(bus).ops(),
                final(bus).ops(),
                |v: u8| spec_add8(old(self).registers.a, v, false),
            ),
    {
        let value = self.fetch_operand(bus);
        let (result, flags) = alu_add8(self.registers.a, value, false);
        self.registers.a = result;
        self.registers.f = flags;
    }

    /// ADC A, u8
    pub(in crate::gb::sm83) fn adc_a_imm<B: BusInterface>(&mut self, bus: &mut B)
        requires
            !old(self).state.halt_bug_triggered,
        ensures
            spec_acc_imm_ensures(
                *old(self),
                *final(self),
                old(bus).ops(),
                final(bus).ops(),
                |v: u8| spec_add8(old(self).registers.a, v, old(self).registers.f.carry),
            ),
    {
        let value = self.fetch_operand(bus);
        let (result, flags) = alu_add8(self.registers.a, value, self.registers.f.carry);
        self.registers.a = result;
        self.registers.f = flags;
    }

    /// SUB A, u8
    pub(in crate::gb::sm83) fn sub_a_imm<B: BusInterface>(&mut self, bus: &mut B)
        requires
            !old(self).state.halt_bug_triggered,
        ensures
            spec_acc_imm_ensures(
                *old(self),
                *final(self),
                old(bus).ops(),
                final(bus).ops(),
                |v: u8| spec_sub8(old(self).registers.a, v, false),
            ),
    {
        let value = self.fetch_operand(bus);
        let (result, flags) = alu_sub8(self.registers.a, value, false);
        self.registers.a = result;
        self.registers.f = flags;
    }

    /// SBC A, u8
    pub(in crate::gb::sm83) fn sbc_a_imm<B: BusInterface>(&mut self, bus: &mut B)
        requires
            !old(self).state.halt_bug_triggered,
        ensures
            spec_acc_imm_ensures(
                *old(self),
                *final(self),
                old(bus).ops(),
                final(bus).ops(),
                |v: u8| spec_sub8(old(self).registers.a, v, old(self).registers.f.carry),
            ),
    {
        let value = self.fetch_operand(bus);
        let (result, flags) = alu_sub8(self.registers.a, value, self.registers.f.carry);
        self.registers.a = result;
        self.registers.f = flags;
    }

    /// AND A, u8
    pub(in crate::gb::sm83) fn and_a_imm<B: BusInterface>(&mut self, bus: &mut B)
        requires
            !old(self).state.halt_bug_triggered,
        ensures
            spec_acc_imm_ensures(
                *old(self),
                *final(self),
                old(bus).ops(),
                final(bus).ops(),
                |v: u8| spec_and8(old(self).registers.a, v),
            ),
    {
        let value = self.fetch_operand(bus);
        let result = self.registers.a & value;
        self.registers.a = result;
        self.registers.f = Flags {
            zero: result == 0,
            subtract: false,
            half_carry: true,
            carry: false,
        };
    }

    /// XOR A, u8
    pub(in crate::gb::sm83) fn xor_a_imm<B: BusInterface>(&mut self, bus: &mut B)
        requires
            !old(self).state.halt_bug_triggered,
        ensures
            spec_acc_imm_ensures(
                *old(self),
                *final(self),
                old(bus).ops(),
                final(bus).ops(),
                |v: u8| spec_xor8(old(self).registers.a, v),
            ),
    {
        let value = self.fetch_operand(bus);
        let result = self.registers.a ^ value;
        self.registers.a = result;
        self.registers.f = Flags {
            zero: result == 0,
            subtract: false,
            half_carry: false,
            carry: false,
        };
    }

    /// OR A, u8
    pub(in crate::gb::sm83) fn or_a_imm<B: BusInterface>(&mut self, bus: &mut B)
        requires
            !old(self).state.halt_bug_triggered,
        ensures
            spec_acc_imm_ensures(
                *old(self),
                *final(self),
                old(bus).ops(),
                final(bus).ops(),
                |v: u8| spec_or8(old(self).registers.a, v),
            ),
    {
        let value = self.fetch_operand(bus);
        let result = self.registers.a | value;
        self.registers.a = result;
        self.registers.f = Flags {
            zero: result == 0,
            subtract: false,
            half_carry: false,
            carry: false,
        };
    }

    /// CP A, u8
    pub(in crate::gb::sm83) fn cp_a_imm<B: BusInterface>(&mut self, bus: &mut B)
        requires
            !old(self).state.halt_bug_triggered,
        ensures
            spec_acc_imm_ensures(
                *old(self),
                *final(self),
                old(bus).ops(),
                final(bus).ops(),
                |v: u8| (old(self).registers.a, spec_sub8(old(self).registers.a, v, false).1),
            ),
    {
        let value = self.fetch_operand(bus);
        let (_, flags) = alu_sub8(self.registers.a, value, false);
        self.registers.f = flags;
    }

    /// INC r / INC (HL): the carry flag is unaffected.
    pub(in crate::gb::sm83) fn inc_r<B: BusInterface>(&mut self, bus: &mut B, opcode: u8)
        ensures
            final(self).state == old(self).state,
            ({
                let sel = (opcode >> 3) as u8;
                let rf = spec_inc8(
                    if sel & 0x7 == 6 {
                        op_value(final(bus).ops()[old(bus).ops().len() as int])
                    } else {
                        old(self).registers.spec_r8(sel)
                    },
                    old(self).registers.f.carry,
                );
                &&& (sel & 0x7 != 6 ==> {
                    &&& final(bus).ops() == old(bus).ops()
                    &&& final(self).registers == (Registers {
                        f: rf.1,
                        ..old(self).registers.spec_with_r8(sel, rf.0)
                    })
                })
                &&& (sel & 0x7 == 6 ==> {
                    let hl = old(self).registers.spec_hl();
                    &&& final(bus).ops() == old(bus).ops()
                        .push(final(bus).ops()[old(bus).ops().len() as int])
                        .push(BusOp::Write { address: hl, value: rf.0 })
                    &&& final(bus).ops()[old(bus).ops().len() as int] matches BusOp::Read {
                        address: a,
                        value: _,
                    } && a == hl
                    &&& final(self).registers == (Registers { f: rf.1, ..old(self).registers })
                })
            }),
    {
        let sel = opcode >> 3;
        let value = self.read_register(bus, sel);
        let result = value.wrapping_add(1);
        self.registers.f = Flags {
            zero: result == 0,
            subtract: false,
            half_carry: value & 0xF == 0xF,
            carry: self.registers.f.carry,
        };
        self.write_register(bus, sel, result);
    }

    /// DEC r / DEC (HL): the carry flag is unaffected.
    pub(in crate::gb::sm83) fn dec_r<B: BusInterface>(&mut self, bus: &mut B, opcode: u8)
        ensures
            final(self).state == old(self).state,
            ({
                let sel = (opcode >> 3) as u8;
                let rf = spec_dec8(
                    if sel & 0x7 == 6 {
                        op_value(final(bus).ops()[old(bus).ops().len() as int])
                    } else {
                        old(self).registers.spec_r8(sel)
                    },
                    old(self).registers.f.carry,
                );
                &&& (sel & 0x7 != 6 ==> {
                    &&& final(bus).ops() == old(bus).ops()
                    &&& final(self).registers == (Registers {
                        f: rf.1,
                        ..old(self).registers.spec_with_r8(sel, rf.0)
                    })
                })
                &&& (sel & 0x7 == 6 ==> {
                    let hl = old(self).registers.spec_hl();
                    &&& final(bus).ops() == old(bus).ops()
                        .push(final(bus).ops()[old(bus).ops().len() as int])
                        .push(BusOp::Write { address: hl, value: rf.0 })
                    &&& final(bus).ops()[old(bus).ops().len() as int] matches BusOp::Read {
                        address: a,
                        value: _,
                    } && a == hl
                    &&& final(self).registers == (Registers { f: rf.1, ..old(self).registers })
                })
            }),
    {
        let sel = opcode >> 3;
        let value = self.read_register(bus, sel);
        let result = value.wrapping_sub(1);
        self.registers.f = Flags {
            zero: result == 0,
            subtract: true,
            half_carry: value & 0xF == 0,
            carry: self.registers.f.carry,
        };
        self.write_register(bus, sel, result);
    }

    /// INC rr: 16-bit increment, no flags, one internal cycle.
    pub(in crate::gb::sm83) fn inc_rr<B: BusInterface>(&mut self, bus: &mut B, opcode: u8)
        ensures
            final(self).state == old(self).state,
            final(bus).ops() == old(bus).ops().push(BusOp::Idle),
            ({
                let sel = ((opcode >> 4) & 0x3) as u8;
                final(self).registers == old(self).registers.spec_with_pair(
                    sel,
                    spec_wadd16(old(self).registers.spec_pair(sel), 1),
                )
            }),
    {
        let sel = (opcode >> 4) & 0x3;
        let value = self.read_pair(sel).wrapping_add(1);
        self.write_pair(sel, value);
        bus.idle();
    }

    /// DEC rr: 16-bit decrement, no flags, one internal cycle.
    pub(in crate::gb::sm83) fn dec_rr<B: BusInterface>(&mut self, bus: &mut B, opcode: u8)
        ensures
            final(self).state == old(self).state,
            final(bus).ops() == old(bus).ops().push(BusOp::Idle),
            ({
                let sel = ((opcode >> 4) & 0x3) as u8;
                final(self).registers == old(self).registers.spec_with_pair(
                    sel,
                    crate::bits::spec_wsub16(old(self).registers.spec_pair(sel), 1),
                )
            }),
    {
        let sel = (opcode >> 4) & 0x3;
        let value = self.read_pair(sel).wrapping_sub(1);
        self.write_pair(sel, value);
        bus.idle();
    }

    /// ADD HL, rr: the zero flag is unaffected; one internal cycle.
    pub(in crate::gb::sm83) fn add_hl_rr<B: BusInterface>(&mut self, bus: &mut B, opcode: u8)
        ensures
            final(self).state == old(self).state,
            final(bus).ops() == old(bus).ops().push(BusOp::Idle),
            ({
                let sel = ((opcode >> 4) & 0x3) as u8;
                let rf = spec_add16(
                    old(self).registers.spec_hl(),
                    old(self).registers.spec_pair(sel),
                    old(self).registers.f.zero,
                );
                final(self).registers == (Registers {
                    h: crate::bits::spec_msb(rf.0),
                    l: crate::bits::spec_lsb(rf.0),
                    f: rf.1,
                    ..old(self).registers
                })
            }),
    {
        let sel = (opcode >> 4) & 0x3;
        let hl = self.registers.hl();
        let rr = self.read_pair(sel);
        let sum: u32 = hl as u32 + rr as u32;
        let result: u16 = (sum % 0x10000) as u16;
        self.registers.f = Flags {
            zero: self.registers.f.zero,
            subtract: false,
            half_carry: (hl & 0xFFF) as u32 + (rr & 0xFFF) as u32 > 0xFFF,
            carry: sum > 0xFFFF,
        };
        self.registers.set_hl(result);
        bus.idle();
    }

    /// ADD SP, e: signed immediate added to SP; two internal cycles.
    pub(in crate::gb::sm83) fn add_sp_e<B: BusInterface>(&mut self, bus: &mut B)
        requires
            !old(self).state.halt_bug_triggered,
        ensures
            final(self).state == old(self).state,
            ({
                let ops = final(bus).ops();
                let n = old(bus).ops().len() as int;
                let v = op_value(ops[n]);
                let rf = spec_sp_plus_e(old(self).registers.sp, v);
                &&& ops == old(bus).ops()
                    .push(BusOp::Read { address: old(self).registers.pc, value: v })
                    .push(BusOp::Idle)
                    .push(BusOp::Idle)
                &&& final(self).registers == (Registers {
                    pc: spec_wadd16(old(self).registers.pc, 1),
                    sp: rf.0,
                    f: rf.1,
                    ..old(self).registers
                })
            }),
    {
        let value = self.fetch_operand(bus);
        let (result, flags) = sp_plus_e(self.registers.sp, value);
        self.registers.sp = result;
        self.registers.f = flags;
        bus.idle();
        bus.idle();
    }

    /// DAA: decimal-adjust A; N is unaffected, H cleared.
    pub(in crate::gb::sm83) fn daa(&mut self)
        ensures
            final(self).state == old(self).state,
            final(self).registers == spec_apply_acc(
                old(self).registers,
                spec_daa(old(self).registers.a, old(self).registers.f),
            ),
    {
        let a = self.registers.a;
        let f = self.registers.f;
        let result: u8;
        let carry: bool;
        if !f.subtract {
            carry = f.carry || a > 0x99;
            let a1 = if carry { a.wrapping_add(0x60) } else { a };
            result = if f.half_carry || (a & 0xF) > 9 { a1.wrapping_add(0x06) } else { a1 };
        } else {
            carry = f.carry;
            let a1 = if f.carry { a.wrapping_sub(0x60) } else { a };
            result = if f.half_carry { a1.wrapping_sub(0x06) } else { a1 };
        }
        self.registers.a = result;
        self.registers.f = Flags {
            zero: result == 0,
            subtract: f.subtract,
            half_carry: false,
            carry,
        };
    }

    /// CPL: complement A; Z and C are unaffected, N and H set.
    pub(in crate::gb::sm83) fn cpl(&mut self)
        ensures
            final(self).state == old(self).state,
            final(self).registers == (Registers {
                a: !old(self).registers.a,
                f: Flags {
                    zero: old(self).registers.f.zero,
                    subtract: true,
                    half_carry: true,
                    carry: old(self).registers.f.carry,
                },
                ..old(self).registers
            }),
    {
        self.registers.a = !self.registers.a;
        self.registers.f = Flags {
            zero: self.registers.f.zero,
            subtract: true,
            half_carry: true,
            carry: self.registers.f.carry,
        };
    }

    /// SCF: set carry; Z unaffected, N and H cleared.
    pub(in crate::gb::sm83) fn scf(&mut self)
        ensures
            final(self).state == old(self).state,
            final(self).registers == (Registers {
                f: Flags {
                    zero: old(self).registers.f.zero,
                    subtract: false,
                    half_carry: false,
                    carry: true,
                },
                ..old(self).registers
            }),
    {
        self.registers.f = Flags {
            zero: self.registers.f.zero,
            subtract: false,
            half_carry: false,
            carry: true,
        };
    }

    /// CCF: complement carry; Z unaffected, N and H cleared.
    pub(in crate::gb::sm83) fn ccf(&mut self)
        ensures
            final(self).state == old(self).state,
            final(self).registers == (Registers {
                f: Flags {
                    zero: old(self).registers.f.zero,
                    subtract: false,
                    half_carry: false,
                    carry: !old(self).registers.f.carry,
                },
                ..old(self).registers
            }),
    {
        self.registers.f = Flags {
            zero: self.registers.f.zero,
            subtract: false,
            half_carry: false,
            carry: !self.registers.f.carry,
        };
    }

    /// Read the 16-bit pair selected by a 2-bit field (BC/DE/HL/SP).
    pub(in crate::gb::sm83) fn read_pair(&self, sel: u8) -> (r: u16)
        ensures
            r == self.registers.spec_pair(sel),
    {
        match sel & 0x3 {
            0 => self.registers.bc(),
            1 => self.registers.de(),
            2 => self.registers.hl(),
            _ => self.registers.sp,
        }
    }

    /// Write the 16-bit pair selected by a 2-bit field (BC/DE/HL/SP).
    pub(in crate::gb::sm83) fn write_pair(&mut self, sel: u8, value: u16)
        ensures
            final(self).registers == old(self).registers.spec_with_pair(sel, value),
            final(self).state == old(self).state,
    {
        match sel & 0x3 {
            0 => self.registers.set_bc(value),
            1 => self.registers.set_de(value),
            2 => self.registers.set_hl(value),
            _ => self.registers.sp = value,
        }
    }
}

/// Executable SP + signed-byte helper.
pub(in crate::gb::sm83) fn sp_plus_e(sp: u16, e: u8) -> (r: (u16, Flags))
    ensures
        r == spec_sp_plus_e(sp, e),
{
    proof {
        crate::bits::lemma_and_bound_u16(sp, 0xF);
        crate::bits::lemma_and_bound_u16(sp, 0xFF);
        crate::bits::lemma_and_bound_u8(e, 0xF);
    }
    let offset: u16 = if e >= 0x80 { e as u16 + 0xFF00 } else { e as u16 };
    let result = sp.wrapping_add(offset);
    (result, Flags {
        zero: false,
        subtract: false,
        half_carry: (sp & 0xF) + (e & 0xF) as u16 > 0xF,
        carry: (sp & 0xFF) + e as u16 > 0xFF,
    })
}

} // verus!
