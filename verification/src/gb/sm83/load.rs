//! 8-bit and 16-bit load, store, and stack instructions.

use vstd::prelude::*;
use crate::bits::{spec_lsb, spec_msb, spec_wadd16, spec_wsub16, spec_word};
use crate::gb::sm83::arithmetic::{sp_plus_e, spec_sp_plus_e};
use crate::gb::sm83::bus::{op_value, BusInterface, BusOp};
use crate::gb::sm83::{Flags, Registers, Sm83};

verus! {

/// The stack-instruction register pair (PUSH/POP): BC, DE, HL, or AF.
pub open spec fn spec_stack_pair(regs: Registers, sel: u8) -> u16 {
    if sel & 0x3 == 0 {
        regs.spec_bc()
    } else if sel & 0x3 == 1 {
        regs.spec_de()
    } else if sel & 0x3 == 2 {
        regs.spec_hl()
    } else {
        regs.spec_af()
    }
}

/// The register file with the stack pair replaced; writing F keeps only the
/// four flag bits.
pub open spec fn spec_with_stack_pair(regs: Registers, sel: u8, value: u16) -> Registers {
    if sel & 0x3 == 0 {
        Registers { b: spec_msb(value), c: spec_lsb(value), ..regs }
    } else if sel & 0x3 == 1 {
        Registers { d: spec_msb(value), e: spec_lsb(value), ..regs }
    } else if sel & 0x3 == 2 {
        Registers { h: spec_msb(value), l: spec_lsb(value), ..regs }
    } else {
        Registers {
            a: spec_msb(value),
            f: crate::gb::sm83::Flags::spec_from_byte(spec_lsb(value)),
            ..regs
        }
    }
}

impl Sm83 {
    /// LD rr, u16
    pub(in crate::gb::sm83) fn ld_rr_nn<B: BusInterface>(&mut self, bus: &mut B, opcode: u8)
        requires
            !old(self).state.halt_bug_triggered,
        ensures
            final(self).state == old(self).state,
            ({
                let ops = final(bus).ops();
                let n = old(bus).ops().len() as int;
                let nn = spec_word(op_value(ops[n + 1]), op_value(ops[n]));
                &&& ops == old(bus).ops()
                    .push(BusOp::Read { address: old(self).registers.pc, value: op_value(ops[n]) })
                    .push(BusOp::Read {
                        address: spec_wadd16(old(self).registers.pc, 1),
                        value: op_value(ops[n + 1]),
                    })
                &&& final(self).registers == (Registers {
                    pc: spec_wadd16(old(self).registers.pc, 2),
                    ..old(self).registers
                }).spec_with_pair(((opcode >> 4) & 0x3) as u8, nn)
            }),
    {
        let nn = self.fetch_operand_u16(bus);
        proof {
            crate::bits::lemma_word_roundtrip(nn);
        }
        self.write_pair((opcode >> 4) & 0x3, nn);
    }

    /// LD r, u8 / LD (HL), u8
    pub(in crate::gb::sm83) fn ld_r_imm<B: BusInterface>(&mut self, bus: &mut B, opcode: u8)
        requires
            !old(self).state.halt_bug_triggered,
        ensures
            final(self).state == old(self).state,
            ({
                let sel = ((opcode >> 3) & 0x7) as u8;
                let ops = final(bus).ops();
                let n = old(bus).ops().len() as int;
                let v = op_value(ops[n]);
                let fetched = BusOp::Read { address: old(self).registers.pc, value: v };
                let regs1 = Registers {
                    pc: spec_wadd16(old(self).registers.pc, 1),
                    ..old(self).registers
                };
                &&& (sel != 6 ==> {
                    &&& ops == old(bus).ops().push(fetched)
                    &&& final(self).registers == regs1.spec_with_r8(sel, v)
                })
                &&& (sel == 6 ==> {
                    &&& ops == old(bus).ops().push(fetched).push(BusOp::Write {
                        address: old(self).registers.spec_hl(),
                        value: v,
                    })
                    &&& final(self).registers == regs1
                })
            }),
    {
        let sel = (opcode >> 3) & 0x7;
        proof {
            crate::bits::lemma_mask_idempotent_u8(opcode >> 3, 0x7);
        }
        let value = self.fetch_operand(bus);
        self.write_register(bus, sel, value);
    }

    /// LD r, r' / LD r, (HL) / LD (HL), r
    pub(in crate::gb::sm83) fn ld_r_r<B: BusInterface>(&mut self, bus: &mut B, opcode: u8)
        ensures
            final(self).state == old(self).state,
            ({
                let dst = ((opcode >> 3) & 0x7) as u8;
                let src = (opcode & 0x7) as u8;
                let hl = old(self).registers.spec_hl();
                &&& (src != 6 && dst != 6 ==> {
                    &&& final(bus).ops() == old(bus).ops()
                    &&& final(self).registers == old(self).registers.spec_with_r8(
                        dst,
                        old(self).registers.spec_r8(src),
                    )
                })
                &&& (src == 6 && dst != 6 ==> {
                    let v = op_value(final(bus).ops().last());
                    &&& final(bus).ops() == old(bus).ops().push(BusOp::Read {
                        address: hl,
                        value: v,
                    })
                    &&& final(self).registers == old(self).registers.spec_with_r8(dst, v)
                })
                &&& (src != 6 && dst == 6 ==> {
                    &&& final(bus).ops() == old(bus).ops().push(BusOp::Write {
                        address: hl,
                        value: old(self).registers.spec_r8(src),
                    })
                    &&& final(self).registers == old(self).registers
                })
            }),
    {
        let src = opcode & 0x7;
        let dst = (opcode >> 3) & 0x7;
        proof {
            crate::bits::lemma_mask_idempotent_u8(opcode, 0x7);
            crate::bits::lemma_mask_idempotent_u8(opcode >> 3, 0x7);
        }
        let value = self.read_register(bus, src);
        self.write_register(bus, dst, value);
    }

    /// LD (BC), A
    pub(in crate::gb::sm83) fn ld_bc_a<B: BusInterface>(&mut self, bus: &mut B)
        ensures
            final(self).state == old(self).state,
            final(self).registers == old(self).registers,
            final(bus).ops() == old(bus).ops().push(BusOp::Write {
                address: old(self).registers.spec_bc(),
                value: old(self).registers.a,
            }),
    {
        bus.write(self.registers.bc(), self.registers.a);
    }

    /// LD A, (BC)
    pub(in crate::gb::sm83) fn ld_a_bc<B: BusInterface>(&mut self, bus: &mut B)
        ensures
            final(self).state == old(self).state,
            ({
                let v = op_value(final(bus).ops().last());
                &&& final(bus).ops() == old(bus).ops().push(BusOp::Read {
                    address: old(self).registers.spec_bc(),
                    value: v,
                })
                &&& final(self).registers == (Registers { a: v, ..old(self).registers })
            }),
    {
        self.registers.a = bus.read(self.registers.bc());
    }

    /// LD (DE), A
    pub(in crate::gb::sm83) fn ld_de_a<B: BusInterface>(&mut self, bus: &mut B)
        ensures
            final(self).state == old(self).state,
            final(self).registers == old(self).registers,
            final(bus).ops() == old(bus).ops().push(BusOp::Write {
                address: old(self).registers.spec_de(),
                value: old(self).registers.a,
            }),
    {
        bus.write(self.registers.de(), self.registers.a);
    }

    /// LD A, (DE)
    pub(in crate::gb::sm83) fn ld_a_de<B: BusInterface>(&mut self, bus: &mut B)
        ensures
            final(self).state == old(self).state,
            ({
                let v = op_value(final(bus).ops().last());
                &&& final(bus).ops() == old(bus).ops().push(BusOp::Read {
                    address: old(self).registers.spec_de(),
                    value: v,
                })
                &&& final(self).registers == (Registers { a: v, ..old(self).registers })
            }),
    {
        self.registers.a = bus.read(self.registers.de());
    }

    /// LD (HL+), A
    pub(in crate::gb::sm83) fn ld_hl_a_postinc<B: BusInterface>(&mut self, bus: &mut B)
        ensures
            final(self).state == old(self).state,
            final(bus).ops() == old(bus).ops().push(BusOp::Write {
                address: old(self).registers.spec_hl(),
                value: old(self).registers.a,
            }),
            ({
                let hl = spec_wadd16(old(self).registers.spec_hl(), 1);
                final(self).registers == (Registers {
                    h: spec_msb(hl),
                    l: spec_lsb(hl),
                    ..old(self).registers
                })
            }),
    {
        bus.write(self.registers.hl(), self.registers.a);
        let hl = self.registers.hl().wrapping_add(1);
        self.registers.set_hl(hl);
    }

    /// LD A, (HL+)
    pub(in crate::gb::sm83) fn ld_a_hl_postinc<B: BusInterface>(&mut self, bus: &mut B)
        ensures
            final(self).state == old(self).state,
            ({
                let v = op_value(final(bus).ops().last());
                let hl = spec_wadd16(old(self).registers.spec_hl(), 1);
                &&& final(bus).ops() == old(bus).ops().push(BusOp::Read {
                    address: old(self).registers.spec_hl(),
                    value: v,
                })
                &&& final(self).registers == (Registers {
                    a: v,
                    h: spec_msb(hl),
                    l: spec_lsb(hl),
                    ..old(self).registers
                })
            }),
    {
        self.registers.a = bus.read(self.registers.hl());
        let hl = self.registers.hl().wrapping_add(1);
        self.registers.set_hl(hl);
    }

    /// LD (HL-), A
    pub(in crate::gb::sm83) fn ld_hl_a_postdec<B: BusInterface>(&mut self, bus: &mut B)
        ensures
            final(self).state == old(self).state,
            final(bus).ops() == old(bus).ops().push(BusOp::Write {
                address: old(self).registers.spec_hl(),
                value: old(self).registers.a,
            }),
            ({
                let hl = spec_wsub16(old(self).registers.spec_hl(), 1);
                final(self).registers == (Registers {
                    h: spec_msb(hl),
                    l: spec_lsb(hl),
                    ..old(self).registers
                })
            }),
    {
        bus.write(self.registers.hl(), self.registers.a);
        let hl = self.registers.hl().wrapping_sub(1);
        self.registers.set_hl(hl);
    }

    /// LD A, (HL-)
    pub(in crate::gb::sm83) fn ld_a_hl_postdec<B: BusInterface>(&mut self, bus: &mut B)
        ensures
            final(self).state == old(self).state,
            ({
                let v = op_value(final(bus).ops().last());
                let hl = spec_wsub16(old(self).registers.spec_hl(), 1);
                &&& final(bus).ops() == old(bus).ops().push(BusOp::Read {
                    address: old(self).registers.spec_hl(),
                    value: v,
                })
                &&& final(self).registers == (Registers {
                    a: v,
                    h: spec_msb(hl),
                    l: spec_lsb(hl),
                    ..old(self).registers
                })
            }),
    {
        self.registers.a = bus.read(self.registers.hl());
        let hl = self.registers.hl().wrapping_sub(1);
        self.registers.set_hl(hl);
    }

    /// LD (u16), SP: store SP little-endian at an absolute address.
    pub(in crate::gb::sm83) fn ld_indirect_sp<B: BusInterface>(&mut self, bus: &mut B)
        requires
            !old(self).state.halt_bug_triggered,
        ensures
            final(self).state == old(self).state,
            ({
                let ops = final(bus).ops();
                let n = old(bus).ops().len() as int;
                let nn = spec_word(op_value(ops[n + 1]), op_value(ops[n]));
                &&& ops == old(bus).ops()
                    .push(BusOp::Read { address: old(self).registers.pc, value: op_value(ops[n]) })
                    .push(BusOp::Read {
                        address: spec_wadd16(old(self).registers.pc, 1),
                        value: op_value(ops[n + 1]),
                    })
                    .push(BusOp::Write { address: nn, value: spec_lsb(old(self).registers.sp) })
                    .push(BusOp::Write {
                        address: spec_wadd16(nn, 1),
                        value: spec_msb(old(self).registers.sp),
                    })
                &&& final(self).registers == (Registers {
                    pc: spec_wadd16(old(self).registers.pc, 2),
                    ..old(self).registers
                })
            }),
    {
        let address = self.fetch_operand_u16(bus);
        proof {
            crate::bits::lemma_word_roundtrip(address);
        }
        bus.write(address, crate::bits::word_lsb(self.registers.sp));
        bus.write(address.wrapping_add(1), crate::bits::word_msb(self.registers.sp));
    }

    /// LDH (u8), A: store A in the $FF00 page.
    pub(in crate::gb::sm83) fn ldh_imm_a<B: BusInterface>(&mut self, bus: &mut B)
        requires
            !old(self).state.halt_bug_triggered,
        ensures
            final(self).state == old(self).state,
            ({
                let ops = final(bus).ops();
                let n = old(bus).ops().len() as int;
                let v = op_value(ops[n]);
                &&& ops == old(bus).ops()
                    .push(BusOp::Read { address: old(self).registers.pc, value: v })
                    .push(BusOp::Write {
                        address: (0xFF00 + v) as u16,
                        value: old(self).registers.a,
                    })
                &&& final(self).registers == (Registers {
                    pc: spec_wadd16(old(self).registers.pc, 1),
                    ..old(self).registers
                })
            }),
    {
        let offset = self.fetch_operand(bus);
        bus.write(0xFF00 + offset as u16, self.registers.a);
    }

    /// LDH A, (u8): load A from the $FF00 page.
    pub(in crate::gb::sm83) fn ldh_a_imm<B: BusInterface>(&mut self, bus: &mut B)
        requires
            !old(self).state.halt_bug_triggered,
        ensures
            final(self).state == old(self).state,
            ({
                let ops = final(bus).ops();
                let n = old(bus).ops().len() as int;
                let offset = op_value(ops[n]);
                let v = op_value(ops[n + 1]);
                &&& ops == old(bus).ops()
                    .push(BusOp::Read { address: old(self).registers.pc, value: offset })
                    .push(BusOp::Read { address: (0xFF00 + offset) as u16, value: v })
                &&& final(self).registers == (Registers {
                    a: v,
                    pc: spec_wadd16(old(self).registers.pc, 1),
                    ..old(self).registers
                })
            }),
    {
        let offset = self.fetch_operand(bus);
        self.registers.a = bus.read(0xFF00 + offset as u16);
    }

    /// LD ($FF00+C), A
    pub(in crate::gb::sm83) fn ld_c_a_high_page<B: BusInterface>(&mut self, bus: &mut B)
        ensures
            final(self).state == old(self).state,
            final(self).registers == old(self).registers,
            final(bus).ops() == old(bus).ops().push(BusOp::Write {
                address: (0xFF00 + old(self).registers.c) as u16,
                value: old(self).registers.a,
            }),
    {
        bus.write(0xFF00 + self.registers.c as u16, self.registers.a);
    }

    /// LD A, ($FF00+C)
    pub(in crate::gb::sm83) fn ld_a_c_high_page<B: BusInterface>(&mut self, bus: &mut B)
        ensures
            final(self).state == old(self).state,
            ({
                let v = op_value(final(bus).ops().last());
                &&& final(bus).ops() == old(bus).ops().push(BusOp::Read {
                    address: (0xFF00 + old(self).registers.c) as u16,
                    value: v,
                })
                &&& final(self).registers == (Registers { a: v, ..old(self).registers })
            }),
    {
        self.registers.a = bus.read(0xFF00 + self.registers.c as u16);
    }

    /// LD (u16), A
    pub(in crate::gb::sm83) fn ld_indirect_a<B: BusInterface>(&mut self, bus: &mut B)
        requires
            !old(self).state.halt_bug_triggered,
        ensures
            final(self).state == old(self).state,
            ({
                let ops = final(bus).ops();
                let n = old(bus).ops().len() as int;
                let nn = spec_word(op_value(ops[n + 1]), op_value(ops[n]));
                &&& ops == old(bus).ops()
                    .push(BusOp::Read { address: old(self).registers.pc, value: op_value(ops[n]) })
                    .push(BusOp::Read {
                        address: spec_wadd16(old(self).registers.pc, 1),
                        value: op_value(ops[n + 1]),
                    })
                    .push(BusOp::Write { address: nn, value: old(self).registers.a })
                &&& final(self).registers == (Registers {
                    pc: spec_wadd16(old(self).registers.pc, 2),
                    ..old(self).registers
                })
            }),
    {
        let address = self.fetch_operand_u16(bus);
        proof {
            crate::bits::lemma_word_roundtrip(address);
        }
        bus.write(address, self.registers.a);
    }

    /// LD A, (u16)
    pub(in crate::gb::sm83) fn ld_a_indirect<B: BusInterface>(&mut self, bus: &mut B)
        requires
            !old(self).state.halt_bug_triggered,
        ensures
            final(self).state == old(self).state,
            ({
                let ops = final(bus).ops();
                let n = old(bus).ops().len() as int;
                let nn = spec_word(op_value(ops[n + 1]), op_value(ops[n]));
                let v = op_value(ops[n + 2]);
                &&& ops == old(bus).ops()
                    .push(BusOp::Read { address: old(self).registers.pc, value: op_value(ops[n]) })
                    .push(BusOp::Read {
                        address: spec_wadd16(old(self).registers.pc, 1),
                        value: op_value(ops[n + 1]),
                    })
                    .push(BusOp::Read { address: nn, value: v })
                &&& final(self).registers == (Registers {
                    a: v,
                    pc: spec_wadd16(old(self).registers.pc, 2),
                    ..old(self).registers
                })
            }),
    {
        let address = self.fetch_operand_u16(bus);
        proof {
            crate::bits::lemma_word_roundtrip(address);
        }
        self.registers.a = bus.read(address);
    }

    /// LD SP, HL: one internal cycle.
    pub(in crate::gb::sm83) fn ld_sp_hl<B: BusInterface>(&mut self, bus: &mut B)
        ensures
            final(self).state == old(self).state,
            final(bus).ops() == old(bus).ops().push(BusOp::Idle),
            final(self).registers == (Registers {
                sp: old(self).registers.spec_hl(),
                ..old(self).registers
            }),
    {
        self.registers.sp = self.registers.hl();
        bus.idle();
    }

    /// LD HL, SP+e: signed offset into HL with the ADD SP flags; one
    /// internal cycle.
    pub(in crate::gb::sm83) fn ld_hl_sp_e<B: BusInterface>(&mut self, bus: &mut B)
        requires
            !old(self).state.halt_bug_triggered,
        ensures
            final(self).state == old(self).state,
            ({
                let ops = final(bus).ops();
                let n = old(bus).ops().len() as int;
                let v = op_value(ops[n]);
                let rf = spec_sp_plus_e(old(self).registers.sp, v);
                &&& ops == old(bus).ops()
                    .push(BusOp::Read { address: old(self).registers.pc, value: v })
                    .push(BusOp::Idle)
                &&& final(self).registers == (Registers {
                    pc: spec_wadd16(old(self).registers.pc, 1),
                    h: spec_msb(rf.0),
                    l: spec_lsb(rf.0),
                    f: rf.1,
                    ..old(self).registers
                })
            }),
    {
        let offset = self.fetch_operand(bus);
        let (result, flags) = sp_plus_e(self.registers.sp, offset);
        self.registers.set_hl(result);
        self.registers.f = flags;
        bus.idle();
    }

    /// PUSH rr: one internal cycle, then the pair high byte first.
    pub(in crate::gb::sm83) fn push_rr<B: BusInterface>(&mut self, bus: &mut B, opcode: u8)
        ensures
            final(self).state == old(self).state,
            ({
                let sel = ((opcode >> 4) & 0x3) as u8;
                let value = spec_stack_pair(old(self).registers, sel);
                let sp1 = spec_wsub16(old(self).registers.sp, 1);
                let sp2 = spec_wsub16(old(self).registers.sp, 2);
                &&& final(bus).ops() == old(bus).ops()
                    .push(BusOp::Idle)
                    .push(BusOp::Write { address: sp1, value: spec_msb(value) })
                    .push(BusOp::Write { address: sp2, value: spec_lsb(value) })
                &&& final(self).registers == (Registers { sp: sp2, ..old(self).registers })
            }),
    {
        let sel = (opcode >> 4) & 0x3;
        let value = match sel & 0x3 {
            0 => self.registers.bc(),
            1 => self.registers.de(),
            2 => self.registers.hl(),
            _ => self.registers.af(),
        };
        bus.idle();
        self.push_stack_u16(bus, value);
    }

    /// POP rr: the pair low byte first; popping AF keeps only the flag bits.
    pub(in crate::gb::sm83) fn pop_rr<B: BusInterface>(&mut self, bus: &mut B, opcode: u8)
        ensures
            final(self).state == old(self).state,
            ({
                let sel = ((opcode >> 4) & 0x3) as u8;
                let ops = final(bus).ops();
                let n = old(bus).ops().len() as int;
                let value = spec_word(op_value(ops[n + 1]), op_value(ops[n]));
                &&& ops == old(bus).ops()
                    .push(BusOp::Read { address: old(self).registers.sp, value: op_value(ops[n]) })
                    .push(BusOp::Read {
                        address: spec_wadd16(old(self).registers.sp, 1),
                        value: op_value(ops[n + 1]),
                    })
                &&& final(self).registers == spec_with_stack_pair(
                    Registers {
                        sp: spec_wadd16(old(self).registers.sp, 2),
                        ..old(self).registers
                    },
                    sel,
                    value,
                )
            }),
    {
        let sel = (opcode >> 4) & 0x3;
        let value = self.pop_stack_u16(bus);
        proof {
            crate::bits::lemma_word_roundtrip(value);
        }
        match sel & 0x3 {
            0 => self.registers.set_bc(value),
            1 => self.registers.set_de(value),
            2 => self.registers.set_hl(value),
            _ => {
                self.registers.a = crate::bits::word_msb(value);
                self.registers.f = Flags::from_byte(crate::bits::word_lsb(value));
            }
        }
    }
}

} // verus!
