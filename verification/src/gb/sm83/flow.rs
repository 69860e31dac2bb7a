//! Jumps, calls, returns, and the interrupt-enable / halt instructions.

use vstd::prelude::*;
use crate::bits::{spec_lsb, spec_msb, spec_wadd16, spec_wsub16};
use crate::gb::sm83::bus::{op_value, BusInterface, BusOp};
use crate::gb::sm83::{Registers, Sm83, State};

verus! {

/// The branch condition selected by opcode bits 3-4: NZ, Z, NC, C.
pub open spec fn spec_condition(opcode: u8, regs: Registers) -> bool {
    let sel = (opcode >> 3) & 0x3;
    if sel == 0 {
        !regs.f.zero
    } else if sel == 1 {
        regs.f.zero
    } else if sel == 2 {
        !regs.f.carry
    } else {
        regs.f.carry
    }
}

/// The jump-relative target: PC after the operand fetch plus the
/// sign-extended offset byte.
pub open spec fn spec_jr_target(pc_after: u16, e: u8) -> u16 {
    spec_wadd16(pc_after, if e >= 0x80 { (e + 0xFF00) as u16 } else { e as u16 })
}

impl Sm83 {
    /// Evaluate the branch condition in opcode bits 3-4.
    fn condition(&self, opcode: u8) -> (r: bool)
        ensures
            r == spec_condition(opcode, self.registers),
    {
        match (opcode >> 3) & 0x3 {
            0 => !self.registers.f.zero,
            1 => self.registers.f.zero,
            2 => !self.registers.f.carry,
            _ => self.registers.f.carry,
        }
    }

    /// JR e: unconditional relative jump; one internal cycle.
    pub(in crate::gb::sm83) fn jr_e<B: BusInterface>(&mut self, bus: &mut B)
        requires
            !old(self).state.halt_bug_triggered,
        ensures
            final(self).state == old(self).state,
            ({
                let ops = final(bus).ops();
                let v = op_value(ops[old(bus).ops().len() as int]);
                &&& ops == old(bus).ops()
                    .push(BusOp::Read { address: old(self).registers.pc, value: v })
                    .push(BusOp::Idle)
                &&& final(self).registers == (Registers {
                    pc: spec_jr_target(spec_wadd16(old(self).registers.pc, 1), v),
                    ..old(self).registers
                })
            }),
    {
        let offset = self.fetch_operand(bus);
        bus.idle();
        let target = self.registers.pc.wrapping_add(
            if offset >= 0x80 { offset as u16 + 0xFF00 } else { offset as u16 },
        );
        self.registers.pc = target;
    }

    /// JR cc, e: relative jump when the condition holds (one extra internal
    /// cycle); otherwise fall through.
    pub(in crate::gb::sm83) fn jr_cc_e<B: BusInterface>(&mut self, bus: &mut B, opcode: u8)
        requires
            !old(self).state.halt_bug_triggered,
        ensures
            final(self).state == old(self).state,
            ({
                let taken = spec_condition(opcode, old(self).registers);
                let ops = final(bus).ops();
                let v = op_value(ops[old(bus).ops().len() as int]);
                let fetched = BusOp::Read { address: old(self).registers.pc, value: v };
                let pc1 = spec_wadd16(old(self).registers.pc, 1);
                &&& (taken ==> {
                    &&& ops == old(bus).ops().push(fetched).push(BusOp::Idle)
                    &&& final(self).registers == (Registers {
                        pc: spec_jr_target(pc1, v),
                        ..old(self).registers
                    })
                })
                &&& (!taken ==> {
                    &&& ops == old(bus).ops().push(fetched)
                    &&& final(self).registers == (Registers { pc: pc1, ..old(self).registers })
                })
            }),
    {
        let offset = self.fetch_operand(bus);
        if self.condition(opcode) {
            bus.idle();
            let target = self.registers.pc.wrapping_add(
                if offset >= 0x80 { offset as u16 + 0xFF00 } else { offset as u16 },
            );
            self.registers.pc = target;
        }
    }

    /// JP u16: unconditional absolute jump; one internal cycle.
    pub(in crate::gb::sm83) fn jp_nn<B: BusInterface>(&mut self, bus: &mut B)
        requires
            !old(self).state.halt_bug_triggered,
        ensures
            final(self).state == old(self).state,
            ({
                let ops = final(bus).ops();
                let n = old(bus).ops().len() as int;
                let target = crate::bits::spec_word(op_value(ops[n + 1]), op_value(ops[n]));
                &&& ops == old(bus).ops()
                    .push(BusOp::Read { address: old(self).registers.pc, value: op_value(ops[n]) })
                    .push(BusOp::Read {
                        address: spec_wadd16(old(self).registers.pc, 1),
                        value: op_value(ops[n + 1]),
                    })
                    .push(BusOp::Idle)
                &&& final(self).registers == (Registers { pc: target, ..old(self).registers })
            }),
    {
        let target = self.fetch_operand_u16(bus);
        proof {
            crate::bits::lemma_word_roundtrip(target);
        }
        bus.idle();
        self.registers.pc = target;
    }

    /// JP cc, u16: absolute jump when the condition holds.
    pub(in crate::gb::sm83) fn jp_cc_nn<B: BusInterface>(&mut self, bus: &mut B, opcode: u8)
        requires
            !old(self).state.halt_bug_triggered,
        ensures
            final(self).state == old(self).state,
            ({
                let taken = spec_condition(opcode, old(self).registers);
                let ops = final(bus).ops();
                let n = old(bus).ops().len() as int;
                let target = crate::bits::spec_word(op_value(ops[n + 1]), op_value(ops[n]));
                let reads = old(bus).ops()
                    .push(BusOp::Read { address: old(self).registers.pc, value: op_value(ops[n]) })
                    .push(BusOp::Read {
                        address: spec_wadd16(old(self).registers.pc, 1),
                        value: op_value(ops[n + 1]),
                    });
                &&& (taken ==> {
                    &&& ops == reads.push(BusOp::Idle)
                    &&& final(self).registers == (Registers { pc: target, ..old(self).registers })
                })
                &&& (!taken ==> {
                    &&& ops == reads
                    &&& final(self).registers == (Registers {
                        pc: spec_wadd16(old(self).registers.pc, 2),
                        ..old(self).registers
                    })
                })
            }),
    {
        let target = self.fetch_operand_u16(bus);
        proof {
            crate::bits::lemma_word_roundtrip(target);
        }
        if self.condition(opcode) {
            bus.idle();
            self.registers.pc = target;
        }
    }

    /// JP HL: jump to HL with no extra cycles.
    pub(in crate::gb::sm83) fn jp_hl<B: BusInterface>(&mut self, bus: &mut B)
        ensures
            final(self).state == old(self).state,
            final(bus).ops() == old(bus).ops(),
            final(self).registers == (Registers {
                pc: old(self).registers.spec_hl(),
                ..old(self).registers
            }),
    {
        let _ = bus;
        self.registers.pc = self.registers.hl();
    }

    /// CALL u16: push the return address and jump; one internal cycle.
    pub(in crate::gb::sm83) fn call_nn<B: BusInterface>(&mut self, bus: &mut B)
        requires
            !old(self).state.halt_bug_triggered,
        ensures
            final(self).state == old(self).state,
            ({
                let ops = final(bus).ops();
                let n = old(bus).ops().len() as int;
                let target = crate::bits::spec_word(op_value(ops[n + 1]), op_value(ops[n]));
                let ret = spec_wadd16(old(self).registers.pc, 2);
                let sp1 = spec_wsub16(old(self).registers.sp, 1);
                let sp2 = spec_wsub16(old(self).registers.sp, 2);
                &&& ops == old(bus).ops()
                    .push(BusOp::Read { address: old(self).registers.pc, value: op_value(ops[n]) })
                    .push(BusOp::Read {
                        address: spec_wadd16(old(self).registers.pc, 1),
                        value: op_value(ops[n + 1]),
                    })
                    .push(BusOp::Idle)
                    .push(BusOp::Write { address: sp1, value: spec_msb(ret) })
                    .push(BusOp::Write { address: sp2, value: spec_lsb(ret) })
                &&& final(self).registers == (Registers {
                    pc: target,
                    sp: sp2,
                    ..old(self).registers
                })
            }),
    {
        let target = self.fetch_operand_u16(bus);
        proof {
            crate::bits::lemma_word_roundtrip(target);
        }
        bus.idle();
        let ret = self.registers.pc;
        self.push_stack_u16(bus, ret);
        self.registers.pc = target;
    }

    /// CALL cc, u16: call when the condition holds.
    pub(in crate::gb::sm83) fn call_cc_nn<B: BusInterface>(&mut self, bus: &mut B, opcode: u8)
        requires
            !old(self).state.halt_bug_triggered,
        ensures
            final(self).state == old(self).state,
            ({
                let taken = spec_condition(opcode, old(self).registers);
                let ops = final(bus).ops();
                let n = old(bus).ops().len() as int;
                let target = crate::bits::spec_word(op_value(ops[n + 1]), op_value(ops[n]));
                let ret = spec_wadd16(old(self).registers.pc, 2);
                let sp1 = spec_wsub16(old(self).registers.sp, 1);
                let sp2 = spec_wsub16(old(self).registers.sp, 2);
                let reads = old(bus).ops()
                    .push(BusOp::Read { address: old(self).registers.pc, value: op_value(ops[n]) })
                    .push(BusOp::Read {
                        address: spec_wadd16(old(self).registers.pc, 1),
                        value: op_value(ops[n + 1]),
                    });
                &&& (taken ==> {
                    &&& ops == reads
                        .push(BusOp::Idle)
                        .push(BusOp::Write { address: sp1, value: spec_msb(ret) })
                        .push(BusOp::Write { address: sp2, value: spec_lsb(ret) })
                    &&& final(self).registers == (Registers {
                        pc: target,
                        sp: sp2,
                        ..old(self).registers
                    })
                })
                &&& (!taken ==> {
                    &&& ops == reads
                    &&& final(self).registers == (Registers { pc: ret, ..old(self).registers })
                })
            }),
    {
        let target = self.fetch_operand_u16(bus);
        proof {
            crate::bits::lemma_word_roundtrip(target);
        }
        if self.condition(opcode) {
            bus.idle();
            let ret = self.registers.pc;
            self.push_stack_u16(bus, ret);
            self.registers.pc = target;
        }
    }

    /// RET: pop the return address; one internal cycle.
    pub(in crate::gb::sm83) fn ret<B: BusInterface>(&mut self, bus: &mut B)
        ensures
            final(self).state == old(self).state,
            ({
                let ops = final(bus).ops();
                let n = old(bus).ops().len() as int;
                let target = crate::bits::spec_word(op_value(ops[n + 1]), op_value(ops[n]));
                &&& ops == old(bus).ops()
                    .push(BusOp::Read { address: old(self).registers.sp, value: op_value(ops[n]) })
                    .push(BusOp::Read {
                        address: spec_wadd16(old(self).registers.sp, 1),
                        value: op_value(ops[n + 1]),
                    })
                    .push(BusOp::Idle)
                &&& final(self).registers == (Registers {
                    pc: target,
                    sp: spec_wadd16(old(self).registers.sp, 2),
                    ..old(self).registers
                })
            }),
    {
        let target = self.pop_stack_u16(bus);
        proof {
            crate::bits::lemma_word_roundtrip(target);
        }
        bus.idle();
        self.registers.pc = target;
    }

    /// RET cc: one internal cycle for the condition, then as RET if taken.
    pub(in crate::gb::sm83) fn ret_cc<B: BusInterface>(&mut self, bus: &mut B, opcode: u8)
        ensures
            final(self).state == old(self).state,
            ({
                let taken = spec_condition(opcode, old(self).registers);
                let ops = final(bus).ops();
                let n = old(bus).ops().len() as int;
                let target = crate::bits::spec_word(op_value(ops[n + 2]), op_value(ops[n + 1]));
                &&& (taken ==> {
                    &&& ops == old(bus).ops()
                        .push(BusOp::Idle)
                        .push(BusOp::Read {
                            address: old(self).registers.sp,
                            value: op_value(ops[n + 1]),
                        })
                        .push(BusOp::Read {
                            address: spec_wadd16(old(self).registers.sp, 1),
                            value: op_value(ops[n + 2]),
                        })
                        .push(BusOp::Idle)
                    &&& final(self).registers == (Registers {
                        pc: target,
                        sp: spec_wadd16(old(self).registers.sp, 2),
                        ..old(self).registers
                    })
                })
                &&& (!taken ==> {
                    &&& ops == old(bus).ops().push(BusOp::Idle)
                    &&& final(self).registers == old(self).registers
                })
            }),
    {
        bus.idle();
        if self.condition(opcode) {
            let target = self.pop_stack_u16(bus);
            proof {
                crate::bits::lemma_word_roundtrip(target);
            }
            bus.idle();
            self.registers.pc = target;
        }
    }

    /// RETI: return and enable interrupts immediately.
    pub(in crate::gb::sm83) fn reti<B: BusInterface>(&mut self, bus: &mut B)
        ensures
            final(self).state == old(self).state,
            ({
                let ops = final(bus).ops();
                let n = old(bus).ops().len() as int;
                let target = crate::bits::spec_word(op_value(ops[n + 1]), op_value(ops[n]));
                &&& ops == old(bus).ops()
                    .push(BusOp::Read { address: old(self).registers.sp, value: op_value(ops[n]) })
                    .push(BusOp::Read {
                        address: spec_wadd16(old(self).registers.sp, 1),
                        value: op_value(ops[n + 1]),
                    })
                    .push(BusOp::Idle)
                &&& final(self).registers == (Registers {
                    pc: target,
                    sp: spec_wadd16(old(self).registers.sp, 2),
                    ime: true,
                    ..old(self).registers
                })
            }),
    {
        let target = self.pop_stack_u16(bus);
        proof {
            crate::bits::lemma_word_roundtrip(target);
        }
        bus.idle();
        self.registers.pc = target;
        self.registers.ime = true;
    }

    /// RST: one internal cycle, push PC, jump to the fixed page-zero vector
    /// encoded in opcode bits 3-5.
    pub(in crate::gb::sm83) fn rst<B: BusInterface>(&mut self, bus: &mut B, opcode: u8)
        ensures
            final(self).state == old(self).state,
            ({
                let sp1 = spec_wsub16(old(self).registers.sp, 1);
                let sp2 = spec_wsub16(old(self).registers.sp, 2);
                &&& final(bus).ops() == old(bus).ops()
                    .push(BusOp::Idle)
                    .push(BusOp::Write { address: sp1, value: spec_msb(old(self).registers.pc) })
                    .push(BusOp::Write { address: sp2, value: spec_lsb(old(self).registers.pc) })
                &&& final(self).registers == (Registers {
                    pc: (opcode & 0x38) as u16,
                    sp: sp2,
                    ..old(self).registers
                })
            }),
    {
        bus.idle();
        let ret = self.registers.pc;
        self.push_stack_u16(bus, ret);
        self.registers.pc = (opcode & 0x38) as u16;
    }

    /// HALT: suspend fetch until an interrupt is pending. With IME clear and
    /// an interrupt already pending, the CPU instead arms the halt bug: the
    /// next opcode fetch does not advance PC.
    pub(in crate::gb::sm83) fn halt<B: BusInterface>(&mut self, bus: &mut B)
        ensures
            final(self).registers == old(self).registers,
            final(bus).ops() == old(bus).ops(),
            ({
                let bug = !old(self).registers.ime && old(bus).pending() is Some;
                &&& (bug ==> final(self).state == (State {
                    halt_bug_triggered: true,
                    ..old(self).state
                }))
                &&& (!bug ==> final(self).state == (State { halted: true, ..old(self).state }))
            }),
    {
        if !self.registers.ime && bus.highest_priority_interrupt().is_some() {
            self.state.halt_bug_triggered = true;
        } else {
            self.state.halted = true;
        }
    }

    /// DI: disable interrupts immediately, cancelling a pending EI.
    pub(in crate::gb::sm83) fn di(&mut self)
        ensures
            final(self).registers == (Registers { ime: false, ..old(self).registers }),
            final(self).state == (State { pending_ime_set: false, ..old(self).state }),
    {
        self.registers.ime = false;
        self.state.pending_ime_set = false;
    }

    /// EI: enable interrupts after the following instruction.
    pub(in crate::gb::sm83) fn ei(&mut self)
        ensures
            final(self).registers == old(self).registers,
            final(self).state == (State { pending_ime_set: true, ..old(self).state }),
    {
        self.state.pending_ime_set = true;
    }
}

} // verus!
