//! Rotate, shift, swap, and single-bit instructions, including the whole
//! $CB-prefixed block.

use vstd::prelude::*;
use crate::bits::spec_bit8;
use crate::gb::sm83::bus::{op_value, BusInterface, BusOp};
use crate::gb::sm83::{Flags, Registers, Sm83};

verus! {

/// RLC: rotate left; carry from bit 7.
pub open spec fn spec_rlc(v: u8, zero_from_result: bool) -> (u8, Flags) {
    let r = (v << 1) | (v >> 7);
    (r, Flags {
        zero: zero_from_result && r == 0,
        subtract: false,
        half_carry: false,
        carry: spec_bit8(v, 7),
    })
}

/// RRC: rotate right; carry from bit 0.
pub open spec fn spec_rrc(v: u8, zero_from_result: bool) -> (u8, Flags) {
    let r = (v >> 1) | (v << 7);
    (r, Flags {
        zero: zero_from_result && r == 0,
        subtract: false,
        half_carry: false,
        carry: spec_bit8(v, 0),
    })
}

/// RL: rotate left through carry.
pub open spec fn spec_rl(v: u8, carry_in: bool, zero_from_result: bool) -> (u8, Flags) {
    let r = (v << 1) | (if carry_in { 1u8 } else { 0u8 });
    (r, Flags {
        zero: zero_from_result && r == 0,
        subtract: false,
        half_carry: false,
        carry: spec_bit8(v, 7),
    })
}

/// RR: rotate right through carry.
pub open spec fn spec_rr(v: u8, carry_in: bool, zero_from_result: bool) -> (u8, Flags) {
    let r = (v >> 1) | (if carry_in { 0x80u8 } else { 0u8 });
    (r, Flags {
        zero: zero_from_result && r == 0,
        subtract: false,
        half_carry: false,
        carry: spec_bit8(v, 0),
    })
}

/// SLA: arithmetic shift left.
pub open spec fn spec_sla(v: u8) -> (u8, Flags) {
    let r = v << 1;
    (r, Flags { zero: r == 0, subtract: false, half_carry: false, carry: spec_bit8(v, 7) })
}

/// SRA: arithmetic shift right (bit 7 kept).
pub open spec fn spec_sra(v: u8) -> (u8, Flags) {
    let r = (v >> 1) | (v & 0x80);
    (r, Flags { zero: r == 0, subtract: false, half_carry: false, carry: spec_bit8(v, 0) })
}

/// SWAP: exchange the nibbles.
pub open spec fn spec_swap(v: u8) -> (u8, Flags) {
    let r = (v >> 4) | (v << 4);
    (r, Flags { zero: r == 0, subtract: false, half_carry: false, carry: false })
}

/// SRL: logical shift right.
pub open spec fn spec_srl(v: u8) -> (u8, Flags) {
    let r = v >> 1;
    (r, Flags { zero: r == 0, subtract: false, half_carry: false, carry: spec_bit8(v, 0) })
}

/// A $CB read-modify-write on the register (or (HL)) selected by the low
/// three opcode bits, applying `rf_of` to the value read.
pub open spec fn spec_cb_rmw_ensures(
    pre: Sm83,
    post: Sm83,
    pre_ops: Seq<BusOp>,
    post_ops: Seq<BusOp>,
    opcode: u8,
    rf_of: spec_fn(u8) -> (u8, Flags),
) -> bool {
    &&& post.state == pre.state
    &&& (opcode & 0x7 != 6 ==> {
        let rf = rf_of(pre.registers.spec_r8(opcode));
        &&& post_ops == pre_ops
        &&& post.registers == (Registers {
            f: rf.1,
            ..pre.registers.spec_with_r8(opcode, rf.0)
        })
    })
    &&& (opcode & 0x7 == 6 ==> {
        let hl = pre.registers.spec_hl();
        let rf = rf_of(op_value(post_ops[pre_ops.len() as int]));
        &&& post_ops == pre_ops
            .push(post_ops[pre_ops.len() as int])
            .push(BusOp::Write { address: hl, value: rf.0 })
        &&& post_ops[pre_ops.len() as int] matches BusOp::Read { address: a, value: _ } && a == hl
        &&& post.registers == (Registers { f: rf.1, ..pre.registers })
    })
}

impl Sm83 {
    /// RLCA: rotate A left; Z is always cleared (unlike $CB RLC A).
    pub(in crate::gb::sm83) fn rlca(&mut self)
        ensures
            final(self).state == old(self).state,
            final(self).registers == (Registers {
                a: spec_rlc(old(self).registers.a, false).0,
                f: spec_rlc(old(self).registers.a, false).1,
                ..old(self).registers
            }),
    {
        let a = self.registers.a;
        self.registers.a = (a << 1) | (a >> 7);
        self.registers.f = Flags {
            zero: false,
            subtract: false,
            half_carry: false,
            carry: crate::bits::bit8(a, 7),
        };
    }

    /// RRCA: rotate A right; Z is always cleared.
    pub(in crate::gb::sm83) fn rrca(&mut self)
        ensures
            final(self).state == old(self).state,
            final(self).registers == (Registers {
                a: spec_rrc(old(self).registers.a, false).0,
                f: spec_rrc(old(self).registers.a, false).1,
                ..old(self).registers
            }),
    {
        let a = self.registers.a;
        self.registers.a = (a >> 1) | (a << 7);
        self.registers.f = Flags {
            zero: false,
            subtract: false,
            half_carry: false,
            carry: crate::bits::bit8(a, 0),
        };
    }

    /// RLA: rotate A left through carry; Z is always cleared.
    pub(in crate::gb::sm83) fn rla(&mut self)
        ensures
            final(self).state == old(self).state,
            final(self).registers == (Registers {
                a: spec_rl(old(self).registers.a, old(self).registers.f.carry, false).0,
                f: spec_rl(old(self).registers.a, old(self).registers.f.carry, false).1,
                ..old(self).registers
            }),
    {
        let a = self.registers.a;
        self.registers.a = (a << 1) | (if self.registers.f.carry { 1u8 } else { 0u8 });
        self.registers.f = Flags {
            zero: false,
            subtract: false,
            half_carry: false,
            carry: crate::bits::bit8(a, 7),
        };
    }

    /// RRA: rotate A right through carry; Z is always cleared.
    pub(in crate::gb::sm83) fn rra(&mut self)
        ensures
            final(self).state == old(self).state,
            final(self).registers == (Registers {
                a: spec_rr(old(self).registers.a, old(self).registers.f.carry, false).0,
                f: spec_rr(old(self).registers.a, old(self).registers.f.carry, false).1,
                ..old(self).registers
            }),
    {
        let a = self.registers.a;
        self.registers.a = (a >> 1) | (if self.registers.f.carry { 0x80u8 } else { 0u8 });
        self.registers.f = Flags {
            zero: false,
            subtract: false,
            half_carry: false,
            carry: crate::bits::bit8(a, 0),
        };
    }

    /// $CB RLC r / RLC (HL)
    pub(in crate::gb::sm83) fn rlc_r<B: BusInterface>(&mut self, bus: &mut B, opcode: u8)
        ensures
            spec_cb_rmw_ensures(
                *old(self),
                *final(self),
                old(bus).ops(),
                final(bus).ops(),
                opcode,
                |v: u8| spec_rlc(v, true),
            ),
    {
        let v = self.read_register(bus, opcode);
        let r = (v << 1) | (v >> 7);
        self.registers.f = Flags {
            zero: r == 0,
            subtract: false,
            half_carry: false,
            carry: crate::bits::bit8(v, 7),
        };
        self.write_register(bus, opcode, r);
    }

    /// $CB RRC r / RRC (HL)
    pub(in crate::gb::sm83) fn rrc_r<B: BusInterface>(&mut self, bus: &mut B, opcode: u8)
        ensures
            spec_cb_rmw_ensures(
                *old(self),
                *final(self),
                old(bus).ops(),
                final(bus).ops(),
                opcode,
                |v: u8| spec_rrc(v, true),
            ),
    {
        let v = self.read_register(bus, opcode);
        let r = (v >> 1) | (v << 7);
        self.registers.f = Flags {
            zero: r == 0,
            subtract: false,
            half_carry: false,
            carry: crate::bits::bit8(v, 0),
        };
        self.write_register(bus, opcode, r);
    }

    /// $CB RL r / RL (HL)
    pub(in crate::gb::sm83) fn rl_r<B: BusInterface>(&mut self, bus: &mut B, opcode: u8)
        ensures
            spec_cb_rmw_ensures(
                *old(self),
                *final(self),
                old(bus).ops(),
                final(bus).ops(),
                opcode,
                |v: u8| spec_rl(v, old(self).registers.f.carry, true),
            ),
    {
        let v = self.read_register(bus, opcode);
        let r = (v << 1) | (if self.registers.f.carry { 1u8 } else { 0u8 });
        self.registers.f = Flags {
            zero: r == 0,
            subtract: false,
            half_carry: false,
            carry: crate::bits::bit8(v, 7),
        };
        self.write_register(bus, opcode, r);
    }

    /// $CB RR r / RR (HL)
    pub(in crate::gb::sm83) fn rr_r<B: BusInterface>(&mut self, bus: &mut B, opcode: u8)
        ensures
            spec_cb_rmw_ensures(
                *old(self),
                *final(self),
                old(bus).ops(),
                final(bus).ops(),
                opcode,
                |v: u8| spec_rr(v, old(self).registers.f.carry, true),
            ),
    {
        let v = self.read_register(bus, opcode);
        let r = (v >> 1) | (if self.registers.f.carry { 0x80u8 } else { 0u8 });
        self.registers.f = Flags {
            zero: r == 0,
            subtract: false,
            half_carry: false,
            carry: crate::bits::bit8(v, 0),
        };
        self.write_register(bus, opcode, r);
    }

    /// $CB SLA r / SLA (HL)
    pub(in crate::gb::sm83) fn sla<B: BusInterface>(&mut self, bus: &mut B, opcode: u8)
        ensures
            spec_cb_rmw_ensures(
                *old(self),
                *final(self),
                old(bus).ops(),
                final(bus).ops(),
                opcode,
                |v: u8| spec_sla(v),
            ),
    {
        let v = self.read_register(bus, opcode);
        let r = v << 1;
        self.registers.f = Flags {
            zero: r == 0,
            subtract: false,
            half_carry: false,
            carry: crate::bits::bit8(v, 7),
        };
        self.write_register(bus, opcode, r);
    }

    /// $CB SRA r / SRA (HL)
    pub(in crate::gb::sm83) fn sra<B: BusInterface>(&mut self, bus: &mut B, opcode: u8)
        ensures
            spec_cb_rmw_ensures(
                *old(self),
                *final(self),
                old(bus).ops(),
                final(bus).ops(),
                opcode,
                |v: u8| spec_sra(v),
            ),
    {
        let v = self.read_register(bus, opcode);
        let r = (v >> 1) | (v & 0x80);
        self.registers.f = Flags {
            zero: r == 0,
            subtract: false,
            half_carry: false,
            carry: crate::bits::bit8(v, 0),
        };
        self.write_register(bus, opcode, r);
    }

    /// $CB SWAP r / SWAP (HL)
    pub(in crate::gb::sm83) fn swap<B: BusInterface>(&mut self, bus: &mut B, opcode: u8)
        ensures
            spec_cb_rmw_ensures(
                *old(self),
                *final(self),
                old(bus).ops(),
                final(bus).ops(),
                opcode,
                |v: u8| spec_swap(v),
            ),
    {
        let v = self.read_register(bus, opcode);
        let r = (v >> 4) | (v << 4);
        self.registers.f = Flags {
            zero: r == 0,
            subtract: false,
            half_carry: false,
            carry: false,
        };
        self.write_register(bus, opcode, r);
    }

    /// $CB SRL r / SRL (HL)
    pub(in crate::gb::sm83) fn srl<B: BusInterface>(&mut self, bus: &mut B, opcode: u8)
        ensures
            spec_cb_rmw_ensures(
                *old(self),
                *final(self),
                old(bus).ops(),
                final(bus).ops(),
                opcode,
                |v: u8| spec_srl(v),
            ),
    {
        let v = self.read_register(bus, opcode);
        let r = v >> 1;
        self.registers.f = Flags {
            zero: r == 0,
            subtract: false,
            half_carry: false,
            carry: crate::bits::bit8(v, 0),
        };
        self.write_register(bus, opcode, r);
    }

    /// $CB BIT n, r / BIT n, (HL): Z from the tested bit; C unaffected.
    pub(in crate::gb::sm83) fn bit<B: BusInterface>(&mut self, bus: &mut B, opcode: u8)
        ensures
            final(self).state == old(self).state,
            ({
                let n = ((opcode >> 3) & 0x7) as u8;
                &&& (opcode & 0x7 != 6 ==> {
                    &&& final(bus).ops() == old(bus).ops()
                    &&& final(self).registers == (Registers {
                        f: Flags {
                            zero: !spec_bit8(old(self).registers.spec_r8(opcode), n),
                            subtract: false,
                            half_carry: true,
                            carry: old(self).registers.f.carry,
                        },
                        ..old(self).registers
                    })
                })
                &&& (opcode & 0x7 == 6 ==> {
                    let v = op_value(final(bus).ops().last());
                    &&& final(bus).ops() == old(bus).ops().push(BusOp::Read {
                        address: old(self).registers.spec_hl(),
                        value: v,
                    })
                    &&& final(self).registers == (Registers {
                        f: Flags {
                            zero: !spec_bit8(v, n),
                            subtract: false,
                            half_carry: true,
                            carry: old(self).registers.f.carry,
                        },
                        ..old(self).registers
                    })
                })
            }),
    {
        let n = (opcode >> 3) & 0x7;
        proof {
            crate::bits::lemma_and_bound_u8(opcode >> 3, 0x7);
        }
        let v = self.read_register(bus, opcode);
        self.registers.f = Flags {
            zero: !crate::bits::bit8(v, n),
            subtract: false,
            half_carry: true,
            carry: self.registers.f.carry,
        };
    }

    /// $CB RES n, r / RES n, (HL): clear one bit; flags unaffected.
    pub(in crate::gb::sm83) fn res<B: BusInterface>(&mut self, bus: &mut B, opcode: u8)
        ensures
            spec_cb_rmw_ensures(
                *old(self),
                *final(self),
                old(bus).ops(),
                final(bus).ops(),
                opcode,
                |v: u8| (v & !((1u8 << (((opcode >> 3) & 0x7) as u8)) as u8), old(self).registers.f),
            ),
    {
        let n = (opcode >> 3) & 0x7;
        proof {
            crate::bits::lemma_and_bound_u8(opcode >> 3, 0x7);
        }
        let v = self.read_register(bus, opcode);
        let r = v & !(1u8 << n);
        self.write_register(bus, opcode, r);
    }

    /// $CB SET n, r / SET n, (HL): set one bit; flags unaffected.
    pub(in crate::gb::sm83) fn set<B: BusInterface>(&mut self, bus: &mut B, opcode: u8)
        ensures
            spec_cb_rmw_ensures(
                *old(self),
                *final(self),
                old(bus).ops(),
                final(bus).ops(),
                opcode,
                |v: u8| (v | ((1u8 << (((opcode >> 3) & 0x7) as u8)) as u8), old(self).registers.f),
            ),
    {
        let n = (opcode >> 3) & 0x7;
        proof {
            crate::bits::lemma_and_bound_u8(opcode >> 3, 0x7);
        }
        let v = self.read_register(bus, opcode);
        let r = v | (1u8 << n);
        self.write_register(bus, opcode, r);
    }
}

} // verus!
