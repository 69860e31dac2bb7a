//! Motorola 68000 core: register file, addressing modes, condition codes,
//! and the instruction executor driven by [`instructions::decode_opcode`].

pub mod instructions;

use vstd::prelude::*;

verus! {

/// A data register number (0-7).
#[derive(Debug, Clone, Copy, PartialEq, Eq, Structural)]
pub struct DataRegister(pub u8);

/// An address register number (0-7; 7 is the active stack pointer).
#[derive(Debug, Clone, Copy, PartialEq, Eq, Structural)]
pub struct AddressRegister(pub u8);

/// Operation size encoded in bits 6-7 of most opcodes.
#[derive(Debug, Clone, Copy, PartialEq, Eq, Structural)]
pub enum OpSize {
    Byte,
    Word,
    LongWord,
}

impl OpSize {
    /// The size field in bits 6-7; the fourth encoding is not a size.
    pub open spec fn spec_parse_from_opcode(opcode: u16) -> Option<OpSize> {
        if opcode & 0xC0 == 0x00 {
            Some(OpSize::Byte)
        } else if opcode & 0xC0 == 0x40 {
            Some(OpSize::Word)
        } else if opcode & 0xC0 == 0x80 {
            Some(OpSize::LongWord)
        } else {
            None::<OpSize>
        }
    }

    /// Decode bits 6-7; the fourth encoding is not a size.
    pub fn parse_from_opcode(opcode: u16) -> (r: Option<OpSize>)
        ensures
            r == OpSize::spec_parse_from_opcode(opcode),
    {
        let bits = opcode & 0xC0;
        if bits == 0x00 {
            Option::Some(Self::Byte)
        } else if bits == 0x40 {
            Option::Some(Self::Word)
        } else if bits == 0x80 {
            Option::Some(Self::LongWord)
        } else {
            Option::None
        }
    }
}

/// A fully decoded effective-address specifier.
#[derive(Debug, Clone, Copy, PartialEq, Eq, Structural)]
pub enum AddressingMode {
    DataDirect(DataRegister),
    AddressDirect(AddressRegister),
    AddressIndirect(AddressRegister),
    AddressIndirectPostincrement(AddressRegister),
    AddressIndirectPredecrement(AddressRegister),
    AddressIndirectDisplacement(AddressRegister),
    AddressIndirectIndexed(AddressRegister),
    AbsoluteShort,
    AbsoluteLong,
    PcRelativeDisplacement,
    PcRelativeIndexed,
    Immediate,
    /// A 3-bit constant encoded in the opcode (ADDQ; 0 means 8).
    Quick(u8),
}

impl AddressingMode {
    /// Whether this mode names a memory-alterable destination.
    pub open spec fn spec_is_writable(self) -> bool {
        match self {
            AddressingMode::DataDirect(_) => true,
            AddressingMode::AddressDirect(_) => true,
            AddressingMode::AddressIndirect(_) => true,
            AddressingMode::AddressIndirectPostincrement(_) => true,
            AddressingMode::AddressIndirectPredecrement(_) => true,
            AddressingMode::AddressIndirectDisplacement(_) => true,
            AddressingMode::AddressIndirectIndexed(_) => true,
            AddressingMode::AbsoluteShort => true,
            AddressingMode::AbsoluteLong => true,
            AddressingMode::PcRelativeDisplacement => false,
            AddressingMode::PcRelativeIndexed => false,
            AddressingMode::Immediate => false,
            AddressingMode::Quick(_) => false,
        }
    }

    /// The mode/register-field mapping: modes 0-6 select a register form,
    /// mode 7 selects among the absolute, PC-relative, and immediate forms
    /// by the register field, whose values 5-7 are unassigned.
    pub open spec fn spec_parse(mode: u8, register: u8) -> Option<AddressingMode> {
        let m = mode & 0x7;
        let r = (register & 0x7) as u8;
        if m == 0 {
            Some(AddressingMode::DataDirect(DataRegister(r)))
        } else if m == 1 {
            Some(AddressingMode::AddressDirect(AddressRegister(r)))
        } else if m == 2 {
            Some(AddressingMode::AddressIndirect(AddressRegister(r)))
        } else if m == 3 {
            Some(AddressingMode::AddressIndirectPostincrement(AddressRegister(r)))
        } else if m == 4 {
            Some(AddressingMode::AddressIndirectPredecrement(AddressRegister(r)))
        } else if m == 5 {
            Some(AddressingMode::AddressIndirectDisplacement(AddressRegister(r)))
        } else if m == 6 {
            Some(AddressingMode::AddressIndirectIndexed(AddressRegister(r)))
        } else if r == 0 {
            Some(AddressingMode::AbsoluteShort)
        } else if r == 1 {
            Some(AddressingMode::AbsoluteLong)
        } else if r == 2 {
            Some(AddressingMode::PcRelativeDisplacement)
        } else if r == 3 {
            Some(AddressingMode::PcRelativeIndexed)
        } else if r == 4 {
            Some(AddressingMode::Immediate)
        } else {
            None::<AddressingMode>
        }
    }

    /// Decode a 3-bit mode field and 3-bit register field.
    pub fn parse(mode: u8, register: u8) -> (r: Option<AddressingMode>)
        ensures
            r == AddressingMode::spec_parse(mode, register),
            r matches Some(m) ==> m.spec_wf(),
    {
        proof {
            crate::bits::lemma_and_bound_u8(register, 0x7);
        }
        let register = register & 0x7;
        match mode & 0x7 {
            0 => Option::Some(Self::DataDirect(DataRegister(register))),
            1 => Option::Some(Self::AddressDirect(AddressRegister(register))),
            2 => Option::Some(Self::AddressIndirect(AddressRegister(register))),
            3 => Option::Some(Self::AddressIndirectPostincrement(AddressRegister(register))),
            4 => Option::Some(Self::AddressIndirectPredecrement(AddressRegister(register))),
            5 => Option::Some(Self::AddressIndirectDisplacement(AddressRegister(register))),
            6 => Option::Some(Self::AddressIndirectIndexed(AddressRegister(register))),
            _ => {
                match register {
                    0 => Option::Some(Self::AbsoluteShort),
                    1 => Option::Some(Self::AbsoluteLong),
                    2 => Option::Some(Self::PcRelativeDisplacement),
                    3 => Option::Some(Self::PcRelativeIndexed),
                    4 => Option::Some(Self::Immediate),
                    _ => Option::None,
                }
            }
        }
    }

    /// Register numbers stay below 8.
    pub open spec fn spec_wf(self) -> bool {
        match self {
            AddressingMode::DataDirect(r) => r.0 < 8,
            AddressingMode::AddressDirect(r) => r.0 < 8,
            AddressingMode::AddressIndirect(r) => r.0 < 8,
            AddressingMode::AddressIndirectPostincrement(r) => r.0 < 8,
            AddressingMode::AddressIndirectPredecrement(r) => r.0 < 8,
            AddressingMode::AddressIndirectDisplacement(r) => r.0 < 8,
            AddressingMode::AddressIndirectIndexed(r) => r.0 < 8,
            AddressingMode::Quick(_) => true,
            _ => true,
        }
    }
}

/// CPU exceptions surfaced by decode/execute, plus an explicit
/// classification for instructions this core does not implement.
#[derive(Debug, Clone, Copy, PartialEq, Eq, Structural)]
pub enum Exception {
    IllegalInstruction(u16),
    PrivilegeViolation,
    Unimplemented(u16),
}

/// Result alias used throughout the executor.
pub type ExecuteResult<T> = Result<T, Exception>;

/// The five condition codes.
#[derive(Debug, Clone, Copy, PartialEq, Eq, Structural)]
pub struct ConditionCodes {
    pub extend: bool,
    pub negative: bool,
    pub zero: bool,
    pub overflow: bool,
    pub carry: bool,
}

/// The 68000 register file: eight data registers, seven address
/// registers, both stack pointers, PC, and the status register fields.
#[derive(Debug, Clone)]
pub struct Registers {
    pub d: Vec<u32>,
    pub a: Vec<u32>,
    pub usp: u32,
    pub ssp: u32,
    pub pc: u32,
    pub ccr: ConditionCodes,
    pub supervisor_mode: bool,
    pub interrupt_priority_mask: u8,
}

impl Registers {
    pub open spec fn wf(self) -> bool {
        &&& self.d.len() == 8
        &&& self.a.len() == 7
        &&& self.interrupt_priority_mask < 8
    }

    /// Reset state: supervisor mode with everything cleared.
    pub fn new() -> (r: Self)
        ensures
            r.wf(),
            r.supervisor_mode,
            r.pc == 0,
            r.usp == 0 && r.ssp == 0,
            r.interrupt_priority_mask == 7,
            r.ccr == (ConditionCodes {
                extend: false,
                negative: false,
                zero: false,
                overflow: false,
                carry: false,
            }),
            forall|i: int| 0 <= i < 8 ==> r.d[i] == 0u32,
            forall|i: int| 0 <= i < 7 ==> r.a[i] == 0u32,
    {
        let mut d: Vec<u32> = Vec::new();
        let mut a: Vec<u32> = Vec::new();
        let mut i: usize = 0;
        while i < 8
            invariant
                i <= 8,
                d.len() == i,
                forall|j: int| 0 <= j < i ==> d[j] == 0u32,
            decreases 8 - i,
        {
            d.push(0);
            i = i + 1;
        }
        let mut k: usize = 0;
        while k < 7
            invariant
                k <= 7,
                a.len() == k,
                forall|j: int| 0 <= j < k ==> a[j] == 0u32,
            decreases 7 - k,
        {
            a.push(0);
            k = k + 1;
        }
        Self {
            d,
            a,
            usp: 0,
            ssp: 0,
            pc: 0,
            ccr: ConditionCodes {
                extend: false,
                negative: false,
                zero: false,
                overflow: false,
                carry: false,
            },
            supervisor_mode: true,
            interrupt_priority_mask: 7,
        }
    }

    /// Read a data register.
    pub fn data(&self, register: DataRegister) -> (r: u32)
        requires
            self.wf(),
        ensures
            r == self.d[(register.0 & 0x7) as int],
    {
        proof {
            crate::bits::lemma_and_bound_u8(register.0, 0x7);
        }
        self.d[(register.0 & 0x7) as usize]
    }

    /// Write a data register.
    pub fn set_data(&mut self, register: DataRegister, value: u32)
        requires
            old(self).wf(),
        ensures
            final(self).wf(),
            final(self).d@ == old(self).d@.update((register.0 & 0x7) as int, value),
            *final(self) == (Registers { d: final(self).d, ..*old(self) }),
    {
        proof {
            crate::bits::lemma_and_bound_u8(register.0, 0x7);
        }
        self.d.set((register.0 & 0x7) as usize, value);
    }

    /// Read an address register; number 7 is the active stack pointer.
    pub fn address(&self, register: AddressRegister) -> (r: u32)
        requires
            self.wf(),
        ensures
            register.0 & 0x7 == 7 ==> r == (if self.supervisor_mode {
                self.ssp
            } else {
                self.usp
            }),
            register.0 & 0x7 != 7 ==> r == self.a[(register.0 & 0x7) as int],
            r == spec_address_reg(*self, register.0),
    {
        proof {
            crate::bits::lemma_and_bound_u8(register.0, 0x7);
        }
        let idx = (register.0 & 0x7) as usize;
        if idx == 7 {
            if self.supervisor_mode {
                self.ssp
            } else {
                self.usp
            }
        } else {
            self.a[idx]
        }
    }

    /// Write an address register; number 7 is the active stack pointer.
    pub fn set_address(&mut self, register: AddressRegister, value: u32)
        requires
            old(self).wf(),
        ensures
            final(self).wf(),
            register.0 & 0x7 == 7 && old(self).supervisor_mode ==> *final(self) == (Registers {
                ssp: value,
                ..*old(self)
            }),
            register.0 & 0x7 == 7 && !old(self).supervisor_mode ==> *final(self) == (Registers {
                usp: value,
                ..*old(self)
            }),
            register.0 & 0x7 != 7 ==> {
                &&& final(self).a@ == old(self).a@.update((register.0 & 0x7) as int, value)
                &&& *final(self) == (Registers { a: final(self).a, ..*old(self) })
            },
            spec_set_address_ensures(*old(self), *final(self), register.0, value),
    {
        proof {
            crate::bits::lemma_and_bound_u8(register.0, 0x7);
        }
        let idx = (register.0 & 0x7) as usize;
        if idx == 7 {
            if self.supervisor_mode {
                self.ssp = value;
            } else {
                self.usp = value;
            }
        } else {
            self.a.set(idx, value);
        }
    }

    /// The status register: supervisor bit, interrupt mask, and the five
    /// condition codes.
    pub fn status_register(&self) -> (r: u16)
        requires
            self.wf(),
        ensures
            r == ((if self.supervisor_mode { 0x2000int } else { 0int })
                + self.interrupt_priority_mask * 0x100
                + (if self.ccr.extend { 0x10int } else { 0int })
                + (if self.ccr.negative { 0x8int } else { 0int })
                + (if self.ccr.zero { 0x4int } else { 0int })
                + (if self.ccr.overflow { 0x2int } else { 0int })
                + (if self.ccr.carry { 0x1int } else { 0int })),
            r == spec_status_register(*self),
    {
        (if self.supervisor_mode { 0x2000u16 } else { 0u16 })
            + (self.interrupt_priority_mask as u16) * 0x100
            + (if self.ccr.extend { 0x10u16 } else { 0u16 })
            + (if self.ccr.negative { 0x8u16 } else { 0u16 })
            + (if self.ccr.zero { 0x4u16 } else { 0u16 })
            + (if self.ccr.overflow { 0x2u16 } else { 0u16 })
            + (if self.ccr.carry { 0x1u16 } else { 0u16 })
    }

    /// Replace the condition codes from a CCR byte.
    pub fn set_ccr(&mut self, value: u8)
        ensures
            *final(self) == (Registers {
                ccr: ConditionCodes {
                    extend: crate::bits::spec_bit8(value, 4),
                    negative: crate::bits::spec_bit8(value, 3),
                    zero: crate::bits::spec_bit8(value, 2),
                    overflow: crate::bits::spec_bit8(value, 1),
                    carry: crate::bits::spec_bit8(value, 0),
                },
                ..*old(self)
            }),
            *final(self) == (Registers { ccr: spec_ccr_from_byte(value), ..*old(self) }),
    {
        self.ccr = ConditionCodes {
            extend: crate::bits::bit8(value, 4),
            negative: crate::bits::bit8(value, 3),
            zero: crate::bits::bit8(value, 2),
            overflow: crate::bits::bit8(value, 1),
            carry: crate::bits::bit8(value, 0),
        };
    }

    /// Replace the whole status register.
    pub fn set_status_register(&mut self, value: u16)
        ensures
            *final(self) == (Registers {
                supervisor_mode: crate::bits::spec_bit16(value, 13),
                interrupt_priority_mask: ((value >> 8) & 0x7) as u8,
                ccr: ConditionCodes {
                    extend: crate::bits::spec_bit16(value, 4),
                    negative: crate::bits::spec_bit16(value, 3),
                    zero: crate::bits::spec_bit16(value, 2),
                    overflow: crate::bits::spec_bit16(value, 1),
                    carry: crate::bits::spec_bit16(value, 0),
                },
                ..*old(self)
            }),
            *final(self) == spec_with_status_register(*old(self), value),
            old(self).wf() ==> final(self).wf(),
    {
        proof {
            crate::bits::lemma_and_bound_u16(value >> 8, 0x7);
        }
        self.supervisor_mode = crate::bits::bit16(value, 13);
        self.interrupt_priority_mask = ((value >> 8) & 0x7) as u8;
        self.ccr = ConditionCodes {
            extend: crate::bits::bit16(value, 4),
            negative: crate::bits::bit16(value, 3),
            zero: crate::bits::bit16(value, 2),
            overflow: crate::bits::bit16(value, 1),
            carry: crate::bits::bit16(value, 0),
        };
    }
}

/// One observable bus access of the 68000.
#[derive(Debug, Clone, Copy, PartialEq, Eq, Structural)]
pub enum BusOp {
    ReadByte { address: u32, value: u8 },
    ReadWord { address: u32, value: u16 },
    WriteByte { address: u32, value: u8 },
    WriteWord { address: u32, value: u16 },
}

/// The word carried by a bus operation (byte accesses zero-extended).
pub open spec fn op_word(op: BusOp) -> u16 {
    match op {
        BusOp::ReadByte { address: _, value } => value as u16,
        BusOp::ReadWord { address: _, value } => value,
        BusOp::WriteByte { address: _, value } => value as u16,
        BusOp::WriteWord { address: _, value } => value,
    }
}

/// The byte carried by a bus operation (word accesses truncated).
pub open spec fn op_byte(op: BusOp) -> u8 {
    match op {
        BusOp::ReadByte { address: _, value } => value,
        BusOp::ReadWord { address: _, value } => value as u8,
        BusOp::WriteByte { address: _, value } => value,
        BusOp::WriteWord { address: _, value } => value as u8,
    }
}

/// The status register as a word: the supervisor bit, the interrupt
/// priority mask, and the five condition codes.
pub open spec fn spec_status_register(regs: Registers) -> u16 {
    (((if regs.supervisor_mode { 0x2000int } else { 0int })
        + regs.interrupt_priority_mask * 0x100
        + (if regs.ccr.extend { 0x10int } else { 0int })
        + (if regs.ccr.negative { 0x8int } else { 0int })
        + (if regs.ccr.zero { 0x4int } else { 0int })
        + (if regs.ccr.overflow { 0x2int } else { 0int })
        + (if regs.ccr.carry { 0x1int } else { 0int })) as u16)
}

/// The condition codes a CCR byte selects.
pub open spec fn spec_ccr_from_byte(value: u8) -> ConditionCodes {
    ConditionCodes {
        extend: crate::bits::spec_bit8(value, 4),
        negative: crate::bits::spec_bit8(value, 3),
        zero: crate::bits::spec_bit8(value, 2),
        overflow: crate::bits::spec_bit8(value, 1),
        carry: crate::bits::spec_bit8(value, 0),
    }
}

/// The five condition codes as a CCR byte.
pub open spec fn spec_ccr_byte(ccr: ConditionCodes) -> u8 {
    (((if ccr.extend { 0x10int } else { 0int }) + (if ccr.negative { 0x8int } else { 0int })
        + (if ccr.zero { 0x4int } else { 0int }) + (if ccr.overflow { 0x2int } else { 0int })
        + (if ccr.carry { 0x1int } else { 0int })) as u8)
}

/// The register file after a whole status-register write.
pub open spec fn spec_with_status_register(regs: Registers, value: u16) -> Registers {
    Registers {
        supervisor_mode: crate::bits::spec_bit16(value, 13),
        interrupt_priority_mask: ((value >> 8) & 0x7) as u8,
        ccr: ConditionCodes {
            extend: crate::bits::spec_bit16(value, 4),
            negative: crate::bits::spec_bit16(value, 3),
            zero: crate::bits::spec_bit16(value, 2),
            overflow: crate::bits::spec_bit16(value, 1),
            carry: crate::bits::spec_bit16(value, 0),
        },
        ..regs
    }
}

/// Writing an address register: number 7 names the active stack pointer.
pub open spec fn spec_set_address_ensures(
    pre: Registers,
    post: Registers,
    register: u8,
    value: u32,
) -> bool {
    if register & 0x7 == 7 {
        if pre.supervisor_mode {
            post == (Registers { ssp: value, ..pre })
        } else {
            post == (Registers { usp: value, ..pre })
        }
    } else {
        &&& post.a@ == pre.a@.update((register & 0x7) as int, value)
        &&& post == (Registers { a: post.a, ..pre })
    }
}

/// The active-stack-pointer view of an address register number: 7 names
/// SSP in supervisor mode and USP otherwise.
pub open spec fn spec_address_reg(regs: Registers, register: u8) -> u32 {
    if register & 0x7 == 7 {
        if regs.supervisor_mode {
            regs.ssp
        } else {
            regs.usp
        }
    } else {
        regs.a[(register & 0x7) as int]
    }
}

/// The bus the 68000 executes against. Byte and word access; the
/// peripheral side effects of an access are each implementation's own, but
/// every access is recorded in the ghost trace `ops()`, so the executor's
/// contracts can state exactly which reads and writes an instruction
/// performs, and in which order.
pub trait BusInterface: Sized {
    /// Ghost trace of every data access performed on this bus.
    spec fn ops(&self) -> Seq<BusOp>;

    fn read_byte(&mut self, address: u32) -> (r: u8)
        ensures
            final(self).ops() == old(self).ops().push(BusOp::ReadByte { address, value: r });

    fn read_word(&mut self, address: u32) -> (r: u16)
        ensures
            final(self).ops() == old(self).ops().push(BusOp::ReadWord { address, value: r });

    fn write_byte(&mut self, address: u32, value: u8)
        ensures
            final(self).ops() == old(self).ops().push(BusOp::WriteByte { address, value });

    fn write_word(&mut self, address: u32, value: u16)
        ensures
            final(self).ops() == old(self).ops().push(BusOp::WriteWord { address, value });

    fn interrupt_level(&self) -> u8;

    fn acknowledge_interrupt(&mut self)
        ensures
            final(self).ops() == old(self).ops();
}

} // verus!
