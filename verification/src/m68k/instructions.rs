//! Instruction decode and execution for the 68000's data-movement and
//! logic/arithmetic groups: ADD/ADDX/ADDQ/ADDI, AND/OR/EOR with their
//! immediate and CCR/SR forms, and the MOVE family.
//!
//! Decode is a pure, total function of the opcode word: every value maps
//! to one instruction, an illegal-instruction exception, a privilege
//! violation, or an explicit unimplemented classification.

use vstd::prelude::*;
use crate::bits::spec_bit16;
use crate::m68k::{
    op_byte, op_word, spec_address_reg, spec_ccr_byte, spec_ccr_from_byte,
    spec_set_address_ensures, spec_status_register, spec_with_status_register, AddressRegister,
    AddressingMode, BusInterface, BusOp, ConditionCodes, DataRegister, Exception, ExecuteResult,
    OpSize, Registers,
};

verus! {

/// Operand direction for register/memory forms.
#[derive(Debug, Clone, Copy, PartialEq, Eq, Structural)]
pub enum Direction {
    RegisterToMemory,
    MemoryToRegister,
}

impl Direction {
    pub fn parse_from_opcode(opcode: u16) -> (r: Self)
        ensures
            r == (if spec_bit16(opcode, 8) {
                Direction::RegisterToMemory
            } else {
                Direction::MemoryToRegister
            }),
    {
        if crate::bits::bit16(opcode, 8) {
            Self::RegisterToMemory
        } else {
            Self::MemoryToRegister
        }
    }
}

/// Which way MOVE USP transfers.
#[derive(Debug, Clone, Copy, PartialEq, Eq, Structural)]
pub enum UspDirection {
    RegisterToUsp,
    UspToRegister,
}

/// Operand pairing for the extend-carry operations.
#[derive(Debug, Clone, Copy, PartialEq, Eq, Structural)]
pub enum ExtendOpMode {
    DataDirect,
    AddressIndirectPredecrement,
}

impl ExtendOpMode {
    pub fn parse_from_opcode(opcode: u16) -> (r: Self)
        ensures
            r == (if spec_bit16(opcode, 3) {
                ExtendOpMode::AddressIndirectPredecrement
            } else {
                ExtendOpMode::DataDirect
            }),
    {
        if crate::bits::bit16(opcode, 3) {
            Self::AddressIndirectPredecrement
        } else {
            Self::DataDirect
        }
    }
}

/// A decoded instruction.
#[derive(Debug, Clone, Copy, PartialEq, Eq, Structural)]
pub enum Instruction {
    Add { size: OpSize, source: AddressingMode, dest: AddressingMode },
    AddExtend { size: OpSize, source: AddressingMode, dest: AddressingMode },
    And { size: OpSize, source: AddressingMode, dest: AddressingMode },
    AndToCcr,
    AndToSr,
    ExclusiveOr { size: OpSize, source: AddressingMode, dest: AddressingMode },
    ExclusiveOrToCcr,
    ExclusiveOrToSr,
    Move { size: OpSize, source: AddressingMode, dest: AddressingMode },
    MoveFromSr(AddressingMode),
    MoveToCcr(AddressingMode),
    MoveToSr(AddressingMode),
    MoveUsp(UspDirection, AddressRegister),
    MoveQuick(i8, DataRegister),
    Or { size: OpSize, source: AddressingMode, dest: AddressingMode },
    OrToCcr,
    OrToSr,
}

impl Instruction {
    /// The addressing mode an instruction reads, if any.
    pub fn source_addressing_mode(self) -> (r: Option<AddressingMode>)
        ensures
            r == self.spec_source_addressing_mode(),
    {
        match self {
            Self::Add { source, .. }
            | Self::AddExtend { source, .. }
            | Self::And { source, .. }
            | Self::ExclusiveOr { source, .. }
            | Self::Move { source, .. }
            | Self::MoveToCcr(source)
            | Self::MoveToSr(source)
            | Self::Or { source, .. } => Option::Some(source),
            Self::AndToCcr
            | Self::AndToSr
            | Self::ExclusiveOrToCcr
            | Self::ExclusiveOrToSr
            | Self::MoveQuick(..)
            | Self::MoveFromSr(..)
            | Self::MoveUsp(..)
            | Self::OrToCcr
            | Self::OrToSr => Option::None,
        }
    }

    pub open spec fn spec_source_addressing_mode(self) -> Option<AddressingMode> {
        match self {
            Instruction::Add { source, .. } => Some(source),
            Instruction::AddExtend { source, .. } => Some(source),
            Instruction::And { source, .. } => Some(source),
            Instruction::ExclusiveOr { source, .. } => Some(source),
            Instruction::Move { source, .. } => Some(source),
            Instruction::MoveToCcr(source) => Some(source),
            Instruction::MoveToSr(source) => Some(source),
            Instruction::Or { source, .. } => Some(source),
            _ => None::<AddressingMode>,
        }
    }

    /// The addressing mode an instruction writes, if any.
    pub fn dest_addressing_mode(self) -> (r: Option<AddressingMode>)
        ensures
            r == self.spec_dest_addressing_mode(),
    {
        match self {
            Self::Add { dest, .. }
            | Self::AddExtend { dest, .. }
            | Self::And { dest, .. }
            | Self::ExclusiveOr { dest, .. }
            | Self::Move { dest, .. }
            | Self::MoveFromSr(dest)
            | Self::Or { dest, .. } => Option::Some(dest),
            Self::AndToCcr
            | Self::AndToSr
            | Self::ExclusiveOrToCcr
            | Self::ExclusiveOrToSr
            | Self::MoveToCcr(..)
            | Self::MoveToSr(..)
            | Self::MoveUsp(..)
            | Self::MoveQuick(..)
            | Self::OrToCcr
            | Self::OrToSr => Option::None,
        }
    }

    pub open spec fn spec_dest_addressing_mode(self) -> Option<AddressingMode> {
        match self {
            Instruction::Add { dest, .. } => Some(dest),
            Instruction::AddExtend { dest, .. } => Some(dest),
            Instruction::And { dest, .. } => Some(dest),
            Instruction::ExclusiveOr { dest, .. } => Some(dest),
            Instruction::Move { dest, .. } => Some(dest),
            Instruction::MoveFromSr(dest) => Some(dest),
            Instruction::Or { dest, .. } => Some(dest),
            _ => None::<AddressingMode>,
        }
    }
}

/// Every register number inside a decoded instruction is in range.
pub open spec fn spec_instruction_wf(i: Instruction) -> bool {
    match i {
        Instruction::Add { source, dest, .. } => source.spec_wf() && dest.spec_wf(),
        Instruction::AddExtend { source, dest, .. } => source.spec_wf() && dest.spec_wf(),
        Instruction::And { source, dest, .. } => source.spec_wf() && dest.spec_wf(),
        Instruction::ExclusiveOr { source, dest, .. } => source.spec_wf() && dest.spec_wf(),
        Instruction::Move { source, dest, .. } => source.spec_wf() && dest.spec_wf(),
        Instruction::Or { source, dest, .. } => source.spec_wf() && dest.spec_wf(),
        Instruction::MoveFromSr(dest) => dest.spec_wf(),
        Instruction::MoveToCcr(source) => source.spec_wf(),
        Instruction::MoveToSr(source) => source.spec_wf(),
        Instruction::MoveUsp(_, register) => register.0 < 8,
        Instruction::MoveQuick(_, register) => register.0 < 8,
        _ => true,
    }
}

/// The instructions only supervisor code may execute.
pub open spec fn spec_is_privileged(i: Instruction) -> bool {
    ||| i is AndToSr
    ||| i is OrToSr
    ||| i is ExclusiveOrToSr
    ||| i is MoveToSr
    ||| i is MoveUsp
}

/// The modulus of a sized value.
pub open spec fn spec_modulus(size: OpSize) -> int {
    match size {
        OpSize::Byte => 0x100,
        OpSize::Word => 0x10000,
        OpSize::LongWord => 0x1_0000_0000,
    }
}

/// Whether the sign bit of a sized value is set.
pub open spec fn spec_sign(size: OpSize, v: int) -> bool {
    v % spec_modulus(size) >= spec_modulus(size) / 2
}

/// Addition of two sized values: result, carry, and signed overflow.
pub open spec fn spec_add_sized(size: OpSize, a: int, b: int, cin: int) -> (int, bool, bool) {
    let m = spec_modulus(size);
    let sum = a + b + cin;
    let result = sum % m;
    (
        result,
        sum >= m,
        spec_sign(size, a) == spec_sign(size, b) && spec_sign(size, result) != spec_sign(size, a),
    )
}

/// Replace the low `size` part of a register with a sized result.
pub open spec fn spec_merge(size: OpSize, full: u32, sized: int) -> u32 {
    match size {
        OpSize::Byte => ((full - (full % 0x100)) + sized) as u32,
        OpSize::Word => ((full - (full % 0x10000)) + sized) as u32,
        OpSize::LongWord => sized as u32,
    }
}

/// A sized addition with flags, as the hardware computes it.
pub fn alu_add(size: OpSize, a: u32, b: u32, carry_in: bool) -> (r: (u32, bool, bool))
    requires
        a < spec_modulus(size),
        b < spec_modulus(size),
    ensures
        ({
            let (result, carry, overflow) = spec_add_sized(
                size,
                a as int,
                b as int,
                if carry_in { 1int } else { 0int },
            );
            r.0 == result && r.1 == carry && r.2 == overflow
        }),
{
    let cin: u64 = if carry_in { 1 } else { 0 };
    let sum: u64 = a as u64 + b as u64 + cin;
    let (modulus, half): (u64, u64) = match size {
        OpSize::Byte => (0x100, 0x80),
        OpSize::Word => (0x10000, 0x8000),
        OpSize::LongWord => (0x1_0000_0000, 0x8000_0000),
    };
    let result: u64 = sum % modulus;
    let carry = sum >= modulus;
    let sign_a = a as u64 >= half;
    let sign_b = b as u64 >= half;
    let sign_r = result >= half;
    let overflow = sign_a == sign_b && sign_r != sign_a;
    ((result as u32), carry, overflow)
}

/// A sized subtraction with flags (borrow out, signed overflow).
pub open spec fn spec_sub_sized(size: OpSize, a: int, b: int, cin: int) -> (int, bool, bool) {
    let m = spec_modulus(size);
    let diff = a - b - cin;
    let result = if diff >= 0 {
        diff
    } else {
        diff + m
    };
    (
        result,
        diff < 0,
        spec_sign(size, a) != spec_sign(size, b) && spec_sign(size, result) != spec_sign(size, a),
    )
}

impl OpSize {
    /// The number of bytes a memory operand of this size occupies.
    pub fn byte_count(self) -> (r: u32)
        ensures
            r == (match self {
                OpSize::Byte => 1int,
                OpSize::Word => 2int,
                OpSize::LongWord => 4int,
            }),
    {
        match self {
            Self::Byte => 1,
            Self::Word => 2,
            Self::LongWord => 4,
        }
    }
}

/// Sign-extend a 16-bit value to 32 bits.
pub open spec fn spec_sign_extend_16(v: u16) -> u32 {
    if v >= 0x8000 {
        (v + 0xFFFF_0000) as u32
    } else {
        v as u32
    }
}

/// Sign-extend a 16-bit value to 32 bits.
pub fn sign_extend_16(v: u16) -> (r: u32)
    ensures
        r == spec_sign_extend_16(v),
{
    if v >= 0x8000 {
        v as u32 + 0xFFFF_0000
    } else {
        v as u32
    }
}

/// Sign-extend an 8-bit value to 32 bits.
pub open spec fn spec_sign_extend_8(v: u8) -> u32 {
    if v >= 0x80 {
        (v + 0xFFFF_FF00) as u32
    } else {
        v as u32
    }
}

/// Sign-extend an 8-bit value to 32 bits.
pub fn sign_extend_8(v: u8) -> (r: u32)
    ensures
        r == spec_sign_extend_8(v),
{
    if v >= 0x80 {
        v as u8 as u32 + 0xFFFF_FF00
    } else {
        v as u32
    }
}

/// Whether a mode may serve as an alterable data destination (registers
/// excepted where the instruction demands memory).
fn is_data_alterable(mode: AddressingMode) -> (r: bool)
    ensures
        r == (mode.spec_is_writable() && !(mode is AddressDirect)),
{
    match mode {
        AddressingMode::AddressDirect(_) => false,
        AddressingMode::PcRelativeDisplacement
        | AddressingMode::PcRelativeIndexed
        | AddressingMode::Immediate
        | AddressingMode::Quick(_) => false,
        _ => true,
    }
}

/// The effective-address field (bits 0-5) of an opcode.
pub open spec fn spec_parse_ea(opcode: u16) -> Option<AddressingMode> {
    AddressingMode::spec_parse(((opcode >> 3) & 0x7) as u8, (opcode & 0x7) as u8)
}

/// Whether a mode may serve as an alterable data destination.
pub open spec fn spec_data_alterable(mode: AddressingMode) -> bool {
    mode.spec_is_writable() && !(mode is AddressDirect)
}

/// Decode the effective-address field (bits 0-5) of an opcode.
fn parse_ea(opcode: u16) -> (r: Option<AddressingMode>)
    ensures
        r == spec_parse_ea(opcode),
        r matches Some(m) ==> m.spec_wf(),
{
    proof {
        crate::bits::lemma_and_bound_u16(opcode >> 3, 0x7);
        crate::bits::lemma_and_bound_u16(opcode, 0x7);
    }
    AddressingMode::parse(((opcode >> 3) & 0x7) as u8, (opcode & 0x7) as u8)
}

/// ORI / ORI to CCR / ORI to SR.
fn decode_ori(opcode: u16, supervisor_mode: bool) -> (r: ExecuteResult<Instruction>)
    ensures
        r == spec_decode_ori(opcode, supervisor_mode),
        r matches Ok(i) ==> spec_instruction_wf(i),
        r matches Ok(i) && spec_is_privileged(i) ==> supervisor_mode,
{
    if opcode == 0x003C {
        return Result::Ok(Instruction::OrToCcr);
    }
    if opcode == 0x007C {
        if !supervisor_mode {
            return Result::Err(Exception::PrivilegeViolation);
        }
        return Result::Ok(Instruction::OrToSr);
    }
    decode_immediate_op(opcode, 0)
}

/// ANDI / ANDI to CCR / ANDI to SR.
fn decode_andi(opcode: u16, supervisor_mode: bool) -> (r: ExecuteResult<Instruction>)
    ensures
        r == spec_decode_andi(opcode, supervisor_mode),
        r matches Ok(i) ==> spec_instruction_wf(i),
        r matches Ok(i) && spec_is_privileged(i) ==> supervisor_mode,
{
    if opcode == 0x023C {
        return Result::Ok(Instruction::AndToCcr);
    }
    if opcode == 0x027C {
        if !supervisor_mode {
            return Result::Err(Exception::PrivilegeViolation);
        }
        return Result::Ok(Instruction::AndToSr);
    }
    decode_immediate_op(opcode, 1)
}

/// EORI / EORI to CCR / EORI to SR.
fn decode_eori(opcode: u16, supervisor_mode: bool) -> (r: ExecuteResult<Instruction>)
    ensures
        r == spec_decode_eori(opcode, supervisor_mode),
        r matches Ok(i) ==> spec_instruction_wf(i),
        r matches Ok(i) && spec_is_privileged(i) ==> supervisor_mode,
{
    if opcode == 0x0A3C {
        return Result::Ok(Instruction::ExclusiveOrToCcr);
    }
    if opcode == 0x0A7C {
        if !supervisor_mode {
            return Result::Err(Exception::PrivilegeViolation);
        }
        return Result::Ok(Instruction::ExclusiveOrToSr);
    }
    decode_immediate_op(opcode, 2)
}

/// ADDI.
fn decode_addi(opcode: u16) -> (r: ExecuteResult<Instruction>)
    ensures
        r == spec_decode_immediate_op(opcode, 3),
        r matches Ok(i) ==> spec_instruction_wf(i) && !spec_is_privileged(i),
{
    decode_immediate_op(opcode, 3)
}

/// The shared shape of the immediate ALU operations: a size field and a
/// data-alterable destination. `op` selects OR/AND/EOR/ADD.
fn decode_immediate_op(opcode: u16, op: u8) -> (r: ExecuteResult<Instruction>)
    ensures
        r == spec_decode_immediate_op(opcode, op),
        r matches Ok(i) ==> spec_instruction_wf(i) && !spec_is_privileged(i),
{
    let size = match OpSize::parse_from_opcode(opcode) {
        Option::Some(size) => size,
        Option::None => {
            return Result::Err(Exception::IllegalInstruction(opcode));
        }
    };
    let dest = match parse_ea(opcode) {
        Option::Some(dest) => dest,
        Option::None => {
            return Result::Err(Exception::IllegalInstruction(opcode));
        }
    };
    if !is_data_alterable(dest) {
        return Result::Err(Exception::IllegalInstruction(opcode));
    }
    let source = AddressingMode::Immediate;
    Result::Ok(
        if op == 0 {
            Instruction::Or { size, source, dest }
        } else if op == 1 {
            Instruction::And { size, source, dest }
        } else if op == 2 {
            Instruction::ExclusiveOr { size, source, dest }
        } else {
            Instruction::Add { size, source, dest }
        },
    )
}

/// MOVE / MOVEA: size in bits 12-13, destination in bits 6-11 with the
/// mode and register fields swapped.
fn decode_move(opcode: u16) -> (r: ExecuteResult<Instruction>)
    ensures
        r == spec_decode_move(opcode),
        r matches Ok(i) ==> spec_instruction_wf(i) && !spec_is_privileged(i),
{
    let size = match (opcode >> 12) & 0x3 {
        1 => OpSize::Byte,
        3 => OpSize::Word,
        _ => OpSize::LongWord,
    };
    let source = match parse_ea(opcode) {
        Option::Some(source) => source,
        Option::None => {
            return Result::Err(Exception::IllegalInstruction(opcode));
        }
    };
    proof {
        crate::bits::lemma_and_bound_u16(opcode >> 6, 0x7);
        crate::bits::lemma_and_bound_u16(opcode >> 9, 0x7);
    }
    let dest = match AddressingMode::parse(
        ((opcode >> 6) & 0x7) as u8,
        ((opcode >> 9) & 0x7) as u8,
    ) {
        Option::Some(dest) => dest,
        Option::None => {
            return Result::Err(Exception::IllegalInstruction(opcode));
        }
    };
    let dest_ok = match dest {
        AddressingMode::AddressDirect(_) => size != OpSize::Byte,
        _ => is_data_alterable(dest),
    };
    if !dest_ok {
        return Result::Err(Exception::IllegalInstruction(opcode));
    }
    if matches!(source, AddressingMode::AddressDirect(_)) && size == OpSize::Byte {
        return Result::Err(Exception::IllegalInstruction(opcode));
    }
    Result::Ok(Instruction::Move { size, source, dest })
}

/// MOVE from SR.
fn decode_move_from_sr(opcode: u16) -> (r: ExecuteResult<Instruction>)
    ensures
        r == spec_decode_move_from_sr(opcode),
        r matches Ok(i) ==> spec_instruction_wf(i) && !spec_is_privileged(i),
{
    let dest = match parse_ea(opcode) {
        Option::Some(dest) => dest,
        Option::None => {
            return Result::Err(Exception::IllegalInstruction(opcode));
        }
    };
    if !is_data_alterable(dest) {
        return Result::Err(Exception::IllegalInstruction(opcode));
    }
    Result::Ok(Instruction::MoveFromSr(dest))
}

/// MOVE to CCR.
fn decode_move_to_ccr(opcode: u16) -> (r: ExecuteResult<Instruction>)
    ensures
        r == spec_decode_move_to_ccr(opcode),
        r matches Ok(i) ==> spec_instruction_wf(i) && !spec_is_privileged(i),
{
    let source = match parse_ea(opcode) {
        Option::Some(source) => source,
        Option::None => {
            return Result::Err(Exception::IllegalInstruction(opcode));
        }
    };
    if matches!(source, AddressingMode::AddressDirect(_)) {
        return Result::Err(Exception::IllegalInstruction(opcode));
    }
    Result::Ok(Instruction::MoveToCcr(source))
}

/// MOVE to SR (privileged).
fn decode_move_to_sr(opcode: u16, supervisor_mode: bool) -> (r: ExecuteResult<Instruction>)
    ensures
        r == spec_decode_move_to_sr(opcode, supervisor_mode),
        r matches Ok(i) ==> spec_instruction_wf(i),
        r matches Ok(i) && spec_is_privileged(i) ==> supervisor_mode,
{
    if !supervisor_mode {
        return Result::Err(Exception::PrivilegeViolation);
    }
    let source = match parse_ea(opcode) {
        Option::Some(source) => source,
        Option::None => {
            return Result::Err(Exception::IllegalInstruction(opcode));
        }
    };
    if matches!(source, AddressingMode::AddressDirect(_)) {
        return Result::Err(Exception::IllegalInstruction(opcode));
    }
    Result::Ok(Instruction::MoveToSr(source))
}

/// MOVE USP (privileged).
fn decode_move_usp(opcode: u16, supervisor_mode: bool) -> (r: ExecuteResult<Instruction>)
    ensures
        r == spec_decode_move_usp(opcode, supervisor_mode),
        r matches Ok(i) ==> spec_instruction_wf(i),
        r matches Ok(i) && spec_is_privileged(i) ==> supervisor_mode,
{
    if !supervisor_mode {
        return Result::Err(Exception::PrivilegeViolation);
    }
    let direction = if crate::bits::bit16(opcode, 3) {
        UspDirection::UspToRegister
    } else {
        UspDirection::RegisterToUsp
    };
    proof {
        crate::bits::lemma_and_bound_u16(opcode, 0x7);
    }
    Result::Ok(Instruction::MoveUsp(direction, AddressRegister((opcode & 0x7) as u8)))
}

/// MOVEQ: an 8-bit signed constant into a data register.
fn decode_movq(opcode: u16) -> (r: ExecuteResult<Instruction>)
    ensures
        r == spec_decode_movq(opcode),
        r matches Ok(i) ==> spec_instruction_wf(i) && !spec_is_privileged(i),
{
    if crate::bits::bit16(opcode, 8) {
        return Result::Err(Exception::IllegalInstruction(opcode));
    }
    proof {
        crate::bits::lemma_and_bound_u16(opcode >> 9, 0x7);
    }
    let data = (opcode & 0xFF) as u8 as i8;
    Result::Ok(Instruction::MoveQuick(data, DataRegister(((opcode >> 9) & 0x7) as u8)))
}

/// ADDQ (SUBQ is not implemented and is classified explicitly).
fn decode_addq_subq(opcode: u16, size: OpSize) -> (r: ExecuteResult<Instruction>)
    ensures
        r == spec_decode_addq_subq(opcode, size),
        r matches Ok(i) ==> spec_instruction_wf(i) && !spec_is_privileged(i),
{
    if crate::bits::bit16(opcode, 8) {
        // SUBQ
        return Result::Err(Exception::Unimplemented(opcode));
    }
    let dest = match parse_ea(opcode) {
        Option::Some(dest) => dest,
        Option::None => {
            return Result::Err(Exception::IllegalInstruction(opcode));
        }
    };
    if !dest.spec_is_writable_exec() {
        return Result::Err(Exception::IllegalInstruction(opcode));
    }
    if matches!(dest, AddressingMode::AddressDirect(_)) && size == OpSize::Byte {
        return Result::Err(Exception::IllegalInstruction(opcode));
    }
    proof {
        crate::bits::lemma_and_bound_u16(opcode >> 9, 0x7);
    }
    let data = ((opcode >> 9) & 0x7) as u8;
    Result::Ok(Instruction::Add { size, source: AddressingMode::Quick(data), dest })
}

/// OR: a data register with an effective address, either direction.
fn decode_or(opcode: u16) -> (r: ExecuteResult<Instruction>)
    ensures
        r == spec_decode_dreg_ea_op(opcode, 0),
        r matches Ok(i) ==> spec_instruction_wf(i) && !spec_is_privileged(i),
{
    decode_dreg_ea_op(opcode, 0)
}

/// AND: a data register with an effective address, either direction.
fn decode_and(opcode: u16) -> (r: ExecuteResult<Instruction>)
    ensures
        r == spec_decode_dreg_ea_op(opcode, 1),
        r matches Ok(i) ==> spec_instruction_wf(i) && !spec_is_privileged(i),
{
    decode_dreg_ea_op(opcode, 1)
}

/// EOR: always data register into the effective address.
fn decode_eor(opcode: u16) -> (r: ExecuteResult<Instruction>)
    ensures
        r == spec_decode_eor(opcode),
        r matches Ok(i) ==> spec_instruction_wf(i) && !spec_is_privileged(i),
{
    let size = match OpSize::parse_from_opcode(opcode) {
        Option::Some(size) => size,
        Option::None => {
            return Result::Err(Exception::IllegalInstruction(opcode));
        }
    };
    let dest = match parse_ea(opcode) {
        Option::Some(dest) => dest,
        Option::None => {
            return Result::Err(Exception::IllegalInstruction(opcode));
        }
    };
    if !is_data_alterable(dest) {
        return Result::Err(Exception::IllegalInstruction(opcode));
    }
    proof {
        crate::bits::lemma_and_bound_u16(opcode >> 9, 0x7);
    }
    let register = DataRegister(((opcode >> 9) & 0x7) as u8);
    Result::Ok(Instruction::ExclusiveOr {
        size,
        source: AddressingMode::DataDirect(register),
        dest,
    })
}

/// ADD / ADDA.
fn decode_add(opcode: u16) -> (r: ExecuteResult<Instruction>)
    ensures
        r == spec_decode_add(opcode),
        r matches Ok(i) ==> spec_instruction_wf(i) && !spec_is_privileged(i),
{
    proof {
        crate::bits::lemma_and_bound_u16(opcode >> 9, 0x7);
    }
    let register = ((opcode >> 9) & 0x7) as u8;
    if opcode & 0xC0 == 0xC0 {
        // ADDA: word or long, any readable source
        let size = if crate::bits::bit16(opcode, 8) {
            OpSize::LongWord
        } else {
            OpSize::Word
        };
        let source = match parse_ea(opcode) {
            Option::Some(source) => source,
            Option::None => {
                return Result::Err(Exception::IllegalInstruction(opcode));
            }
        };
        return Result::Ok(Instruction::Add {
            size,
            source,
            dest: AddressingMode::AddressDirect(AddressRegister(register)),
        });
    }
    let size = match OpSize::parse_from_opcode(opcode) {
        Option::Some(size) => size,
        Option::None => {
            return Result::Err(Exception::IllegalInstruction(opcode));
        }
    };
    let ea = match parse_ea(opcode) {
        Option::Some(ea) => ea,
        Option::None => {
            return Result::Err(Exception::IllegalInstruction(opcode));
        }
    };
    if crate::bits::bit16(opcode, 8) {
        // ADD <Dn>, <ea>
        if !is_data_alterable(ea) || matches!(ea, AddressingMode::DataDirect(_)) {
            return Result::Err(Exception::IllegalInstruction(opcode));
        }
        Result::Ok(Instruction::Add {
            size,
            source: AddressingMode::DataDirect(DataRegister(register)),
            dest: ea,
        })
    } else {
        // ADD <ea>, <Dn>
        if matches!(ea, AddressingMode::AddressDirect(_)) && size == OpSize::Byte {
            return Result::Err(Exception::IllegalInstruction(opcode));
        }
        Result::Ok(Instruction::Add {
            size,
            source: ea,
            dest: AddressingMode::DataDirect(DataRegister(register)),
        })
    }
}

/// ADDX: data registers or predecremented memory pairs.
fn decode_addx(opcode: u16) -> (r: ExecuteResult<Instruction>)
    ensures
        r == spec_decode_addx(opcode),
        r matches Ok(i) ==> spec_instruction_wf(i) && !spec_is_privileged(i),
{
    let size = match OpSize::parse_from_opcode(opcode) {
        Option::Some(size) => size,
        Option::None => {
            return Result::Err(Exception::IllegalInstruction(opcode));
        }
    };
    proof {
        crate::bits::lemma_and_bound_u16(opcode >> 9, 0x7);
        crate::bits::lemma_and_bound_u16(opcode, 0x7);
    }
    let rx = (opcode & 0x7) as u8;
    let ry = ((opcode >> 9) & 0x7) as u8;
    match ExtendOpMode::parse_from_opcode(opcode) {
        ExtendOpMode::DataDirect => Result::Ok(Instruction::AddExtend {
            size,
            source: AddressingMode::DataDirect(DataRegister(rx)),
            dest: AddressingMode::DataDirect(DataRegister(ry)),
        }),
        ExtendOpMode::AddressIndirectPredecrement => Result::Ok(Instruction::AddExtend {
            size,
            source: AddressingMode::AddressIndirectPredecrement(AddressRegister(rx)),
            dest: AddressingMode::AddressIndirectPredecrement(AddressRegister(ry)),
        }),
    }
}

/// The shared shape of OR and AND: direction bit 8, size bits 6-7.
fn decode_dreg_ea_op(opcode: u16, op: u8) -> (r: ExecuteResult<Instruction>)
    ensures
        r == spec_decode_dreg_ea_op(opcode, op),
        r matches Ok(i) ==> spec_instruction_wf(i) && !spec_is_privileged(i),
{
    let size = match OpSize::parse_from_opcode(opcode) {
        Option::Some(size) => size,
        Option::None => {
            return Result::Err(Exception::IllegalInstruction(opcode));
        }
    };
    let ea = match parse_ea(opcode) {
        Option::Some(ea) => ea,
        Option::None => {
            return Result::Err(Exception::IllegalInstruction(opcode));
        }
    };
    proof {
        crate::bits::lemma_and_bound_u16(opcode >> 9, 0x7);
    }
    let register = AddressingMode::DataDirect(DataRegister(((opcode >> 9) & 0x7) as u8));
    if crate::bits::bit16(opcode, 8) {
        // <Dn> op <ea> -> <ea>: memory-alterable only
        if !is_data_alterable(ea) || matches!(ea, AddressingMode::DataDirect(_)) {
            return Result::Err(Exception::IllegalInstruction(opcode));
        }
        Result::Ok(
            if op == 0 {
                Instruction::Or { size, source: register, dest: ea }
            } else {
                Instruction::And { size, source: register, dest: ea }
            },
        )
    } else {
        // <ea> op <Dn> -> <Dn>: address registers are not data sources
        if matches!(ea, AddressingMode::AddressDirect(_)) {
            return Result::Err(Exception::IllegalInstruction(opcode));
        }
        Result::Ok(
            if op == 0 {
                Instruction::Or { size, source: ea, dest: register }
            } else {
                Instruction::And { size, source: ea, dest: register }
            },
        )
    }
}

impl AddressingMode {
    /// Executable form of [`AddressingMode::spec_is_writable`].
    pub fn spec_is_writable_exec(self) -> (r: bool)
        ensures
            r == self.spec_is_writable(),
    {
        match self {
            AddressingMode::PcRelativeDisplacement
            | AddressingMode::PcRelativeIndexed
            | AddressingMode::Immediate
            | AddressingMode::Quick(_) => false,
            _ => true,
        }
    }
}

/// The shared shape of the immediate ALU operations, as a pure mapping.
pub open spec fn spec_decode_immediate_op(opcode: u16, op: u8) -> ExecuteResult<Instruction> {
    match OpSize::spec_parse_from_opcode(opcode) {
        Option::None => Result::Err(Exception::IllegalInstruction(opcode)),
        Option::Some(size) => match spec_parse_ea(opcode) {
            Option::None => Result::Err(Exception::IllegalInstruction(opcode)),
            Option::Some(dest) => if !spec_data_alterable(dest) {
                Result::Err(Exception::IllegalInstruction(opcode))
            } else if op == 0 {
                Result::Ok(Instruction::Or { size, source: AddressingMode::Immediate, dest })
            } else if op == 1 {
                Result::Ok(Instruction::And { size, source: AddressingMode::Immediate, dest })
            } else if op == 2 {
                Result::Ok(
                    Instruction::ExclusiveOr { size, source: AddressingMode::Immediate, dest },
                )
            } else {
                Result::Ok(Instruction::Add { size, source: AddressingMode::Immediate, dest })
            },
        },
    }
}

/// ORI / ORI to CCR / ORI to SR, as a pure mapping.
pub open spec fn spec_decode_ori(opcode: u16, supervisor_mode: bool) -> ExecuteResult<Instruction> {
    if opcode == 0x003C {
        Result::Ok(Instruction::OrToCcr)
    } else if opcode == 0x007C {
        if !supervisor_mode {
            Result::Err(Exception::PrivilegeViolation)
        } else {
            Result::Ok(Instruction::OrToSr)
        }
    } else {
        spec_decode_immediate_op(opcode, 0)
    }
}

/// ANDI / ANDI to CCR / ANDI to SR, as a pure mapping.
pub open spec fn spec_decode_andi(opcode: u16, supervisor_mode: bool) -> ExecuteResult<
    Instruction,
> {
    if opcode == 0x023C {
        Result::Ok(Instruction::AndToCcr)
    } else if opcode == 0x027C {
        if !supervisor_mode {
            Result::Err(Exception::PrivilegeViolation)
        } else {
            Result::Ok(Instruction::AndToSr)
        }
    } else {
        spec_decode_immediate_op(opcode, 1)
    }
}

/// EORI / EORI to CCR / EORI to SR, as a pure mapping.
pub open spec fn spec_decode_eori(opcode: u16, supervisor_mode: bool) -> ExecuteResult<
    Instruction,
> {
    if opcode == 0x0A3C {
        Result::Ok(Instruction::ExclusiveOrToCcr)
    } else if opcode == 0x0A7C {
        if !supervisor_mode {
            Result::Err(Exception::PrivilegeViolation)
        } else {
            Result::Ok(Instruction::ExclusiveOrToSr)
        }
    } else {
        spec_decode_immediate_op(opcode, 2)
    }
}

/// MOVE / MOVEA, as a pure mapping: size in bits 12-13, destination in
/// bits 6-11 with the mode and register fields swapped.
pub open spec fn spec_decode_move(opcode: u16) -> ExecuteResult<Instruction> {
    let size = if (opcode >> 12) & 0x3 == 1 {
        OpSize::Byte
    } else if (opcode >> 12) & 0x3 == 3 {
        OpSize::Word
    } else {
        OpSize::LongWord
    };
    match spec_parse_ea(opcode) {
        Option::None => Result::Err(Exception::IllegalInstruction(opcode)),
        Option::Some(source) => match AddressingMode::spec_parse(
            ((opcode >> 6) & 0x7) as u8,
            ((opcode >> 9) & 0x7) as u8,
        ) {
            Option::None => Result::Err(Exception::IllegalInstruction(opcode)),
            Option::Some(dest) => {
                let dest_ok = if dest is AddressDirect {
                    size != OpSize::Byte
                } else {
                    spec_data_alterable(dest)
                };
                if !dest_ok {
                    Result::Err(Exception::IllegalInstruction(opcode))
                } else if source is AddressDirect && size == OpSize::Byte {
                    Result::Err(Exception::IllegalInstruction(opcode))
                } else {
                    Result::Ok(Instruction::Move { size, source, dest })
                }
            },
        },
    }
}

/// MOVE from SR, as a pure mapping.
pub open spec fn spec_decode_move_from_sr(opcode: u16) -> ExecuteResult<Instruction> {
    match spec_parse_ea(opcode) {
        Option::None => Result::Err(Exception::IllegalInstruction(opcode)),
        Option::Some(dest) => if !spec_data_alterable(dest) {
            Result::Err(Exception::IllegalInstruction(opcode))
        } else {
            Result::Ok(Instruction::MoveFromSr(dest))
        },
    }
}

/// MOVE to CCR, as a pure mapping.
pub open spec fn spec_decode_move_to_ccr(opcode: u16) -> ExecuteResult<Instruction> {
    match spec_parse_ea(opcode) {
        Option::None => Result::Err(Exception::IllegalInstruction(opcode)),
        Option::Some(source) => if source is AddressDirect {
            Result::Err(Exception::IllegalInstruction(opcode))
        } else {
            Result::Ok(Instruction::MoveToCcr(source))
        },
    }
}

/// MOVE to SR (privileged), as a pure mapping.
pub open spec fn spec_decode_move_to_sr(opcode: u16, supervisor_mode: bool) -> ExecuteResult<
    Instruction,
> {
    if !supervisor_mode {
        Result::Err(Exception::PrivilegeViolation)
    } else {
        match spec_parse_ea(opcode) {
            Option::None => Result::Err(Exception::IllegalInstruction(opcode)),
            Option::Some(source) => if source is AddressDirect {
                Result::Err(Exception::IllegalInstruction(opcode))
            } else {
                Result::Ok(Instruction::MoveToSr(source))
            },
        }
    }
}

/// MOVE USP (privileged), as a pure mapping.
pub open spec fn spec_decode_move_usp(opcode: u16, supervisor_mode: bool) -> ExecuteResult<
    Instruction,
> {
    if !supervisor_mode {
        Result::Err(Exception::PrivilegeViolation)
    } else {
        Result::Ok(Instruction::MoveUsp(
            if spec_bit16(opcode, 3) {
                UspDirection::UspToRegister
            } else {
                UspDirection::RegisterToUsp
            },
            AddressRegister((opcode & 0x7) as u8),
        ))
    }
}

/// MOVEQ, as a pure mapping.
pub open spec fn spec_decode_movq(opcode: u16) -> ExecuteResult<Instruction> {
    if spec_bit16(opcode, 8) {
        Result::Err(Exception::IllegalInstruction(opcode))
    } else {
        Result::Ok(Instruction::MoveQuick(
            (opcode & 0xFF) as u8 as i8,
            DataRegister(((opcode >> 9) & 0x7) as u8),
        ))
    }
}

/// ADDQ (SUBQ classified unimplemented), as a pure mapping.
pub open spec fn spec_decode_addq_subq(opcode: u16, size: OpSize) -> ExecuteResult<Instruction> {
    if spec_bit16(opcode, 8) {
        Result::Err(Exception::Unimplemented(opcode))
    } else {
        match spec_parse_ea(opcode) {
            Option::None => Result::Err(Exception::IllegalInstruction(opcode)),
            Option::Some(dest) => if !dest.spec_is_writable() {
                Result::Err(Exception::IllegalInstruction(opcode))
            } else if dest is AddressDirect && size == OpSize::Byte {
                Result::Err(Exception::IllegalInstruction(opcode))
            } else {
                Result::Ok(Instruction::Add {
                    size,
                    source: AddressingMode::Quick(((opcode >> 9) & 0x7) as u8),
                    dest,
                })
            },
        }
    }
}

/// The shared shape of OR and AND, as a pure mapping: direction bit 8,
/// size bits 6-7.
pub open spec fn spec_decode_dreg_ea_op(opcode: u16, op: u8) -> ExecuteResult<Instruction> {
    match OpSize::spec_parse_from_opcode(opcode) {
        Option::None => Result::Err(Exception::IllegalInstruction(opcode)),
        Option::Some(size) => match spec_parse_ea(opcode) {
            Option::None => Result::Err(Exception::IllegalInstruction(opcode)),
            Option::Some(ea) => {
                let register = AddressingMode::DataDirect(
                    DataRegister(((opcode >> 9) & 0x7) as u8),
                );
                if spec_bit16(opcode, 8) {
                    if !spec_data_alterable(ea) || ea is DataDirect {
                        Result::Err(Exception::IllegalInstruction(opcode))
                    } else if op == 0 {
                        Result::Ok(Instruction::Or { size, source: register, dest: ea })
                    } else {
                        Result::Ok(Instruction::And { size, source: register, dest: ea })
                    }
                } else {
                    if ea is AddressDirect {
                        Result::Err(Exception::IllegalInstruction(opcode))
                    } else if op == 0 {
                        Result::Ok(Instruction::Or { size, source: ea, dest: register })
                    } else {
                        Result::Ok(Instruction::And { size, source: ea, dest: register })
                    }
                }
            },
        },
    }
}

/// EOR, as a pure mapping: always data register into the effective address.
pub open spec fn spec_decode_eor(opcode: u16) -> ExecuteResult<Instruction> {
    match OpSize::spec_parse_from_opcode(opcode) {
        Option::None => Result::Err(Exception::IllegalInstruction(opcode)),
        Option::Some(size) => match spec_parse_ea(opcode) {
            Option::None => Result::Err(Exception::IllegalInstruction(opcode)),
            Option::Some(dest) => if !spec_data_alterable(dest) {
                Result::Err(Exception::IllegalInstruction(opcode))
            } else {
                Result::Ok(Instruction::ExclusiveOr {
                    size,
                    source: AddressingMode::DataDirect(
                        DataRegister(((opcode >> 9) & 0x7) as u8),
                    ),
                    dest,
                })
            },
        },
    }
}

/// ADD / ADDA, as a pure mapping.
pub open spec fn spec_decode_add(opcode: u16) -> ExecuteResult<Instruction> {
    let register = ((opcode >> 9) & 0x7) as u8;
    if opcode & 0xC0 == 0xC0 {
        let size = if spec_bit16(opcode, 8) {
            OpSize::LongWord
        } else {
            OpSize::Word
        };
        match spec_parse_ea(opcode) {
            Option::None => Result::Err(Exception::IllegalInstruction(opcode)),
            Option::Some(source) => Result::Ok(Instruction::Add {
                size,
                source,
                dest: AddressingMode::AddressDirect(AddressRegister(register)),
            }),
        }
    } else {
        match OpSize::spec_parse_from_opcode(opcode) {
            Option::None => Result::Err(Exception::IllegalInstruction(opcode)),
            Option::Some(size) => match spec_parse_ea(opcode) {
                Option::None => Result::Err(Exception::IllegalInstruction(opcode)),
                Option::Some(ea) => if spec_bit16(opcode, 8) {
                    if !spec_data_alterable(ea) || ea is DataDirect {
                        Result::Err(Exception::IllegalInstruction(opcode))
                    } else {
                        Result::Ok(Instruction::Add {
                            size,
                            source: AddressingMode::DataDirect(DataRegister(register)),
                            dest: ea,
                        })
                    }
                } else {
                    if ea is AddressDirect && size == OpSize::Byte {
                        Result::Err(Exception::IllegalInstruction(opcode))
                    } else {
                        Result::Ok(Instruction::Add {
                            size,
                            source: ea,
                            dest: AddressingMode::DataDirect(DataRegister(register)),
                        })
                    }
                },
            },
        }
    }
}

/// ADDX, as a pure mapping: data registers or predecremented memory pairs.
pub open spec fn spec_decode_addx(opcode: u16) -> ExecuteResult<Instruction> {
    match OpSize::spec_parse_from_opcode(opcode) {
        Option::None => Result::Err(Exception::IllegalInstruction(opcode)),
        Option::Some(size) => {
            let rx = (opcode & 0x7) as u8;
            let ry = ((opcode >> 9) & 0x7) as u8;
            if spec_bit16(opcode, 3) {
                Result::Ok(Instruction::AddExtend {
                    size,
                    source: AddressingMode::AddressIndirectPredecrement(AddressRegister(rx)),
                    dest: AddressingMode::AddressIndirectPredecrement(AddressRegister(ry)),
                })
            } else {
                Result::Ok(Instruction::AddExtend {
                    size,
                    source: AddressingMode::DataDirect(DataRegister(rx)),
                    dest: AddressingMode::DataDirect(DataRegister(ry)),
                })
            }
        },
    }
}

/// The whole opcode→instruction mapping as a pure, total function of the
/// opcode word and the supervisor bit: coarse dispatch on the top four
/// bits, then the per-family sub-decoders.
pub open spec fn spec_decode_opcode(opcode: u16, supervisor_mode: bool) -> ExecuteResult<
    Instruction,
> {
    let group = opcode & 0xF000;
    if group == 0x0000 {
        let sub = opcode & 0x0F00;
        if sub == 0x0000 {
            spec_decode_ori(opcode, supervisor_mode)
        } else if sub == 0x0200 {
            spec_decode_andi(opcode, supervisor_mode)
        } else if sub == 0x0400 {
            Result::Err(Exception::Unimplemented(opcode))
        } else if sub == 0x0600 {
            spec_decode_immediate_op(opcode, 3)
        } else if sub == 0x0A00 {
            spec_decode_eori(opcode, supervisor_mode)
        } else if sub == 0x0C00 {
            Result::Err(Exception::Unimplemented(opcode))
        } else if sub == 0x0800 {
            Result::Err(Exception::Unimplemented(opcode))
        } else if spec_bit16(opcode, 8) {
            Result::Err(Exception::Unimplemented(opcode))
        } else {
            Result::Err(Exception::IllegalInstruction(opcode))
        }
    } else if group == 0x1000 || group == 0x2000 || group == 0x3000 {
        spec_decode_move(opcode)
    } else if group == 0x4000 {
        let sub = opcode & 0x0FC0;
        if sub == 0x00C0 {
            spec_decode_move_from_sr(opcode)
        } else if sub == 0x04C0 {
            spec_decode_move_to_ccr(opcode)
        } else if sub == 0x06C0 {
            spec_decode_move_to_sr(opcode, supervisor_mode)
        } else if sub == 0x0E40 {
            let low = opcode & 0x3F;
            if low == 0x30 || low == 0x31 || low == 0x32 {
                Result::Err(Exception::Unimplemented(opcode))
            } else {
                let mode = opcode & 0x38;
                if mode == 0x00 || mode == 0x08 {
                    Result::Err(Exception::Unimplemented(opcode))
                } else if mode == 0x10 || mode == 0x18 {
                    Result::Err(Exception::Unimplemented(opcode))
                } else if mode == 0x20 || mode == 0x28 {
                    spec_decode_move_usp(opcode, supervisor_mode)
                } else {
                    Result::Err(Exception::IllegalInstruction(opcode))
                }
            }
        } else {
            Result::Err(Exception::Unimplemented(opcode))
        }
    } else if group == 0x5000 {
        match OpSize::spec_parse_from_opcode(opcode) {
            Option::Some(size) => spec_decode_addq_subq(opcode, size),
            Option::None => Result::Err(Exception::Unimplemented(opcode)),
        }
    } else if group == 0x6000 {
        Result::Err(Exception::Unimplemented(opcode))
    } else if group == 0x7000 {
        spec_decode_movq(opcode)
    } else if group == 0x8000 {
        if opcode & 0x01F0 == 0x0100 {
            Result::Err(Exception::Unimplemented(opcode))
        } else if opcode & 0x01C0 == 0x00C0 || opcode & 0x01C0 == 0x01C0 {
            Result::Err(Exception::Unimplemented(opcode))
        } else {
            spec_decode_dreg_ea_op(opcode, 0)
        }
    } else if group == 0x9000 {
        Result::Err(Exception::Unimplemented(opcode))
    } else if group == 0xB000 {
        if opcode & 0x00C0 == 0x00C0 {
            Result::Err(Exception::Unimplemented(opcode))
        } else if spec_bit16(opcode, 8) {
            if opcode & 0x38 == 0x08 {
                Result::Err(Exception::Unimplemented(opcode))
            } else {
                spec_decode_eor(opcode)
            }
        } else {
            Result::Err(Exception::Unimplemented(opcode))
        }
    } else if group == 0xC000 {
        spec_decode_dreg_ea_op(opcode, 1)
    } else if group == 0xD000 {
        let sub = opcode & 0x01F0;
        if sub == 0x0100 || sub == 0x0140 || sub == 0x0180 {
            spec_decode_addx(opcode)
        } else {
            spec_decode_add(opcode)
        }
    } else if group == 0xE000 {
        Result::Err(Exception::Unimplemented(opcode))
    } else {
        Result::Err(Exception::IllegalInstruction(opcode))
    }
}

/// Decode one opcode word: exactly the mapping [`spec_decode_opcode`]
/// states. Total: every opcode maps to exactly one instruction, an
/// illegal-instruction or privilege exception, or an explicit
/// unimplemented classification.
pub fn decode_opcode(opcode: u16, supervisor_mode: bool) -> (r: ExecuteResult<Instruction>)
    ensures
        r == spec_decode_opcode(opcode, supervisor_mode),
        r matches Ok(i) ==> spec_instruction_wf(i),
        r matches Ok(i) && spec_is_privileged(i) ==> supervisor_mode,
{
    let group = opcode & 0xF000;
    if group == 0x0000 {
        let sub = opcode & 0x0F00;
        if sub == 0x0000 {
            decode_ori(opcode, supervisor_mode)
        } else if sub == 0x0200 {
            decode_andi(opcode, supervisor_mode)
        } else if sub == 0x0400 {
            // SUBI
            Result::Err(Exception::Unimplemented(opcode))
        } else if sub == 0x0600 {
            decode_addi(opcode)
        } else if sub == 0x0A00 {
            decode_eori(opcode, supervisor_mode)
        } else if sub == 0x0C00 {
            // CMPI
            Result::Err(Exception::Unimplemented(opcode))
        } else if sub == 0x0800 {
            // BTST / BCHG / BCLR / BSET (immediate)
            Result::Err(Exception::Unimplemented(opcode))
        } else if crate::bits::bit16(opcode, 8) {
            // BTST / BCHG / BCLR / BSET (data register)
            Result::Err(Exception::Unimplemented(opcode))
        } else {
            Result::Err(Exception::IllegalInstruction(opcode))
        }
    } else if group == 0x1000 || group == 0x2000 || group == 0x3000 {
        decode_move(opcode)
    } else if group == 0x4000 {
        let sub = opcode & 0x0FC0;
        if sub == 0x00C0 {
            decode_move_from_sr(opcode)
        } else if sub == 0x04C0 {
            decode_move_to_ccr(opcode)
        } else if sub == 0x06C0 {
            decode_move_to_sr(opcode, supervisor_mode)
        } else if sub == 0x0E40 {
            let low = opcode & 0x3F;
            if low == 0x30 || low == 0x31 || low == 0x32 {
                // RESET / NOP / STOP
                Result::Err(Exception::Unimplemented(opcode))
            } else {
                let mode = opcode & 0x38;
                if mode == 0x00 || mode == 0x08 {
                    // TRAP
                    Result::Err(Exception::Unimplemented(opcode))
                } else if mode == 0x10 || mode == 0x18 {
                    // LINK / UNLK
                    Result::Err(Exception::Unimplemented(opcode))
                } else if mode == 0x20 || mode == 0x28 {
                    decode_move_usp(opcode, supervisor_mode)
                } else {
                    Result::Err(Exception::IllegalInstruction(opcode))
                }
            }
        } else {
            // NEGX / CLR / NEG / NOT / EXT / MOVEM / NBCD / SWAP / PEA /
            // ILLEGAL / TAS / TST / JSR / JMP / LEA / CHK
            Result::Err(Exception::Unimplemented(opcode))
        }
    } else if group == 0x5000 {
        match OpSize::parse_from_opcode(opcode) {
            Option::Some(size) => decode_addq_subq(opcode, size),
            // Scc / DBcc
            Option::None => Result::Err(Exception::Unimplemented(opcode)),
        }
    } else if group == 0x6000 {
        // BRA / BSR / Bcc
        Result::Err(Exception::Unimplemented(opcode))
    } else if group == 0x7000 {
        decode_movq(opcode)
    } else if group == 0x8000 {
        if opcode & 0x01F0 == 0x0100 {
            // SBCD
            Result::Err(Exception::Unimplemented(opcode))
        } else if opcode & 0x01C0 == 0x00C0 || opcode & 0x01C0 == 0x01C0 {
            // DIVU / DIVS
            Result::Err(Exception::Unimplemented(opcode))
        } else {
            decode_or(opcode)
        }
    } else if group == 0x9000 {
        // SUB / SUBX / SUBA
        Result::Err(Exception::Unimplemented(opcode))
    } else if group == 0xB000 {
        if opcode & 0x00C0 == 0x00C0 {
            // CMPA
            Result::Err(Exception::Unimplemented(opcode))
        } else if crate::bits::bit16(opcode, 8) {
            if opcode & 0x38 == 0x08 {
                // CMPM
                Result::Err(Exception::Unimplemented(opcode))
            } else {
                decode_eor(opcode)
            }
        } else {
            // CMP
            Result::Err(Exception::Unimplemented(opcode))
        }
    } else if group == 0xC000 {
        // AND (MULU / MULS / ABCD / EXG share the group and are
        // classified by decode_and's validity checks or left out)
        decode_and(opcode)
    } else if group == 0xD000 {
        let sub = opcode & 0x01F0;
        if sub == 0x0100 || sub == 0x0140 || sub == 0x0180 {
            decode_addx(opcode)
        } else {
            decode_add(opcode)
        }
    } else if group == 0xE000 {
        // ASd / LSd / ROXd / ROd
        Result::Err(Exception::Unimplemented(opcode))
    } else {
        // Group $A000 (and anything else): unassigned
        Result::Err(Exception::IllegalInstruction(opcode))
    }
}

/// Keep the low `size` part of a value.
fn mask_sized(size: OpSize, v: u32) -> (r: u32)
    ensures
        r == v as int % spec_modulus(size),
        r < spec_modulus(size),
{
    match size {
        OpSize::Byte => v % 0x100,
        OpSize::Word => v % 0x10000,
        OpSize::LongWord => v,
    }
}

/// Replace the low `size` part of a register with a sized result.
fn merge_sized(size: OpSize, full: u32, sized: u32) -> (r: u32)
    requires
        sized < spec_modulus(size),
    ensures
        r == spec_merge(size, full, sized as int),
{
    match size {
        OpSize::Byte => (full - (full % 0x100)) + sized,
        OpSize::Word => (full - (full % 0x10000)) + sized,
        OpSize::LongWord => sized,
    }
}

/// Whether the sized value's sign bit is set.
fn sign_of(size: OpSize, v: u32) -> (r: bool)
    requires
        v < spec_modulus(size),
    ensures
        r == spec_sign(size, v as int),
{
    match size {
        OpSize::Byte => v >= 0x80,
        OpSize::Word => v >= 0x8000,
        OpSize::LongWord => v >= 0x8000_0000,
    }
}

/// How far a postincrement or predecrement steps: the operand size in
/// bytes, except that a byte step on the stack pointer keeps it
/// word-aligned.
pub open spec fn spec_ea_step(size: OpSize, register: u8) -> u32 {
    if size == OpSize::Byte && register & 0x7 == 7 {
        2
    } else {
        match size {
            OpSize::Byte => 1,
            OpSize::Word => 2,
            OpSize::LongWord => 4,
        }
    }
}

/// The index portion of a brief extension word: a data or address register
/// chosen by bits 12-15, sign-extended from a word unless the long bit
/// (11) is set.
pub open spec fn spec_index_value(regs: Registers, ext: u16) -> u32 {
    let full = if spec_bit16(ext, 15) {
        spec_address_reg(regs, ((ext >> 12) & 0x7) as u8)
    } else {
        regs.d[((ext >> 12) & 0x7) as int]
    };
    if spec_bit16(ext, 11) {
        full
    } else {
        spec_sign_extend_16((full % 0x10000) as u16)
    }
}

/// How resolving an effective address changes the register file and the
/// bus trace, and which address it denotes: extension words are fetched at
/// PC, postincrement and predecrement step their register, and the
/// register, immediate, and quick modes (no memory operand) resolve to 0
/// with nothing changed.
pub open spec fn spec_resolve_effect(
    pre: Registers,
    post: Registers,
    pre_ops: Seq<BusOp>,
    post_ops: Seq<BusOp>,
    mode: AddressingMode,
    size: OpSize,
    addr: u32,
) -> bool {
    let n = pre_ops.len() as int;
    match mode {
        AddressingMode::AddressIndirect(register) => {
            &&& post == pre
            &&& post_ops == pre_ops
            &&& addr == spec_address_reg(pre, register.0)
        },
        AddressingMode::AddressIndirectPostincrement(register) => {
            &&& post_ops == pre_ops
            &&& addr == spec_address_reg(pre, register.0)
            &&& spec_set_address_ensures(
                pre,
                post,
                register.0,
                crate::bits::spec_wadd32(addr, spec_ea_step(size, register.0)),
            )
        },
        AddressingMode::AddressIndirectPredecrement(register) => {
            &&& post_ops == pre_ops
            &&& addr == crate::bits::spec_wsub32(
                spec_address_reg(pre, register.0),
                spec_ea_step(size, register.0),
            )
            &&& spec_set_address_ensures(pre, post, register.0, addr)
        },
        AddressingMode::AddressIndirectDisplacement(register) => {
            let ext = op_word(post_ops[n]);
            &&& post_ops == pre_ops.push(BusOp::ReadWord { address: pre.pc, value: ext })
            &&& addr == crate::bits::spec_wadd32(
                spec_address_reg(pre, register.0),
                spec_sign_extend_16(ext),
            )
            &&& post == (Registers { pc: crate::bits::spec_wadd32(pre.pc, 2), ..pre })
        },
        AddressingMode::AddressIndirectIndexed(register) => {
            let ext = op_word(post_ops[n]);
            &&& post_ops == pre_ops.push(BusOp::ReadWord { address: pre.pc, value: ext })
            &&& addr == crate::bits::spec_wadd32(
                crate::bits::spec_wadd32(
                    spec_address_reg(pre, register.0),
                    spec_sign_extend_8((ext % 0x100) as u8),
                ),
                spec_index_value(pre, ext),
            )
            &&& post == (Registers { pc: crate::bits::spec_wadd32(pre.pc, 2), ..pre })
        },
        AddressingMode::AbsoluteShort => {
            let ext = op_word(post_ops[n]);
            &&& post_ops == pre_ops.push(BusOp::ReadWord { address: pre.pc, value: ext })
            &&& addr == spec_sign_extend_16(ext)
            &&& post == (Registers { pc: crate::bits::spec_wadd32(pre.pc, 2), ..pre })
        },
        AddressingMode::AbsoluteLong => {
            let hi = op_word(post_ops[n]);
            let lo = op_word(post_ops[n + 1]);
            &&& post_ops == pre_ops
                .push(BusOp::ReadWord { address: pre.pc, value: hi })
                .push(BusOp::ReadWord {
                    address: crate::bits::spec_wadd32(pre.pc, 2),
                    value: lo,
                })
            &&& addr == hi * 0x10000 + lo
            &&& post == (Registers { pc: crate::bits::spec_wadd32(pre.pc, 4), ..pre })
        },
        AddressingMode::PcRelativeDisplacement => {
            let ext = op_word(post_ops[n]);
            &&& post_ops == pre_ops.push(BusOp::ReadWord { address: pre.pc, value: ext })
            &&& addr == crate::bits::spec_wadd32(pre.pc, spec_sign_extend_16(ext))
            &&& post == (Registers { pc: crate::bits::spec_wadd32(pre.pc, 2), ..pre })
        },
        AddressingMode::PcRelativeIndexed => {
            let ext = op_word(post_ops[n]);
            &&& post_ops == pre_ops.push(BusOp::ReadWord { address: pre.pc, value: ext })
            &&& addr == crate::bits::spec_wadd32(
                crate::bits::spec_wadd32(pre.pc, spec_sign_extend_8((ext % 0x100) as u8)),
                spec_index_value(pre, ext),
            )
            &&& post == (Registers { pc: crate::bits::spec_wadd32(pre.pc, 2), ..pre })
        },
        _ => {
            &&& post == pre
            &&& post_ops == pre_ops
            &&& addr == 0
        },
    }
}

/// A sized memory read appended to the trace: one byte or word read, or
/// two word reads high-then-low for a long word.
pub open spec fn spec_read_sized_effect(
    pre_ops: Seq<BusOp>,
    post_ops: Seq<BusOp>,
    address: u32,
    size: OpSize,
    r: u32,
) -> bool {
    let n = pre_ops.len() as int;
    match size {
        OpSize::Byte => {
            let v = op_byte(post_ops[n]);
            &&& post_ops == pre_ops.push(BusOp::ReadByte { address, value: v })
            &&& r == v
        },
        OpSize::Word => {
            let v = op_word(post_ops[n]);
            &&& post_ops == pre_ops.push(BusOp::ReadWord { address, value: v })
            &&& r == v
        },
        OpSize::LongWord => {
            let hi = op_word(post_ops[n]);
            let lo = op_word(post_ops[n + 1]);
            &&& post_ops == pre_ops
                .push(BusOp::ReadWord { address, value: hi })
                .push(BusOp::ReadWord {
                    address: crate::bits::spec_wadd32(address, 2),
                    value: lo,
                })
            &&& r == hi * 0x10000 + lo
        },
    }
}

/// A sized memory write appended to the trace: one byte or word write, or
/// two word writes high-then-low for a long word.
pub open spec fn spec_write_sized_effect(
    pre_ops: Seq<BusOp>,
    post_ops: Seq<BusOp>,
    address: u32,
    size: OpSize,
    value: u32,
) -> bool {
    match size {
        OpSize::Byte => post_ops == pre_ops.push(BusOp::WriteByte {
            address,
            value: value as u8,
        }),
        OpSize::Word => post_ops == pre_ops.push(BusOp::WriteWord {
            address,
            value: value as u16,
        }),
        OpSize::LongWord => post_ops == pre_ops
            .push(BusOp::WriteWord { address, value: (value / 0x10000) as u16 })
            .push(BusOp::WriteWord {
                address: crate::bits::spec_wadd32(address, 2),
                value: (value % 0x10000) as u16,
            }),
    }
}

/// Fetching a sized immediate operand at PC: always whole words; a byte
/// immediate occupies the low half of one extension word.
pub open spec fn spec_read_immediate_effect(
    pre: Registers,
    post: Registers,
    pre_ops: Seq<BusOp>,
    post_ops: Seq<BusOp>,
    size: OpSize,
    r: u32,
) -> bool {
    let n = pre_ops.len() as int;
    match size {
        OpSize::Byte => {
            let w = op_word(post_ops[n]);
            &&& post_ops == pre_ops.push(BusOp::ReadWord { address: pre.pc, value: w })
            &&& r == w % 0x100
            &&& post == (Registers { pc: crate::bits::spec_wadd32(pre.pc, 2), ..pre })
        },
        OpSize::Word => {
            let w = op_word(post_ops[n]);
            &&& post_ops == pre_ops.push(BusOp::ReadWord { address: pre.pc, value: w })
            &&& r == w
            &&& post == (Registers { pc: crate::bits::spec_wadd32(pre.pc, 2), ..pre })
        },
        OpSize::LongWord => {
            let hi = op_word(post_ops[n]);
            let lo = op_word(post_ops[n + 1]);
            &&& post_ops == pre_ops
                .push(BusOp::ReadWord { address: pre.pc, value: hi })
                .push(BusOp::ReadWord {
                    address: crate::bits::spec_wadd32(pre.pc, 2),
                    value: lo,
                })
            &&& r == hi * 0x10000 + lo
            &&& post == (Registers { pc: crate::bits::spec_wadd32(pre.pc, 4), ..pre })
        },
    }
}

/// Reading the sized value an addressing mode denotes: registers and quick
/// constants read with nothing changed, an immediate is fetched at PC, and
/// a memory operand is resolved and then read.
pub open spec fn spec_read_operand_effect(
    pre: Registers,
    post: Registers,
    pre_ops: Seq<BusOp>,
    post_ops: Seq<BusOp>,
    mode: AddressingMode,
    size: OpSize,
    r: u32,
) -> bool {
    match mode {
        AddressingMode::DataDirect(register) => {
            &&& post == pre
            &&& post_ops == pre_ops
            &&& r == pre.d[(register.0 & 0x7) as int] as int % spec_modulus(size)
        },
        AddressingMode::AddressDirect(register) => {
            &&& post == pre
            &&& post_ops == pre_ops
            &&& r == spec_address_reg(pre, register.0) as int % spec_modulus(size)
        },
        AddressingMode::Immediate => spec_read_immediate_effect(
            pre,
            post,
            pre_ops,
            post_ops,
            size,
            r,
        ),
        AddressingMode::Quick(data) => {
            &&& post == pre
            &&& post_ops == pre_ops
            &&& r == (if data & 0x7 == 0 {
                8int
            } else {
                (data & 0x7) as int
            })
        },
        _ => exists|mid_ops: Seq<BusOp>, addr: u32| {
            &&& #[trigger] spec_resolve_effect(pre, post, pre_ops, mid_ops, mode, size, addr)
            &&& spec_read_sized_effect(mid_ops, post_ops, addr, size, r)
        },
    }
}

/// The whole ADD / ADDA transition: the source operand is read; an address
/// register destination makes it ADDA (word source sign-extended, no
/// flags); a data register or memory destination takes the sized sum with
/// X/N/Z/V/C set from it (a memory destination is resolved, read, and
/// written back).
pub open spec fn spec_add_effect(
    pre: Registers,
    post: Registers,
    pre_ops: Seq<BusOp>,
    post_ops: Seq<BusOp>,
    size: OpSize,
    source: AddressingMode,
    dest: AddressingMode,
) -> bool {
    match dest {
        AddressingMode::AddressDirect(register) => exists|v: u32, mid: Registers| {
            &&& #[trigger] spec_read_operand_effect(pre, mid, pre_ops, post_ops, source, size, v)
            &&& ({
                let extended = if size == OpSize::Word {
                    spec_sign_extend_16((v % 0x10000) as u16)
                } else {
                    v
                };
                spec_set_address_ensures(
                    mid,
                    post,
                    register.0,
                    crate::bits::spec_wadd32(spec_address_reg(mid, register.0), extended),
                )
            })
        },
        AddressingMode::DataDirect(register) => exists|v: u32, mid: Registers| {
            &&& #[trigger] spec_read_operand_effect(pre, mid, pre_ops, post_ops, source, size, v)
            &&& ({
                let full = mid.d[(register.0 & 0x7) as int];
                let (result, carry, overflow) = spec_add_sized(
                    size,
                    full as int % spec_modulus(size),
                    v as int,
                    0,
                );
                &&& post.d@ == mid.d@.update(
                    (register.0 & 0x7) as int,
                    spec_merge(size, full, result),
                )
                &&& post == (Registers {
                    d: post.d,
                    ccr: ConditionCodes {
                        extend: carry,
                        negative: spec_sign(size, result),
                        zero: result == 0,
                        overflow,
                        carry,
                    },
                    ..mid
                })
            })
        },
        _ => exists|
            v: u32,
            mid: Registers,
            ops1: Seq<BusOp>,
            mid2: Registers,
            addr: u32,
            ops2: Seq<BusOp>,
            dst: u32,
            ops3: Seq<BusOp>,
        |
            #![trigger spec_read_operand_effect(pre, mid, pre_ops, ops1, source, size, v),
                spec_resolve_effect(mid, mid2, ops1, ops2, dest, size, addr),
                spec_read_sized_effect(ops2, ops3, addr, size, dst)]
        {
            &&& spec_read_operand_effect(pre, mid, pre_ops, ops1, source, size, v)
            &&& spec_resolve_effect(mid, mid2, ops1, ops2, dest, size, addr)
            &&& spec_read_sized_effect(ops2, ops3, addr, size, dst)
            &&& ({
                let (result, carry, overflow) = spec_add_sized(size, dst as int, v as int, 0);
                &&& spec_write_sized_effect(ops3, post_ops, addr, size, result as u32)
                &&& post == (Registers {
                    ccr: ConditionCodes {
                        extend: carry,
                        negative: spec_sign(size, result),
                        zero: result == 0,
                        overflow,
                        carry,
                    },
                    ..mid2
                })
            })
        },
    }
}

/// The whole ADDX transition: the extend flag joins the addition, and the
/// zero flag is only ever cleared, never set.
pub open spec fn spec_addx_effect(
    pre: Registers,
    post: Registers,
    pre_ops: Seq<BusOp>,
    post_ops: Seq<BusOp>,
    size: OpSize,
    source: AddressingMode,
    dest: AddressingMode,
) -> bool {
    let cin = if pre.ccr.extend {
        1int
    } else {
        0int
    };
    match (source, dest) {
        (AddressingMode::DataDirect(sx), AddressingMode::DataDirect(dy)) => {
            let full = pre.d[(dy.0 & 0x7) as int];
            let (result, carry, overflow) = spec_add_sized(
                size,
                full as int % spec_modulus(size),
                pre.d[(sx.0 & 0x7) as int] as int % spec_modulus(size),
                cin,
            );
            &&& post_ops == pre_ops
            &&& post.d@ == pre.d@.update(
                (dy.0 & 0x7) as int,
                spec_merge(size, full, result),
            )
            &&& post == (Registers {
                d: post.d,
                ccr: ConditionCodes {
                    extend: carry,
                    negative: spec_sign(size, result),
                    zero: pre.ccr.zero && result == 0,
                    overflow,
                    carry,
                },
                ..pre
            })
        },
        _ => exists|
            v: u32,
            mid: Registers,
            ops1: Seq<BusOp>,
            mid2: Registers,
            addr: u32,
            ops2: Seq<BusOp>,
            dst: u32,
            ops3: Seq<BusOp>,
        |
            #![trigger spec_read_operand_effect(pre, mid, pre_ops, ops1, source, size, v),
                spec_resolve_effect(mid, mid2, ops1, ops2, dest, size, addr),
                spec_read_sized_effect(ops2, ops3, addr, size, dst)]
        {
            &&& spec_read_operand_effect(pre, mid, pre_ops, ops1, source, size, v)
            &&& spec_resolve_effect(mid, mid2, ops1, ops2, dest, size, addr)
            &&& spec_read_sized_effect(ops2, ops3, addr, size, dst)
            &&& ({
                let (result, carry, overflow) = spec_add_sized(size, dst as int, v as int, cin);
                &&& spec_write_sized_effect(ops3, post_ops, addr, size, result as u32)
                &&& post == (Registers {
                    ccr: ConditionCodes {
                        extend: carry,
                        negative: spec_sign(size, result),
                        zero: pre.ccr.zero && result == 0,
                        overflow,
                        carry,
                    },
                    ..mid2
                })
            })
        },
    }
}

/// The sized result of one of the three logic operations.
pub open spec fn spec_logic_result(size: OpSize, a: u32, b: u32, op: u8) -> int {
    (if op == 0 {
        a & b
    } else if op == 1 {
        a | b
    } else {
        a ^ b
    }) as int % spec_modulus(size)
}

/// The whole AND / OR / EOR transition (`op` 0/1/2): the source operand is
/// read, the destination takes the sized result, and N/Z are set with V/C
/// cleared and X untouched.
pub open spec fn spec_logic_effect(
    pre: Registers,
    post: Registers,
    pre_ops: Seq<BusOp>,
    post_ops: Seq<BusOp>,
    size: OpSize,
    source: AddressingMode,
    dest: AddressingMode,
    op: u8,
) -> bool {
    match dest {
        AddressingMode::DataDirect(register) => exists|v: u32, mid: Registers| {
            &&& #[trigger] spec_read_operand_effect(pre, mid, pre_ops, post_ops, source, size, v)
            &&& ({
                let full = mid.d[(register.0 & 0x7) as int];
                let result = spec_logic_result(
                    size,
                    (full as int % spec_modulus(size)) as u32,
                    v,
                    op,
                );
                &&& post.d@ == mid.d@.update(
                    (register.0 & 0x7) as int,
                    spec_merge(size, full, result),
                )
                &&& post == (Registers {
                    d: post.d,
                    ccr: ConditionCodes {
                        extend: mid.ccr.extend,
                        negative: spec_sign(size, result),
                        zero: result == 0,
                        overflow: false,
                        carry: false,
                    },
                    ..mid
                })
            })
        },
        _ => exists|
            v: u32,
            mid: Registers,
            ops1: Seq<BusOp>,
            mid2: Registers,
            addr: u32,
            ops2: Seq<BusOp>,
            dst: u32,
            ops3: Seq<BusOp>,
        |
            #![trigger spec_read_operand_effect(pre, mid, pre_ops, ops1, source, size, v),
                spec_resolve_effect(mid, mid2, ops1, ops2, dest, size, addr),
                spec_read_sized_effect(ops2, ops3, addr, size, dst)]
        {
            &&& spec_read_operand_effect(pre, mid, pre_ops, ops1, source, size, v)
            &&& spec_resolve_effect(mid, mid2, ops1, ops2, dest, size, addr)
            &&& spec_read_sized_effect(ops2, ops3, addr, size, dst)
            &&& ({
                let result = spec_logic_result(size, dst, v, op);
                &&& spec_write_sized_effect(ops3, post_ops, addr, size, result as u32)
                &&& post == (Registers {
                    ccr: ConditionCodes {
                        extend: mid2.ccr.extend,
                        negative: spec_sign(size, result),
                        zero: result == 0,
                        overflow: false,
                        carry: false,
                    },
                    ..mid2
                })
            })
        },
    }
}

/// The whole MOVE / MOVEA transition: the source operand is read; an
/// address register destination makes it MOVEA (word source sign-extended,
/// no flags); otherwise the destination takes the value with N/Z from it
/// and V/C cleared.
pub open spec fn spec_move_effect(
    pre: Registers,
    post: Registers,
    pre_ops: Seq<BusOp>,
    post_ops: Seq<BusOp>,
    size: OpSize,
    source: AddressingMode,
    dest: AddressingMode,
) -> bool {
    match dest {
        AddressingMode::AddressDirect(register) => exists|v: u32, mid: Registers| {
            &&& #[trigger] spec_read_operand_effect(pre, mid, pre_ops, post_ops, source, size, v)
            &&& ({
                let extended = if size == OpSize::Word {
                    spec_sign_extend_16((v % 0x10000) as u16)
                } else {
                    v
                };
                spec_set_address_ensures(mid, post, register.0, extended)
            })
        },
        AddressingMode::DataDirect(register) => exists|v: u32, mid: Registers| {
            &&& #[trigger] spec_read_operand_effect(pre, mid, pre_ops, post_ops, source, size, v)
            &&& post.d@ == mid.d@.update(
                (register.0 & 0x7) as int,
                spec_merge(size, mid.d[(register.0 & 0x7) as int], v as int),
            )
            &&& post == (Registers {
                d: post.d,
                ccr: ConditionCodes {
                    extend: mid.ccr.extend,
                    negative: spec_sign(size, v as int),
                    zero: v == 0,
                    overflow: false,
                    carry: false,
                },
                ..mid
            })
        },
        _ => exists|v: u32, mid: Registers, ops1: Seq<BusOp>, mid2: Registers, addr: u32, ops2: Seq<BusOp>|
            #![trigger spec_read_operand_effect(pre, mid, pre_ops, ops1, source, size, v),
                spec_resolve_effect(mid, mid2, ops1, ops2, dest, size, addr)]
        {
            &&& spec_read_operand_effect(pre, mid, pre_ops, ops1, source, size, v)
            &&& spec_resolve_effect(mid, mid2, ops1, ops2, dest, size, addr)
            &&& spec_write_sized_effect(ops2, post_ops, addr, size, v)
            &&& post == (Registers {
                ccr: ConditionCodes {
                    extend: mid2.ccr.extend,
                    negative: spec_sign(size, v as int),
                    zero: v == 0,
                    overflow: false,
                    carry: false,
                },
                ..mid2
            })
        },
    }
}

/// The whole MOVE-from-SR transition for the destinations decode admits: a
/// data register takes the status word in its low half (no flags change),
/// and a memory destination is resolved and written as a word.
pub open spec fn spec_move_from_sr_effect(
    pre: Registers,
    post: Registers,
    pre_ops: Seq<BusOp>,
    post_ops: Seq<BusOp>,
    dest: AddressingMode,
) -> bool {
    let sr = spec_status_register(pre) as int;
    match dest {
        AddressingMode::AddressDirect(_) => true,
        AddressingMode::DataDirect(register) => {
            &&& post_ops == pre_ops
            &&& post.d@ == pre.d@.update(
                (register.0 & 0x7) as int,
                spec_merge(OpSize::Word, pre.d[(register.0 & 0x7) as int], sr),
            )
            &&& post == (Registers { d: post.d, ..pre })
        },
        _ => exists|mid2: Registers, addr: u32, ops2: Seq<BusOp>| {
            &&& #[trigger] spec_resolve_effect(pre, mid2, pre_ops, ops2, dest, OpSize::Word, addr)
            &&& spec_write_sized_effect(ops2, post_ops, addr, OpSize::Word, sr as u32)
            &&& post == mid2
        },
    }
}

/// The whole MOVE-to-CCR transition: a word operand is read and its low
/// byte replaces the condition codes.
pub open spec fn spec_move_to_ccr_effect(
    pre: Registers,
    post: Registers,
    pre_ops: Seq<BusOp>,
    post_ops: Seq<BusOp>,
    source: AddressingMode,
) -> bool {
    exists|v: u32, mid: Registers| {
        &&& #[trigger] spec_read_operand_effect(pre, mid, pre_ops, post_ops, source, OpSize::Word, v)
        &&& post == (Registers { ccr: spec_ccr_from_byte((v % 0x100) as u8), ..mid })
    }
}

/// The whole MOVE-to-SR transition: a word operand is read and replaces
/// the whole status register.
pub open spec fn spec_move_to_sr_effect(
    pre: Registers,
    post: Registers,
    pre_ops: Seq<BusOp>,
    post_ops: Seq<BusOp>,
    source: AddressingMode,
) -> bool {
    exists|v: u32, mid: Registers| {
        &&& #[trigger] spec_read_operand_effect(pre, mid, pre_ops, post_ops, source, OpSize::Word, v)
        &&& post == spec_with_status_register(mid, v as u16)
    }
}

/// The whole MOVE USP transition (privileged; enforced at decode).
pub open spec fn spec_move_usp_effect(
    pre: Registers,
    post: Registers,
    pre_ops: Seq<BusOp>,
    post_ops: Seq<BusOp>,
    direction: UspDirection,
    register: AddressRegister,
) -> bool {
    &&& post_ops == pre_ops
    &&& (match direction {
        UspDirection::RegisterToUsp => post == (Registers {
            usp: spec_address_reg(pre, register.0),
            ..pre
        }),
        UspDirection::UspToRegister => spec_set_address_ensures(pre, post, register.0, pre.usp),
    })
}

/// The whole ANDI/ORI/EORI-to-CCR transition (`op` 0/1/2): an immediate
/// byte is combined into the condition codes.
pub open spec fn spec_imm_to_ccr_effect(
    pre: Registers,
    post: Registers,
    pre_ops: Seq<BusOp>,
    post_ops: Seq<BusOp>,
    op: u8,
) -> bool {
    exists|imm: u32, mid: Registers| {
        &&& #[trigger] spec_read_immediate_effect(pre, mid, pre_ops, post_ops, OpSize::Byte, imm)
        &&& ({
            let current = spec_ccr_byte(pre.ccr);
            let combined = if op == 0 {
                current & (imm as u8)
            } else if op == 1 {
                current | (imm as u8)
            } else {
                current ^ (imm as u8)
            };
            post == (Registers { ccr: spec_ccr_from_byte(combined), ..mid })
        })
    }
}

/// The whole ANDI/ORI/EORI-to-SR transition (`op` 0/1/2; privileged,
/// enforced at decode): an immediate word is combined into the whole
/// status register.
pub open spec fn spec_imm_to_sr_effect(
    pre: Registers,
    post: Registers,
    pre_ops: Seq<BusOp>,
    post_ops: Seq<BusOp>,
    op: u8,
) -> bool {
    exists|imm: u32, mid: Registers| {
        &&& #[trigger] spec_read_immediate_effect(pre, mid, pre_ops, post_ops, OpSize::Word, imm)
        &&& ({
            let current = spec_status_register(pre);
            let combined = if op == 0 {
                current & (imm as u16)
            } else if op == 1 {
                current | (imm as u16)
            } else {
                current ^ (imm as u16)
            };
            post == spec_with_status_register(mid, combined)
        })
    }
}

/// The whole MOVEQ transition: a sign-extended constant into a data
/// register, with N/Z from it and V/C cleared.
pub open spec fn spec_moveq_effect(
    pre: Registers,
    post: Registers,
    pre_ops: Seq<BusOp>,
    post_ops: Seq<BusOp>,
    data: i8,
    register: DataRegister,
) -> bool {
    let value = spec_sign_extend_8(data as u8);
    &&& post_ops == pre_ops
    &&& post.d@ == pre.d@.update((register.0 & 0x7) as int, value)
    &&& post == (Registers {
        d: post.d,
        ccr: ConditionCodes {
            extend: pre.ccr.extend,
            negative: spec_sign(OpSize::LongWord, value as int),
            zero: value == 0,
            overflow: false,
            carry: false,
        },
        ..pre
    })
}

/// The transition of one decoded instruction against the register file and
/// the bus trace, from the state after the opcode fetch.
pub open spec fn spec_instruction_effect(
    pre: Registers,
    post: Registers,
    pre_ops: Seq<BusOp>,
    post_ops: Seq<BusOp>,
    i: Instruction,
) -> bool {
    match i {
        Instruction::Add { size, source, dest } => spec_add_effect(
            pre, post, pre_ops, post_ops, size, source, dest,
        ),
        Instruction::AddExtend { size, source, dest } => spec_addx_effect(
            pre, post, pre_ops, post_ops, size, source, dest,
        ),
        Instruction::And { size, source, dest } => spec_logic_effect(
            pre, post, pre_ops, post_ops, size, source, dest, 0,
        ),
        Instruction::AndToCcr => spec_imm_to_ccr_effect(pre, post, pre_ops, post_ops, 0),
        Instruction::AndToSr => spec_imm_to_sr_effect(pre, post, pre_ops, post_ops, 0),
        Instruction::ExclusiveOr { size, source, dest } => spec_logic_effect(
            pre, post, pre_ops, post_ops, size, source, dest, 2,
        ),
        Instruction::ExclusiveOrToCcr => spec_imm_to_ccr_effect(pre, post, pre_ops, post_ops, 2),
        Instruction::ExclusiveOrToSr => spec_imm_to_sr_effect(pre, post, pre_ops, post_ops, 2),
        Instruction::Move { size, source, dest } => spec_move_effect(
            pre, post, pre_ops, post_ops, size, source, dest,
        ),
        Instruction::MoveFromSr(dest) => spec_move_from_sr_effect(
            pre, post, pre_ops, post_ops, dest,
        ),
        Instruction::MoveToCcr(source) => spec_move_to_ccr_effect(
            pre, post, pre_ops, post_ops, source,
        ),
        Instruction::MoveToSr(source) => spec_move_to_sr_effect(
            pre, post, pre_ops, post_ops, source,
        ),
        Instruction::MoveUsp(direction, register) => spec_move_usp_effect(
            pre, post, pre_ops, post_ops, direction, register,
        ),
        Instruction::MoveQuick(data, register) => spec_moveq_effect(
            pre, post, pre_ops, post_ops, data, register,
        ),
        Instruction::Or { size, source, dest } => spec_logic_effect(
            pre, post, pre_ops, post_ops, size, source, dest, 1,
        ),
        Instruction::OrToCcr => spec_imm_to_ccr_effect(pre, post, pre_ops, post_ops, 1),
        Instruction::OrToSr => spec_imm_to_sr_effect(pre, post, pre_ops, post_ops, 1),
    }
}

/// Executes decoded instructions against the register file and a bus.
#[derive(Debug, Clone)]
pub struct InstructionExecutor {
    pub registers: Registers,
    pub opcode: u16,
    pub instruction: Option<Instruction>,
}

impl InstructionExecutor {
    pub fn new(registers: Registers) -> (r: Self)
        requires
            registers.wf(),
        ensures
            r.registers == registers,
            r.registers.wf(),
            r.opcode == 0,
            r.instruction is None,
    {
        Self { registers, opcode: 0, instruction: Option::None }
    }

    /// Fetch the word at PC and advance PC by 2.
    fn fetch_operand<B: BusInterface>(&mut self, bus: &mut B) -> (r: u16)
        requires
            old(self).registers.wf(),
        ensures
            final(self).registers.wf(),
            final(bus).ops() == old(bus).ops().push(BusOp::ReadWord {
                address: old(self).registers.pc,
                value: r,
            }),
            final(self).registers == (Registers {
                pc: crate::bits::spec_wadd32(old(self).registers.pc, 2),
                ..old(self).registers
            }),
            *final(self) == (InstructionExecutor { registers: final(self).registers, ..*old(self) }),
    {
        let word = bus.read_word(self.registers.pc);
        self.registers.pc = self.registers.pc.wrapping_add(2);
        word
    }

    /// Fetch an immediate operand of the given size.
    fn read_immediate<B: BusInterface>(&mut self, bus: &mut B, size: OpSize) -> (r: u32)
        requires
            old(self).registers.wf(),
        ensures
            final(self).registers.wf(),
            r < spec_modulus(size),
            spec_read_immediate_effect(
                old(self).registers,
                final(self).registers,
                old(bus).ops(),
                final(bus).ops(),
                size,
                r,
            ),
            *final(self) == (InstructionExecutor { registers: final(self).registers, ..*old(self) }),
    {
        match size {
            OpSize::Byte => (self.fetch_operand(bus) as u32) % 0x100,
            OpSize::Word => self.fetch_operand(bus) as u32,
            OpSize::LongWord => {
                let high = self.fetch_operand(bus) as u32;
                let low = self.fetch_operand(bus) as u32;
                proof {
                    assert(crate::bits::spec_wadd32(
                        crate::bits::spec_wadd32(old(self).registers.pc, 2),
                        2,
                    ) == crate::bits::spec_wadd32(old(self).registers.pc, 4));
                }
                high * 0x10000 + low
            }
        }
    }

    /// The index portion of a brief extension word: a data or address
    /// register, sign-extended from a word unless the long bit is set.
    fn index_value(&self, ext: u16) -> (r: u32)
        requires
            self.registers.wf(),
        ensures
            r == spec_index_value(self.registers, ext),
    {
        proof {
            crate::bits::lemma_and_bound_u16(ext >> 12, 0x7);
            assert((((ext >> 12) & 0x7) as u8) & 0x7 == ((ext >> 12) & 0x7) as u8)
                by (bit_vector);
        }
        let register = ((ext >> 12) & 0x7) as u8;
        let full = if crate::bits::bit16(ext, 15) {
            self.registers.address(AddressRegister(register))
        } else {
            self.registers.data(DataRegister(register))
        };
        if crate::bits::bit16(ext, 11) {
            full
        } else {
            sign_extend_16((full % 0x10000) as u16)
        }
    }

    /// Resolve a memory addressing mode to an address, fetching any
    /// extension words and applying post-increment/pre-decrement. Register
    /// and immediate modes are not memory operands and resolve to 0.
    fn resolve_address<B: BusInterface>(&mut self, bus: &mut B, mode: AddressingMode, size: OpSize) -> (r: u32)
        requires
            old(self).registers.wf(),
        ensures
            final(self).registers.wf(),
            spec_resolve_effect(
                old(self).registers,
                final(self).registers,
                old(bus).ops(),
                final(bus).ops(),
                mode,
                size,
                r,
            ),
            *final(self) == (InstructionExecutor { registers: final(self).registers, ..*old(self) }),
    {
        match mode {
            AddressingMode::AddressIndirect(register) => self.registers.address(register),
            AddressingMode::AddressIndirectPostincrement(register) => {
                let address = self.registers.address(register);
                // A byte step on the stack pointer keeps it word-aligned.
                let step = if size == OpSize::Byte && register.0 & 0x7 == 7 {
                    2
                } else {
                    size.byte_count()
                };
                self.registers.set_address(register, address.wrapping_add(step));
                address
            }
            AddressingMode::AddressIndirectPredecrement(register) => {
                let step = if size == OpSize::Byte && register.0 & 0x7 == 7 {
                    2
                } else {
                    size.byte_count()
                };
                let address = self.registers.address(register).wrapping_sub(step);
                self.registers.set_address(register, address);
                address
            }
            AddressingMode::AddressIndirectDisplacement(register) => {
                let displacement = sign_extend_16(self.fetch_operand(bus));
                self.registers.address(register).wrapping_add(displacement)
            }
            AddressingMode::AddressIndirectIndexed(register) => {
                let ext = self.fetch_operand(bus);
                let displacement = sign_extend_8((ext % 0x100) as u8);
                let index = self.index_value(ext);
                self.registers.address(register).wrapping_add(displacement).wrapping_add(index)
            }
            AddressingMode::AbsoluteShort => sign_extend_16(self.fetch_operand(bus)),
            AddressingMode::AbsoluteLong => {
                let high = self.fetch_operand(bus) as u32;
                let low = self.fetch_operand(bus) as u32;
                proof {
                    assert(crate::bits::spec_wadd32(
                        crate::bits::spec_wadd32(old(self).registers.pc, 2),
                        2,
                    ) == crate::bits::spec_wadd32(old(self).registers.pc, 4));
                }
                high * 0x10000 + low
            }
            AddressingMode::PcRelativeDisplacement => {
                let base = self.registers.pc;
                let displacement = sign_extend_16(self.fetch_operand(bus));
                base.wrapping_add(displacement)
            }
            AddressingMode::PcRelativeIndexed => {
                let base = self.registers.pc;
                let ext = self.fetch_operand(bus);
                let displacement = sign_extend_8((ext % 0x100) as u8);
                let index = self.index_value(ext);
                base.wrapping_add(displacement).wrapping_add(index)
            }
            _ => 0,
        }
    }

    /// Read a sized value from memory; long reads are two word reads.
    fn read_memory_sized<B: BusInterface>(&mut self, bus: &mut B, address: u32, size: OpSize) -> (r: u32)
        requires
            old(self).registers.wf(),
        ensures
            final(self).registers.wf(),
            r < spec_modulus(size),
            *final(self) == *old(self),
            spec_read_sized_effect(old(bus).ops(), final(bus).ops(), address, size, r),
    {
        match size {
            OpSize::Byte => bus.read_byte(address) as u32,
            OpSize::Word => bus.read_word(address) as u32,
            OpSize::LongWord => {
                let high = bus.read_word(address) as u32;
                let low = bus.read_word(address.wrapping_add(2)) as u32;
                high * 0x10000 + low
            }
        }
    }

    /// Write a sized value to memory; long writes are two word writes.
    fn write_memory_sized<B: BusInterface>(&mut self, bus: &mut B, address: u32, size: OpSize, value: u32)
        requires
            old(self).registers.wf(),
            value < spec_modulus(size),
        ensures
            final(self).registers.wf(),
            *final(self) == *old(self),
            spec_write_sized_effect(old(bus).ops(), final(bus).ops(), address, size, value),
    {
        match size {
            OpSize::Byte => bus.write_byte(address, value as u8),
            OpSize::Word => bus.write_word(address, value as u16),
            OpSize::LongWord => {
                bus.write_word(address, (value / 0x10000) as u16);
                bus.write_word(address.wrapping_add(2), (value % 0x10000) as u16);
            }
        }
    }

    /// Read the sized value an addressing mode denotes. A data-register
    /// operand reads exactly the register's low `size` part and leaves
    /// the machine untouched.
    fn read_operand<B: BusInterface>(&mut self, bus: &mut B, mode: AddressingMode, size: OpSize) -> (r: u32)
        requires
            old(self).registers.wf(),
        ensures
            final(self).registers.wf(),
            r < spec_modulus(size),
            spec_read_operand_effect(
                old(self).registers,
                final(self).registers,
                old(bus).ops(),
                final(bus).ops(),
                mode,
                size,
                r,
            ),
            *final(self) == (InstructionExecutor { registers: final(self).registers, ..*old(self) }),
            mode is DataDirect ==> {
                &&& *final(self) == *old(self)
                &&& r == old(self).registers.d[(mode->DataDirect_0.0 & 0x7) as int] as int
                    % spec_modulus(size)
            },
    {
        match mode {
            AddressingMode::DataDirect(register) => mask_sized(size, self.registers.data(register)),
            AddressingMode::AddressDirect(register) => mask_sized(
                size,
                self.registers.address(register),
            ),
            AddressingMode::Immediate => self.read_immediate(bus, size),
            AddressingMode::Quick(data) => {
                let v: u32 = if data & 0x7 == 0 {
                    8
                } else {
                    (data & 0x7) as u32
                };
                proof {
                    crate::bits::lemma_and_bound_u8(data, 0x7);
                }
                v
            }
            _ => {
                let ghost ops0 = bus.ops();
                let address = self.resolve_address(bus, mode, size);
                let ghost mid_ops = bus.ops();
                let r = self.read_memory_sized(bus, address, size);
                proof {
                    assert(spec_resolve_effect(
                        old(self).registers,
                        self.registers,
                        ops0,
                        mid_ops,
                        mode,
                        size,
                        address,
                    ));
                }
                r
            }
        }
    }

    /// N and Z from a result; V and C cleared; X untouched.
    fn set_logic_flags(&mut self, size: OpSize, result: u32)
        requires
            old(self).registers.wf(),
            result < spec_modulus(size),
        ensures
            final(self).registers.wf(),
            final(self).registers == (Registers {
                ccr: ConditionCodes {
                    extend: old(self).registers.ccr.extend,
                    negative: spec_sign(size, result as int),
                    zero: result == 0,
                    overflow: false,
                    carry: false,
                },
                ..old(self).registers
            }),
            *final(self) == (InstructionExecutor { registers: final(self).registers, ..*old(self) }),
    {
        self.registers.ccr = ConditionCodes {
            extend: self.registers.ccr.extend,
            negative: sign_of(size, result),
            zero: result == 0,
            overflow: false,
            carry: false,
        };
    }

    /// Full addition flags: X and C from the carry, V from signed
    /// overflow, N and Z from the result.
    fn set_add_flags(&mut self, size: OpSize, result: u32, carry: bool, overflow: bool)
        requires
            old(self).registers.wf(),
            result < spec_modulus(size),
        ensures
            final(self).registers.wf(),
            final(self).registers == (Registers {
                ccr: ConditionCodes {
                    extend: carry,
                    negative: spec_sign(size, result as int),
                    zero: result == 0,
                    overflow,
                    carry,
                },
                ..old(self).registers
            }),
            *final(self) == (InstructionExecutor { registers: final(self).registers, ..*old(self) }),
    {
        self.registers.ccr = ConditionCodes {
            extend: carry,
            negative: sign_of(size, result),
            zero: result == 0,
            overflow,
            carry,
        };
    }

    /// ADD / ADDA: a destination address register makes it ADDA (source
    /// sign-extended, no flags); otherwise full addition flags. For the
    /// register-to-register form the result and every flag are pinned
    /// down exactly.
    fn add<B: BusInterface>(&mut self, bus: &mut B, size: OpSize, source: AddressingMode, dest: AddressingMode) -> (r: ExecuteResult<()>)
        requires
            old(self).registers.wf(),
        ensures
            final(self).registers.wf(),
            r is Ok,
            spec_add_effect(
                old(self).registers,
                final(self).registers,
                old(bus).ops(),
                final(bus).ops(),
                size,
                source,
                dest,
            ),
            *final(self) == (InstructionExecutor { registers: final(self).registers, ..*old(self) }),
            ({
                let regs = old(self).registers;
                (source is DataDirect && dest is DataDirect) ==> {
                    let sx = source->DataDirect_0;
                    let dy = dest->DataDirect_0;
                    let a = regs.d[(dy.0 & 0x7) as int] as int % spec_modulus(size);
                    let b = regs.d[(sx.0 & 0x7) as int] as int % spec_modulus(size);
                    let (result, carry, overflow) = spec_add_sized(size, a, b, 0);
                    &&& final(self).registers.d@ == regs.d@.update(
                        (dy.0 & 0x7) as int,
                        spec_merge(size, regs.d[(dy.0 & 0x7) as int], result),
                    )
                    &&& final(self).registers.ccr == (ConditionCodes {
                        extend: carry,
                        negative: spec_sign(size, result),
                        zero: result == 0,
                        overflow,
                        carry,
                    })
                }
            }),
    {
        match dest {
            AddressingMode::AddressDirect(register) => {
                let value = self.read_operand(bus, source, size);
                let ghost mid = self.registers;
                let extended = if size == OpSize::Word {
                    sign_extend_16((value % 0x10000) as u16)
                } else {
                    value
                };
                let result = self.registers.address(register).wrapping_add(extended);
                self.registers.set_address(register, result);
                proof {
                    assert(spec_read_operand_effect(
                        old(self).registers,
                        mid,
                        old(bus).ops(),
                        bus.ops(),
                        source,
                        size,
                        value,
                    ));
                }
                Result::Ok(())
            }
            AddressingMode::DataDirect(register) => {
                let value = self.read_operand(bus, source, size);
                let ghost mid = self.registers;
                let full = self.registers.data(register);
                let a = mask_sized(size, full);
                let (result, carry, overflow) = alu_add(size, a, value, false);
                let merged = merge_sized(size, full, result);
                self.registers.set_data(register, merged);
                self.set_add_flags(size, result, carry, overflow);
                proof {
                    assert(spec_read_operand_effect(
                        old(self).registers,
                        mid,
                        old(bus).ops(),
                        bus.ops(),
                        source,
                        size,
                        value,
                    ));
                }
                Result::Ok(())
            }
            _ => {
                let value = self.read_operand(bus, source, size);
                let ghost mid = self.registers;
                let ghost ops1 = bus.ops();
                let address = self.resolve_address(bus, dest, size);
                let ghost mid2 = self.registers;
                let ghost ops2 = bus.ops();
                let dst = self.read_memory_sized(bus, address, size);
                let ghost ops3 = bus.ops();
                let (result, carry, overflow) = alu_add(size, dst, value, false);
                self.write_memory_sized(bus, address, size, result);
                self.set_add_flags(size, result, carry, overflow);
                proof {
                    assert(spec_read_operand_effect(
                        old(self).registers,
                        mid,
                        old(bus).ops(),
                        ops1,
                        source,
                        size,
                        value,
                    ));
                    assert(spec_resolve_effect(mid, mid2, ops1, ops2, dest, size, address));
                    assert(spec_read_sized_effect(ops2, ops3, address, size, dst));
                }
                Result::Ok(())
            }
        }
    }

    /// ADDX: add with the extend flag; Z is only ever cleared.
    fn addx<B: BusInterface>(&mut self, bus: &mut B, size: OpSize, source: AddressingMode, dest: AddressingMode) -> (r: ExecuteResult<()>)
        requires
            old(self).registers.wf(),
        ensures
            final(self).registers.wf(),
            r is Ok,
            spec_addx_effect(
                old(self).registers,
                final(self).registers,
                old(bus).ops(),
                final(bus).ops(),
                size,
                source,
                dest,
            ),
            *final(self) == (InstructionExecutor { registers: final(self).registers, ..*old(self) }),
    {
        let carry_in = self.registers.ccr.extend;
        let zero_in = self.registers.ccr.zero;
        match (source, dest) {
            (AddressingMode::DataDirect(sx), AddressingMode::DataDirect(dy)) => {
                let value = mask_sized(size, self.registers.data(sx));
                let full = self.registers.data(dy);
                let a = mask_sized(size, full);
                let (result, carry, overflow) = alu_add(size, a, value, carry_in);
                let merged = merge_sized(size, full, result);
                self.registers.set_data(dy, merged);
                self.set_add_flags(size, result, carry, overflow);
                self.registers.ccr = ConditionCodes {
                    zero: zero_in && result == 0,
                    ..self.registers.ccr
                };
                Result::Ok(())
            }
            _ => {
                let value = self.read_operand(bus, source, size);
                let ghost mid = self.registers;
                let ghost ops1 = bus.ops();
                let address = self.resolve_address(bus, dest, size);
                let ghost mid2 = self.registers;
                let ghost ops2 = bus.ops();
                let dst = self.read_memory_sized(bus, address, size);
                let ghost ops3 = bus.ops();
                let (result, carry, overflow) = alu_add(size, dst, value, carry_in);
                self.write_memory_sized(bus, address, size, result);
                self.set_add_flags(size, result, carry, overflow);
                self.registers.ccr = ConditionCodes {
                    zero: zero_in && result == 0,
                    ..self.registers.ccr
                };
                proof {
                    assert(spec_read_operand_effect(
                        old(self).registers,
                        mid,
                        old(bus).ops(),
                        ops1,
                        source,
                        size,
                        value,
                    ));
                    assert(spec_resolve_effect(mid, mid2, ops1, ops2, dest, size, address));
                    assert(spec_read_sized_effect(ops2, ops3, address, size, dst));
                }
                Result::Ok(())
            }
        }
    }

    /// AND / OR / EOR share one shape; `op` selects the operation (0 AND,
    /// 1 OR, 2 EOR). For the register-to-register form the result and
    /// every flag are pinned down exactly.
    fn logic_op<B: BusInterface>(&mut self, bus: &mut B, size: OpSize, source: AddressingMode, dest: AddressingMode, op: u8) -> (r: ExecuteResult<()>)
        requires
            old(self).registers.wf(),
        ensures
            final(self).registers.wf(),
            r is Ok,
            spec_logic_effect(
                old(self).registers,
                final(self).registers,
                old(bus).ops(),
                final(bus).ops(),
                size,
                source,
                dest,
                op,
            ),
            *final(self) == (InstructionExecutor { registers: final(self).registers, ..*old(self) }),
            ({
                let regs = old(self).registers;
                (source is DataDirect && dest is DataDirect) ==> {
                    let sx = source->DataDirect_0;
                    let dy = dest->DataDirect_0;
                    let a = (regs.d[(dy.0 & 0x7) as int] as int % spec_modulus(size)) as u32;
                    let b = (regs.d[(sx.0 & 0x7) as int] as int % spec_modulus(size)) as u32;
                    let result = (if op == 0 {
                        a & b
                    } else if op == 1 {
                        a | b
                    } else {
                        a ^ b
                    }) as int % spec_modulus(size);
                    &&& final(self).registers.d@ == regs.d@.update(
                        (dy.0 & 0x7) as int,
                        spec_merge(size, regs.d[(dy.0 & 0x7) as int], result),
                    )
                    &&& final(self).registers.ccr == (ConditionCodes {
                        extend: regs.ccr.extend,
                        negative: spec_sign(size, result),
                        zero: result == 0,
                        overflow: false,
                        carry: false,
                    })
                }
            }),
    {
        let value = self.read_operand(bus, source, size);
        let ghost mid = self.registers;
        let ghost ops1 = bus.ops();
        match dest {
            AddressingMode::DataDirect(register) => {
                let full = self.registers.data(register);
                let a = mask_sized(size, full);
                let result = mask_sized(
                    size,
                    if op == 0 {
                        a & value
                    } else if op == 1 {
                        a | value
                    } else {
                        a ^ value
                    },
                );
                let merged = merge_sized(size, full, result);
                self.registers.set_data(register, merged);
                self.set_logic_flags(size, result);
                proof {
                    assert(spec_read_operand_effect(
                        old(self).registers,
                        mid,
                        old(bus).ops(),
                        ops1,
                        source,
                        size,
                        value,
                    ));
                }
                Result::Ok(())
            }
            _ => {
                let address = self.resolve_address(bus, dest, size);
                let ghost mid2 = self.registers;
                let ghost ops2 = bus.ops();
                let dst = self.read_memory_sized(bus, address, size);
                let ghost ops3 = bus.ops();
                let result = mask_sized(
                    size,
                    if op == 0 {
                        dst & value
                    } else if op == 1 {
                        dst | value
                    } else {
                        dst ^ value
                    },
                );
                self.write_memory_sized(bus, address, size, result);
                self.set_logic_flags(size, result);
                proof {
                    assert(spec_read_operand_effect(
                        old(self).registers,
                        mid,
                        old(bus).ops(),
                        ops1,
                        source,
                        size,
                        value,
                    ));
                    assert(spec_resolve_effect(mid, mid2, ops1, ops2, dest, size, address));
                    assert(spec_read_sized_effect(ops2, ops3, address, size, dst));
                }
                Result::Ok(())
            }
        }
    }

    /// MOVE / MOVEA: a destination address register makes it MOVEA
    /// (sign-extended, no flags); otherwise N/Z from the value moved.
    fn move_<B: BusInterface>(&mut self, bus: &mut B, size: OpSize, source: AddressingMode, dest: AddressingMode) -> (r: ExecuteResult<()>)
        requires
            old(self).registers.wf(),
        ensures
            final(self).registers.wf(),
            r is Ok,
            spec_move_effect(
                old(self).registers,
                final(self).registers,
                old(bus).ops(),
                final(bus).ops(),
                size,
                source,
                dest,
            ),
            *final(self) == (InstructionExecutor { registers: final(self).registers, ..*old(self) }),
    {
        let value = self.read_operand(bus, source, size);
        let ghost mid = self.registers;
        let ghost ops1 = bus.ops();
        match dest {
            AddressingMode::AddressDirect(register) => {
                let extended = if size == OpSize::Word {
                    sign_extend_16((value % 0x10000) as u16)
                } else {
                    value
                };
                self.registers.set_address(register, extended);
                proof {
                    assert(spec_read_operand_effect(
                        old(self).registers,
                        mid,
                        old(bus).ops(),
                        ops1,
                        source,
                        size,
                        value,
                    ));
                }
                Result::Ok(())
            }
            AddressingMode::DataDirect(register) => {
                let full = self.registers.data(register);
                let merged = merge_sized(size, full, value);
                self.registers.set_data(register, merged);
                self.set_logic_flags(size, value);
                proof {
                    assert(spec_read_operand_effect(
                        old(self).registers,
                        mid,
                        old(bus).ops(),
                        ops1,
                        source,
                        size,
                        value,
                    ));
                }
                Result::Ok(())
            }
            _ => {
                let address = self.resolve_address(bus, dest, size);
                let ghost mid2 = self.registers;
                let ghost ops2 = bus.ops();
                self.write_memory_sized(bus, address, size, value);
                self.set_logic_flags(size, value);
                proof {
                    assert(spec_read_operand_effect(
                        old(self).registers,
                        mid,
                        old(bus).ops(),
                        ops1,
                        source,
                        size,
                        value,
                    ));
                    assert(spec_resolve_effect(mid, mid2, ops1, ops2, dest, size, address));
                }
                Result::Ok(())
            }
        }
    }

    /// MOVEQ: sign-extended 8-bit constant into a data register.
    fn moveq(&mut self, data: i8, register: DataRegister)
        requires
            old(self).registers.wf(),
        ensures
            final(self).registers.wf(),
            spec_moveq_effect(
                old(self).registers,
                final(self).registers,
                Seq::<BusOp>::empty(),
                Seq::<BusOp>::empty(),
                data,
                register,
            ),
            *final(self) == (InstructionExecutor { registers: final(self).registers, ..*old(self) }),
            final(self).registers.d@ == old(self).registers.d@.update(
                (register.0 & 0x7) as int,
                spec_sign_extend_8(data as u8),
            ),
            final(self).registers == (Registers {
                d: final(self).registers.d,
                ccr: ConditionCodes {
                    extend: old(self).registers.ccr.extend,
                    negative: spec_sign(OpSize::LongWord, spec_sign_extend_8(data as u8) as int),
                    zero: spec_sign_extend_8(data as u8) == 0,
                    overflow: false,
                    carry: false,
                },
                ..old(self).registers
            }),
    {
        let value = sign_extend_8(data as u8);
        self.registers.set_data(register, value);
        self.set_logic_flags(OpSize::LongWord, value);
    }

    /// MOVE USP: transfer between the user stack pointer and an address
    /// register (privileged; enforced at decode).
    fn move_usp(&mut self, direction: UspDirection, register: AddressRegister)
        requires
            old(self).registers.wf(),
        ensures
            final(self).registers.wf(),
            spec_move_usp_effect(
                old(self).registers,
                final(self).registers,
                Seq::<BusOp>::empty(),
                Seq::<BusOp>::empty(),
                direction,
                register,
            ),
            *final(self) == (InstructionExecutor { registers: final(self).registers, ..*old(self) }),
            direction == UspDirection::UspToRegister && register.0 & 0x7 != 7
                ==> final(self).registers.a@ == old(self).registers.a@.update(
                (register.0 & 0x7) as int,
                old(self).registers.usp,
            ),
            direction == UspDirection::RegisterToUsp && register.0 & 0x7 != 7
                ==> final(self).registers == (Registers {
                usp: old(self).registers.a[(register.0 & 0x7) as int],
                ..old(self).registers
            }),
    {
        match direction {
            UspDirection::RegisterToUsp => {
                let value = self.registers.address(register);
                self.registers.usp = value;
            }
            UspDirection::UspToRegister => {
                let value = self.registers.usp;
                self.registers.set_address(register, value);
            }
        }
    }

    /// MOVE from SR: store the status register as a word.
    fn move_from_sr<B: BusInterface>(&mut self, bus: &mut B, dest: AddressingMode) -> (r: ExecuteResult<()>)
        requires
            old(self).registers.wf(),
        ensures
            final(self).registers.wf(),
            r is Err <==> dest is AddressDirect,
            r is Err ==> *final(self) == *old(self) && final(bus).ops() == old(bus).ops(),
            spec_move_from_sr_effect(
                old(self).registers,
                final(self).registers,
                old(bus).ops(),
                final(bus).ops(),
                dest,
            ),
            *final(self) == (InstructionExecutor { registers: final(self).registers, ..*old(self) }),
    {
        let value = self.registers.status_register() as u32;
        match dest {
            AddressingMode::AddressDirect(_) => Result::Err(
                Exception::IllegalInstruction(self.opcode),
            ),
            AddressingMode::DataDirect(register) => {
                let full = self.registers.data(register);
                let merged = merge_sized(OpSize::Word, full, value);
                self.registers.set_data(register, merged);
                Result::Ok(())
            }
            _ => {
                let ghost ops0 = bus.ops();
                let address = self.resolve_address(bus, dest, OpSize::Word);
                let ghost mid2 = self.registers;
                let ghost ops2 = bus.ops();
                self.write_memory_sized(bus, address, OpSize::Word, value);
                proof {
                    assert(spec_resolve_effect(
                        old(self).registers,
                        mid2,
                        ops0,
                        ops2,
                        dest,
                        OpSize::Word,
                        address,
                    ));
                }
                Result::Ok(())
            }
        }
    }

    /// MOVE to CCR: the low byte of a word operand replaces the flags.
    fn move_to_ccr<B: BusInterface>(&mut self, bus: &mut B, source: AddressingMode) -> (r: ExecuteResult<()>)
        requires
            old(self).registers.wf(),
        ensures
            final(self).registers.wf(),
            r is Ok,
            spec_move_to_ccr_effect(
                old(self).registers,
                final(self).registers,
                old(bus).ops(),
                final(bus).ops(),
                source,
            ),
            *final(self) == (InstructionExecutor { registers: final(self).registers, ..*old(self) }),
    {
        let value = self.read_operand(bus, source, OpSize::Word);
        let ghost mid = self.registers;
        self.registers.set_ccr((value % 0x100) as u8);
        proof {
            assert(spec_read_operand_effect(
                old(self).registers,
                mid,
                old(bus).ops(),
                bus.ops(),
                source,
                OpSize::Word,
                value,
            ));
        }
        Result::Ok(())
    }

    /// MOVE to SR (privileged; enforced at decode).
    fn move_to_sr<B: BusInterface>(&mut self, bus: &mut B, source: AddressingMode) -> (r: ExecuteResult<()>)
        requires
            old(self).registers.wf(),
        ensures
            final(self).registers.wf(),
            r is Ok,
            spec_move_to_sr_effect(
                old(self).registers,
                final(self).registers,
                old(bus).ops(),
                final(bus).ops(),
                source,
            ),
            *final(self) == (InstructionExecutor { registers: final(self).registers, ..*old(self) }),
    {
        let value = self.read_operand(bus, source, OpSize::Word);
        let ghost mid = self.registers;
        self.registers.set_status_register(value as u16);
        proof {
            assert(spec_read_operand_effect(
                old(self).registers,
                mid,
                old(bus).ops(),
                bus.ops(),
                source,
                OpSize::Word,
                value,
            ));
        }
        Result::Ok(())
    }

    /// The condition codes packed as a CCR byte.
    fn ccr_byte(&self) -> (r: u8)
        ensures
            r == ((if self.registers.ccr.extend { 0x10int } else { 0int })
                + (if self.registers.ccr.negative { 0x8int } else { 0int })
                + (if self.registers.ccr.zero { 0x4int } else { 0int })
                + (if self.registers.ccr.overflow { 0x2int } else { 0int })
                + (if self.registers.ccr.carry { 0x1int } else { 0int })),
            r == spec_ccr_byte(self.registers.ccr),
    {
        (if self.registers.ccr.extend { 0x10u8 } else { 0u8 })
            + (if self.registers.ccr.negative { 0x8u8 } else { 0u8 })
            + (if self.registers.ccr.zero { 0x4u8 } else { 0u8 })
            + (if self.registers.ccr.overflow { 0x2u8 } else { 0u8 })
            + (if self.registers.ccr.carry { 0x1u8 } else { 0u8 })
    }

    /// ANDI/ORI/EORI to CCR: combine an immediate byte into the flags.
    fn imm_to_ccr<B: BusInterface>(&mut self, bus: &mut B, op: u8) -> (r: ExecuteResult<()>)
        requires
            old(self).registers.wf(),
        ensures
            final(self).registers.wf(),
            r is Ok,
            spec_imm_to_ccr_effect(
                old(self).registers,
                final(self).registers,
                old(bus).ops(),
                final(bus).ops(),
                op,
            ),
            *final(self) == (InstructionExecutor { registers: final(self).registers, ..*old(self) }),
    {
        let imm = self.read_immediate(bus, OpSize::Byte);
        let ghost mid = self.registers;
        proof {
            assert(spec_read_immediate_effect(
                old(self).registers,
                mid,
                old(bus).ops(),
                bus.ops(),
                OpSize::Byte,
                imm,
            ));
        }
        let current = self.ccr_byte();
        let combined = if op == 0 {
            current & (imm as u8)
        } else if op == 1 {
            current | (imm as u8)
        } else {
            current ^ (imm as u8)
        };
        self.registers.set_ccr(combined);
        Result::Ok(())
    }

    /// ANDI/ORI/EORI to SR: combine an immediate word into the whole
    /// status register (privileged; enforced at decode).
    fn imm_to_sr<B: BusInterface>(&mut self, bus: &mut B, op: u8) -> (r: ExecuteResult<()>)
        requires
            old(self).registers.wf(),
        ensures
            final(self).registers.wf(),
            r is Ok,
            spec_imm_to_sr_effect(
                old(self).registers,
                final(self).registers,
                old(bus).ops(),
                final(bus).ops(),
                op,
            ),
            *final(self) == (InstructionExecutor { registers: final(self).registers, ..*old(self) }),
    {
        let imm = self.read_immediate(bus, OpSize::Word);
        let ghost mid = self.registers;
        proof {
            assert(spec_read_immediate_effect(
                old(self).registers,
                mid,
                old(bus).ops(),
                bus.ops(),
                OpSize::Word,
                imm,
            ));
        }
        let current = self.registers.status_register();
        let combined = if op == 0 {
            current & (imm as u16)
        } else if op == 1 {
            current | (imm as u16)
        } else {
            current ^ (imm as u16)
        };
        self.registers.set_status_register(combined);
        Result::Ok(())
    }

    /// Fetch, decode, and execute one instruction: one opcode word is
    /// fetched at PC (recorded in `opcode`), decoded exactly as
    /// [`spec_decode_opcode`] states, and on success the decoded
    /// instruction's whole transition ([`spec_instruction_effect`]) is
    /// applied. Success is owed for every instruction decode admits.
    pub fn do_execute<B: BusInterface>(&mut self, bus: &mut B) -> (r: ExecuteResult<()>)
        requires
            old(self).registers.wf(),
        ensures
            final(self).registers.wf(),
            ({
                let opcode = final(self).opcode;
                let fetched = BusOp::ReadWord { address: old(self).registers.pc, value: opcode };
                let decoded = spec_decode_opcode(opcode, old(self).registers.supervisor_mode);
                let mid = Registers {
                    pc: crate::bits::spec_wadd32(old(self).registers.pc, 2),
                    ..old(self).registers
                };
                &&& (r is Ok <==> decoded is Ok)
                &&& (r matches Err(e) ==> {
                    &&& decoded == Result::<Instruction, Exception>::Err(e)
                    &&& final(self).registers == mid
                    &&& final(bus).ops() == old(bus).ops().push(fetched)
                })
                &&& (decoded matches Ok(i) ==> {
                    &&& final(self).instruction == Some(i)
                    &&& spec_instruction_effect(
                        mid,
                        final(self).registers,
                        old(bus).ops().push(fetched),
                        final(bus).ops(),
                        i,
                    )
                })
            }),
            r is Err ==> final(self).registers == (Registers {
                pc: crate::bits::spec_wadd32(old(self).registers.pc, 2),
                ..old(self).registers
            }),
    {
        let opcode = self.fetch_operand(bus);
        self.opcode = opcode;

        let instruction = match decode_opcode(opcode, self.registers.supervisor_mode) {
            Result::Ok(instruction) => instruction,
            Result::Err(exception) => {
                return Result::Err(exception);
            }
        };
        self.instruction = Option::Some(instruction);

        match instruction {
            Instruction::Add { size, source, dest } => self.add(bus, size, source, dest),
            Instruction::AddExtend { size, source, dest } => self.addx(bus, size, source, dest),
            Instruction::And { size, source, dest } => self.logic_op(bus, size, source, dest, 0),
            Instruction::AndToCcr => self.imm_to_ccr(bus, 0),
            Instruction::AndToSr => self.imm_to_sr(bus, 0),
            Instruction::ExclusiveOr { size, source, dest } => self.logic_op(
                bus,
                size,
                source,
                dest,
                2,
            ),
            Instruction::ExclusiveOrToCcr => self.imm_to_ccr(bus, 2),
            Instruction::ExclusiveOrToSr => self.imm_to_sr(bus, 2),
            Instruction::Move { size, source, dest } => self.move_(bus, size, source, dest),
            Instruction::MoveFromSr(dest) => self.move_from_sr(bus, dest),
            Instruction::MoveToCcr(source) => self.move_to_ccr(bus, source),
            Instruction::MoveToSr(source) => self.move_to_sr(bus, source),
            Instruction::MoveQuick(data, register) => {
                self.moveq(data, register);
                Result::Ok(())
            }
            Instruction::MoveUsp(direction, register) => {
                self.move_usp(direction, register);
                Result::Ok(())
            }
            Instruction::Or { size, source, dest } => self.logic_op(bus, size, source, dest, 1),
            Instruction::OrToCcr => self.imm_to_ccr(bus, 1),
            Instruction::OrToSr => self.imm_to_sr(bus, 1),
        }
    }
}

} // verus!
