use retrocore::genesis::memory::{Cartridge, MainBus, Memory};
use retrocore::genesis::ports::{InputState, PsgPort, VdpPort, YmPort};
use retrocore::m68k::instructions::{decode_opcode, Instruction, InstructionExecutor};
use retrocore::m68k::{AddressingMode, Exception, OpSize, Registers};
use retrocore::TimingMode;

fn bus_with_program(program: &[u8]) -> MainBus {
    let mut rom = vec![0u8; 0x400];
    rom[0x1F0] = b'U';
    for (i, b) in program.iter().enumerate() {
        rom[i] = *b;
    }
    let cart = Cartridge::from_rom(rom, None, None);
    MainBus::new(
        Memory::new(cart),
        VdpPort::new(),
        PsgPort::new(),
        YmPort::new(),
        InputState::new(),
        TimingMode::Ntsc,
        false,
    )
}

#[test]
fn decode_moveq() {
    let decoded = decode_opcode(0x7005, true).unwrap();
    match decoded {
        Instruction::MoveQuick(data, register) => {
            assert_eq!(data, 5);
            assert_eq!(register.0, 0);
        }
        other => panic!("unexpected decode: {other:?}"),
    }
    // Negative constant.
    match decode_opcode(0x72FF, true).unwrap() {
        Instruction::MoveQuick(data, register) => {
            assert_eq!(data, -1);
            assert_eq!(register.0, 1);
        }
        other => panic!("unexpected decode: {other:?}"),
    }
}

#[test]
fn decode_add_both_directions() {
    // ADD.L D0,D1 (ea -> register).
    match decode_opcode(0xD280, true).unwrap() {
        Instruction::Add { size, source, dest } => {
            assert_eq!(size, OpSize::LongWord);
            assert!(matches!(source, AddressingMode::DataDirect(r) if r.0 == 0));
            assert!(matches!(dest, AddressingMode::DataDirect(r) if r.0 == 1));
        }
        other => panic!("unexpected decode: {other:?}"),
    }
    // ADD.W D1,(A0) (register -> memory).
    match decode_opcode(0xD350, true).unwrap() {
        Instruction::Add { size, source, dest } => {
            assert_eq!(size, OpSize::Word);
            assert!(matches!(source, AddressingMode::DataDirect(r) if r.0 == 1));
            assert!(matches!(dest, AddressingMode::AddressIndirect(r) if r.0 == 0));
        }
        other => panic!("unexpected decode: {other:?}"),
    }
}

#[test]
fn decode_adda_uses_address_destination() {
    // ADDA.W D2,A3: 1101 011 011 000 010.
    match decode_opcode(0xD6C2, true).unwrap() {
        Instruction::Add { size, source, dest } => {
            assert_eq!(size, OpSize::Word);
            assert!(matches!(source, AddressingMode::DataDirect(r) if r.0 == 2));
            assert!(matches!(dest, AddressingMode::AddressDirect(r) if r.0 == 3));
        }
        other => panic!("unexpected decode: {other:?}"),
    }
}

#[test]
fn decode_privileged_and_illegal_and_unimplemented() {
    // MOVE to SR in user mode is a privilege violation.
    assert_eq!(decode_opcode(0x46C0, false), Err(Exception::PrivilegeViolation));
    // The same in supervisor mode decodes.
    assert!(matches!(decode_opcode(0x46C0, true), Ok(Instruction::MoveToSr(_))));
    // Group $A000 is unassigned.
    assert_eq!(
        decode_opcode(0xA000, true),
        Err(Exception::IllegalInstruction(0xA000))
    );
    // SUB is explicitly unimplemented.
    assert_eq!(decode_opcode(0x9040, true), Err(Exception::Unimplemented(0x9040)));
    // ANDI to CCR decodes regardless of mode.
    assert_eq!(decode_opcode(0x023C, false), Ok(Instruction::AndToCcr));
}

#[test]
fn decode_is_total_over_all_opcodes() {
    for opcode in 0u32..=0xFFFF {
        // Either result is fine; decoding must classify every word.
        let _ = decode_opcode(opcode as u16, false);
        let _ = decode_opcode(opcode as u16, true);
    }
}

#[test]
fn source_and_dest_addressing_modes() {
    let add = decode_opcode(0xD280, true).unwrap();
    assert!(add.source_addressing_mode().is_some());
    assert!(add.dest_addressing_mode().is_some());
    let to_ccr = decode_opcode(0x023C, true).unwrap();
    assert_eq!(to_ccr.source_addressing_mode(), None);
    assert_eq!(to_ccr.dest_addressing_mode(), None);
}

#[test]
fn moveq_then_add_long() {
    // MOVEQ #5,D0 ; MOVEQ #7,D1 ; ADD.L D0,D1.
    let mut bus = bus_with_program(&[0x70, 0x05, 0x72, 0x07, 0xD2, 0x80]);
    let mut exec = InstructionExecutor::new(Registers::new());
    assert_eq!(exec.do_execute(&mut bus), Ok(()));
    assert_eq!(exec.registers.d[0], 5);
    assert_eq!(exec.do_execute(&mut bus), Ok(()));
    assert_eq!(exec.do_execute(&mut bus), Ok(()));
    assert_eq!(exec.registers.d[1], 12);
    assert!(!exec.registers.ccr.zero);
    assert!(!exec.registers.ccr.carry);
}

#[test]
fn add_byte_sets_carry_and_leaves_upper_bits() {
    // MOVEQ #-1,D0 (all ones) ; ADDI.B #1,D0: byte result 0, carry set,
    // upper bits of D0 untouched.
    let mut bus = bus_with_program(&[0x70, 0xFF, 0x06, 0x00, 0x00, 0x01]);
    let mut exec = InstructionExecutor::new(Registers::new());
    exec.do_execute(&mut bus).unwrap();
    exec.do_execute(&mut bus).unwrap();
    assert_eq!(exec.registers.d[0], 0xFFFFFF00);
    assert!(exec.registers.ccr.carry);
    assert!(exec.registers.ccr.extend);
    assert!(exec.registers.ccr.zero);
    assert!(!exec.registers.ccr.overflow);
}

#[test]
fn add_word_overflow_flag() {
    // MOVEQ #0,D0; ADDI.W #$7FFF,D0; ADDI.W #1,D0 -> signed overflow.
    let mut bus = bus_with_program(&[
        0x70, 0x00, 0x06, 0x40, 0x7F, 0xFF, 0x06, 0x40, 0x00, 0x01,
    ]);
    let mut exec = InstructionExecutor::new(Registers::new());
    exec.do_execute(&mut bus).unwrap();
    exec.do_execute(&mut bus).unwrap();
    exec.do_execute(&mut bus).unwrap();
    assert_eq!(exec.registers.d[0] & 0xFFFF, 0x8000);
    assert!(exec.registers.ccr.overflow);
    assert!(exec.registers.ccr.negative);
    assert!(!exec.registers.ccr.carry);
}

#[test]
fn move_to_memory_and_back() {
    // MOVEQ #$11,D0 ; MOVE.W D0,$FF0000 (absolute long) ;
    // MOVE.W $FF0000,D2.
    let mut bus = bus_with_program(&[
        0x70, 0x11, // MOVEQ
        0x33, 0xC0, 0x00, 0xFF, 0x00, 0x00, // MOVE.W D0,($FF0000).L
        0x34, 0x39, 0x00, 0xFF, 0x00, 0x00, // MOVE.W ($FF0000).L,D2
    ]);
    let mut exec = InstructionExecutor::new(Registers::new());
    exec.do_execute(&mut bus).unwrap();
    exec.do_execute(&mut bus).unwrap();
    assert_eq!(bus.read_word(0xFF0000), 0x0011);
    exec.do_execute(&mut bus).unwrap();
    assert_eq!(exec.registers.d[2] & 0xFFFF, 0x0011);
}

#[test]
fn movea_sign_extends_and_sets_no_flags() {
    // MOVEQ #0,D3 (sets Z) ; MOVEA.W #$8000,A0: A0 = $FFFF8000, Z kept.
    let mut bus = bus_with_program(&[0x76, 0x00, 0x30, 0x7C, 0x80, 0x00]);
    let mut exec = InstructionExecutor::new(Registers::new());
    exec.do_execute(&mut bus).unwrap();
    assert!(exec.registers.ccr.zero);
    exec.do_execute(&mut bus).unwrap();
    assert_eq!(exec.registers.a[0], 0xFFFF8000);
    assert!(exec.registers.ccr.zero);
}

#[test]
fn addq_adds_a_small_constant() {
    // MOVEQ #10,D0 ; ADDQ.L #8,D0 (quick field 0 encodes 8).
    let mut bus = bus_with_program(&[0x70, 0x0A, 0x50, 0x80]);
    let mut exec = InstructionExecutor::new(Registers::new());
    exec.do_execute(&mut bus).unwrap();
    exec.do_execute(&mut bus).unwrap();
    assert_eq!(exec.registers.d[0], 18);
}

#[test]
fn andi_to_ccr_clears_flags() {
    // MOVEQ #0,D0 (sets Z) ; ANDI to CCR #0 clears everything.
    let mut bus = bus_with_program(&[0x70, 0x00, 0x02, 0x3C, 0x00, 0x00]);
    let mut exec = InstructionExecutor::new(Registers::new());
    exec.do_execute(&mut bus).unwrap();
    assert!(exec.registers.ccr.zero);
    exec.do_execute(&mut bus).unwrap();
    assert!(!exec.registers.ccr.zero);
}

#[test]
fn unimplemented_opcode_reports_and_preserves_registers() {
    let mut bus = bus_with_program(&[0x90, 0x40]); // SUB.W
    let mut exec = InstructionExecutor::new(Registers::new());
    assert_eq!(exec.do_execute(&mut bus), Err(Exception::Unimplemented(0x9040)));
}

#[test]
fn and_or_with_memory_operand() {
    // MOVE.W #$F0F0,$FF0010 ; MOVEQ #$0F,D1 ... use OR.W $FF0010,D1.
    let mut bus = bus_with_program(&[
        0x33, 0xFC, 0xF0, 0xF0, 0x00, 0xFF, 0x00, 0x10, // MOVE.W #$F0F0,($FF0010).L
        0x72, 0x0F, // MOVEQ #$F,D1
        0x82, 0x79, 0x00, 0xFF, 0x00, 0x10, // OR.W ($FF0010).L,D1
    ]);
    let mut exec = InstructionExecutor::new(Registers::new());
    exec.do_execute(&mut bus).unwrap();
    assert_eq!(bus.read_word(0xFF0010), 0xF0F0);
    exec.do_execute(&mut bus).unwrap();
    exec.do_execute(&mut bus).unwrap();
    assert_eq!(exec.registers.d[1] & 0xFFFF, 0xF0FF);
    assert!(exec.registers.ccr.negative);
}

#[test]
fn move_usp_requires_supervisor() {
    assert_eq!(decode_opcode(0x4E60, false), Err(Exception::PrivilegeViolation));
    let mut bus = bus_with_program(&[0x4E, 0x68]); // MOVE USP,A0
    let mut exec = InstructionExecutor::new(Registers::new());
    exec.registers.usp = 0x1234;
    exec.do_execute(&mut bus).unwrap();
    assert_eq!(exec.registers.a[0], 0x1234);
}

#[test]
fn user_mode_never_decodes_a_privileged_instruction() {
    for opcode in 0u32..=0xFFFF {
        if let Ok(instruction) = decode_opcode(opcode as u16, false) {
            let privileged = matches!(
                instruction,
                Instruction::AndToSr
                    | Instruction::OrToSr
                    | Instruction::ExclusiveOrToSr
                    | Instruction::MoveToSr(_)
                    | Instruction::MoveUsp(..)
            );
            assert!(!privileged, "opcode {opcode:#06x} decoded privileged in user mode");
        }
    }
}
