use retrocore::gb::sm83::bus::{BusInterface, FlatBus};
use retrocore::gb::sm83::{InterruptType, Sm83};

const INVALID_OPCODES: [u8; 11] = [
    0xD3, 0xDB, 0xDD, 0xE3, 0xE4, 0xEB, 0xEC, 0xED, 0xF4, 0xFC, 0xFD,
];

fn machine_with_program(program: &[u8]) -> (Sm83, FlatBus) {
    let cpu = Sm83::new();
    let mut bus = FlatBus::new();
    for (i, byte) in program.iter().enumerate() {
        bus.poke(0x0100u16.wrapping_add(i as u16), *byte);
    }
    (cpu, bus)
}

#[test]
fn every_primary_opcode_decodes_without_panicking() {
    for opcode in 0u16..=0xFF {
        let opcode = opcode as u8;
        let (mut cpu, mut bus) = machine_with_program(&[opcode, 0x00, 0x00]);
        cpu.execute_instruction(&mut bus);
        let invalid = INVALID_OPCODES.contains(&opcode);
        assert_eq!(
            cpu.state.executed_invalid_opcode, invalid,
            "opcode {opcode:#04x} misclassified"
        );
        assert_eq!(cpu.state.stopped, opcode == 0x10);
    }
}

#[test]
fn every_cb_opcode_decodes_without_panicking() {
    for opcode in 0u16..=0xFF {
        let (mut cpu, mut bus) = machine_with_program(&[0xCB, opcode as u8]);
        cpu.execute_instruction(&mut bus);
        assert!(!cpu.state.executed_invalid_opcode);
    }
}

#[test]
fn locked_cpu_stays_locked() {
    let (mut cpu, mut bus) = machine_with_program(&[0xD3, 0x00]);
    cpu.execute_instruction(&mut bus);
    assert!(cpu.state.executed_invalid_opcode);
    let pc = cpu.registers.pc;
    cpu.execute_instruction(&mut bus);
    cpu.execute_instruction(&mut bus);
    assert!(cpu.state.executed_invalid_opcode);
    assert_eq!(cpu.registers.pc, pc);
}

#[test]
fn add_sets_exact_flags() {
    // LD A,$3A ; ADD A,$C6 -> 0x00, carry and half-carry and zero set.
    let (mut cpu, mut bus) = machine_with_program(&[0x3E, 0x3A, 0xC6, 0xC6]);
    cpu.execute_instruction(&mut bus);
    cpu.execute_instruction(&mut bus);
    assert_eq!(cpu.registers.a, 0x00);
    assert!(cpu.registers.f.zero);
    assert!(!cpu.registers.f.subtract);
    assert!(cpu.registers.f.half_carry);
    assert!(cpu.registers.f.carry);
}

#[test]
fn inc_preserves_carry_flag() {
    // SCF ; INC B: INC is documented not to touch carry.
    let (mut cpu, mut bus) = machine_with_program(&[0x37, 0x04]);
    cpu.execute_instruction(&mut bus);
    assert!(cpu.registers.f.carry);
    cpu.execute_instruction(&mut bus);
    assert!(cpu.registers.f.carry);
    assert_eq!(cpu.registers.b, 0x01);
}

#[test]
fn loads_do_not_touch_flags() {
    // SCF ; LD B,$7F ; LD C,B
    let (mut cpu, mut bus) = machine_with_program(&[0x37, 0x06, 0x7F, 0x48]);
    cpu.execute_instruction(&mut bus);
    let flags = cpu.registers.f;
    cpu.execute_instruction(&mut bus);
    cpu.execute_instruction(&mut bus);
    assert_eq!(cpu.registers.f, flags);
    assert_eq!(cpu.registers.b, 0x7F);
    assert_eq!(cpu.registers.c, 0x7F);
}

#[test]
fn daa_adjusts_bcd_addition() {
    // LD A,$15 ; ADD A,$27 ; DAA -> BCD 15 + 27 = 42.
    let (mut cpu, mut bus) = machine_with_program(&[0x3E, 0x15, 0xC6, 0x27, 0x27]);
    cpu.execute_instruction(&mut bus);
    cpu.execute_instruction(&mut bus);
    cpu.execute_instruction(&mut bus);
    assert_eq!(cpu.registers.a, 0x42);
    assert!(!cpu.registers.f.carry);
}

#[test]
fn interrupt_service_pushes_pc_and_jumps_to_vector() {
    // EI ; NOP ; NOP then a pending timer interrupt.
    let (mut cpu, mut bus) = machine_with_program(&[0xFB, 0x00, 0x00, 0x00]);
    cpu.execute_instruction(&mut bus); // EI (takes effect after next instruction)
    cpu.execute_instruction(&mut bus); // NOP; IME now set
    assert!(cpu.registers.ime);

    bus.set_pending_interrupt(Some(InterruptType::Timer));
    cpu.execute_instruction(&mut bus); // NOP at 0x102; poll arms the service
    assert!(cpu.state.handling_interrupt);

    let sp_before = cpu.registers.sp;
    cpu.execute_instruction(&mut bus); // service the interrupt
    assert_eq!(cpu.registers.pc, 0x0050);
    assert!(!cpu.registers.ime);
    assert_eq!(cpu.registers.sp, sp_before.wrapping_sub(2));
    // The return address 0x0103 was pushed high byte first.
    assert_eq!(bus.peek(sp_before.wrapping_sub(1)), 0x01);
    assert_eq!(bus.peek(sp_before.wrapping_sub(2)), 0x03);
    // Exactly the serviced source was acknowledged.
    assert_eq!(bus.highest_priority_interrupt(), None);
}

#[test]
fn each_interrupt_kind_reaches_its_vector() {
    let cases = [
        (InterruptType::VBlank, 0x0040u16),
        (InterruptType::LcdStatus, 0x0048),
        (InterruptType::Timer, 0x0050),
        (InterruptType::Serial, 0x0058),
        (InterruptType::Joypad, 0x0060),
    ];
    for (interrupt, vector) in cases {
        let (mut cpu, mut bus) = machine_with_program(&[0xFB, 0x00, 0x00, 0x00]);
        cpu.execute_instruction(&mut bus);
        cpu.execute_instruction(&mut bus);
        bus.set_pending_interrupt(Some(interrupt));
        cpu.execute_instruction(&mut bus);
        cpu.execute_instruction(&mut bus);
        assert_eq!(cpu.registers.pc, vector, "wrong vector for {interrupt:?}");
    }
}

#[test]
fn halt_resumes_without_service_when_ime_clear() {
    // HALT with IME clear and no pending interrupt.
    let (mut cpu, mut bus) = machine_with_program(&[0x76, 0x04]);
    cpu.execute_instruction(&mut bus);
    assert!(cpu.state.halted);
    // Idles while nothing is pending.
    cpu.execute_instruction(&mut bus);
    assert!(cpu.state.halted);
    // An interrupt wakes the CPU, but with IME clear it is not serviced.
    bus.set_pending_interrupt(Some(InterruptType::VBlank));
    cpu.execute_instruction(&mut bus);
    assert!(!cpu.state.halted);
    assert_eq!(cpu.registers.b, 0x01); // INC B at 0x101 ran
    assert!(bus.highest_priority_interrupt().is_some());
}

#[test]
fn halt_bug_repeats_the_following_byte() {
    // With IME clear and an interrupt already pending, HALT arms the halt
    // bug: the next opcode fetch does not advance PC, so the INC B that
    // follows executes twice.
    let (mut cpu, mut bus) = machine_with_program(&[0x76, 0x04, 0x00]);
    bus.set_pending_interrupt(Some(InterruptType::Joypad));
    cpu.execute_instruction(&mut bus); // HALT: halt bug armed
    assert!(cpu.state.halt_bug_triggered);
    cpu.execute_instruction(&mut bus); // INC B, PC not advanced
    cpu.execute_instruction(&mut bus); // INC B again
    assert_eq!(cpu.registers.b, 2);
}

#[test]
fn di_cancels_pending_ei() {
    // EI ; DI ; NOP: IME must stay clear.
    let (mut cpu, mut bus) = machine_with_program(&[0xFB, 0xF3, 0x00]);
    cpu.execute_instruction(&mut bus);
    cpu.execute_instruction(&mut bus);
    cpu.execute_instruction(&mut bus);
    assert!(!cpu.registers.ime);
}

#[test]
fn stack_push_pop_roundtrip() {
    // LD BC,$1234 ; PUSH BC ; POP DE
    let (mut cpu, mut bus) = machine_with_program(&[0x01, 0x34, 0x12, 0xC5, 0xD1]);
    cpu.execute_instruction(&mut bus);
    cpu.execute_instruction(&mut bus);
    cpu.execute_instruction(&mut bus);
    assert_eq!(cpu.registers.d, 0x12);
    assert_eq!(cpu.registers.e, 0x34);
    assert_eq!(cpu.registers.sp, 0xFFFE);
}

#[test]
fn jumps_and_calls_transfer_control() {
    // JP $0200 ; at 0x200: CALL $0300 ; at 0x300: RET
    let (mut cpu, mut bus) = machine_with_program(&[0xC3, 0x00, 0x02]);
    bus.poke(0x0200, 0xCD);
    bus.poke(0x0201, 0x00);
    bus.poke(0x0202, 0x03);
    bus.poke(0x0300, 0xC9);
    cpu.execute_instruction(&mut bus);
    assert_eq!(cpu.registers.pc, 0x0200);
    cpu.execute_instruction(&mut bus);
    assert_eq!(cpu.registers.pc, 0x0300);
    cpu.execute_instruction(&mut bus);
    assert_eq!(cpu.registers.pc, 0x0203);
}

#[test]
fn conditional_jump_respects_flags() {
    // XOR A (sets Z) ; JR NZ,+2 (not taken) ; JR Z,+1 (taken, skips INC B) ; INC B ; INC C
    let (mut cpu, mut bus) = machine_with_program(&[0xAF, 0x20, 0x02, 0x28, 0x01, 0x04, 0x0C]);
    cpu.execute_instruction(&mut bus);
    assert!(cpu.registers.f.zero);
    cpu.execute_instruction(&mut bus);
    assert_eq!(cpu.registers.pc, 0x0103);
    cpu.execute_instruction(&mut bus);
    assert_eq!(cpu.registers.pc, 0x0106);
    cpu.execute_instruction(&mut bus);
    assert_eq!(cpu.registers.b, 0x00);
    // C holds its DMG post-boot value 0x13, incremented once.
    assert_eq!(cpu.registers.c, 0x14);
}

#[test]
fn cb_bit_and_set_and_rotate() {
    // LD A,$80 ; CB RLC A (-> 0x01, carry) ; CB SET 7,A ; CB BIT 7,A
    let (mut cpu, mut bus) = machine_with_program(&[
        0x3E, 0x80, 0xCB, 0x07, 0xCB, 0xFF, 0xCB, 0x7F,
    ]);
    cpu.execute_instruction(&mut bus);
    cpu.execute_instruction(&mut bus);
    assert_eq!(cpu.registers.a, 0x01);
    assert!(cpu.registers.f.carry);
    cpu.execute_instruction(&mut bus);
    assert_eq!(cpu.registers.a, 0x81);
    cpu.execute_instruction(&mut bus);
    assert!(!cpu.registers.f.zero);
    assert!(cpu.registers.f.half_carry);
}

#[test]
fn memory_via_hl_reads_and_writes() {
    // LD HL,$C000 ; LD (HL),$5A ; INC (HL) ; LD A,(HL)
    let (mut cpu, mut bus) = machine_with_program(&[
        0x21, 0x00, 0xC0, 0x36, 0x5A, 0x34, 0x7E,
    ]);
    cpu.execute_instruction(&mut bus);
    cpu.execute_instruction(&mut bus);
    assert_eq!(bus.peek(0xC000), 0x5A);
    cpu.execute_instruction(&mut bus);
    assert_eq!(bus.peek(0xC000), 0x5B);
    cpu.execute_instruction(&mut bus);
    assert_eq!(cpu.registers.a, 0x5B);
}

#[test]
fn add_hl_rr_preserves_zero_flag() {
    // XOR A (Z set) ; LD HL,$0FFF ; LD BC,$0001 ; ADD HL,BC
    let (mut cpu, mut bus) = machine_with_program(&[
        0xAF, 0x21, 0xFF, 0x0F, 0x01, 0x01, 0x00, 0x09,
    ]);
    for _ in 0..4 {
        cpu.execute_instruction(&mut bus);
    }
    assert_eq!(cpu.registers.h, 0x10);
    assert_eq!(cpu.registers.l, 0x00);
    assert!(cpu.registers.f.zero); // Z unaffected by ADD HL,rr
    assert!(cpu.registers.f.half_carry);
    assert!(!cpu.registers.f.carry);
}
