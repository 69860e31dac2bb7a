use retrocore::gb::apu::pulse::PulseChannel;
use retrocore::gb::sm83::bus::{BusInterface, FlatBus};
use retrocore::gb::sm83::Sm83;
use retrocore::genesis::api::GenesisRegion;
use retrocore::genesis::memory::{Cartridge, MainBus, Memory, Z80BankRegister};
use retrocore::genesis::ports::{InputState, PsgPort, VdpPort, YmPort};
use retrocore::savestate::{
    decode_bytes, decode_genesis_memory, decode_pulse_channel, decode_sm83, encode_bytes,
    encode_genesis_memory, encode_pulse_channel, encode_sm83,
};
use retrocore::TimingMode;

#[test]
fn sm83_snapshot_roundtrips() {
    let mut cpu = Sm83::new();
    cpu.registers.a = 0x42;
    cpu.registers.sp = 0xC0FE;
    cpu.registers.pc = 0x1234;
    cpu.registers.ime = true;
    cpu.state.halted = true;

    let mut data = Vec::new();
    encode_sm83(&cpu, &mut data);
    assert_eq!(data.len(), 19);
    let (restored, end) = decode_sm83(&data, 0).unwrap();
    assert_eq!(end, 19);
    assert_eq!(restored, cpu);
}

#[test]
fn pulse_snapshot_roundtrips() {
    let mut ch = PulseChannel::new();
    ch.write_register_0(0x19);
    ch.write_register_1(0x8A);
    ch.write_register_2(0xF3);
    ch.write_register_3(0xD0);
    ch.write_register_4(0x87, 1);
    for _ in 0..7 {
        ch.tick_m_cycle();
    }

    let mut data = Vec::new();
    encode_pulse_channel(&ch, &mut data);
    assert_eq!(data.len(), 24);
    let (restored, end) = decode_pulse_channel(&data, 0).unwrap();
    assert_eq!(end, 24);
    assert_eq!(restored, ch);
}

#[test]
fn byte_blob_roundtrips_with_following_data() {
    let blob = vec![9u8, 8, 7, 6, 5];
    let mut data = Vec::new();
    encode_bytes(&blob, &mut data);
    // A second field after the blob decodes from the returned position.
    data.push(0xEE);
    let (restored, end) = decode_bytes(&data, 0).unwrap();
    assert_eq!(restored, blob);
    assert_eq!(data[end], 0xEE);
}

#[test]
fn truncated_snapshots_are_rejected() {
    let mut cpu_bytes = Vec::new();
    encode_sm83(&Sm83::new(), &mut cpu_bytes);
    cpu_bytes.truncate(10);
    assert!(decode_sm83(&cpu_bytes, 0).is_none());
    assert!(decode_pulse_channel(&cpu_bytes, 0).is_none());
    // A length prefix promising more bytes than exist is rejected.
    let bad = vec![10u8, 0, 0, 0, 1, 2];
    assert!(decode_bytes(&bad, 0).is_none());
}

fn run_one(cpu: &mut Sm83, bus: &mut FlatBus) {
    cpu.execute_instruction(bus);
}

#[test]
fn restored_machine_continues_identically() {
    // A little program: counts in B, writes B to memory, loops.
    // 0x100: INC B ; LD A,B ; LD ($C000),A ; ADD A,$11 ; JP $0100
    let program: [u8; 10] = [0x04, 0x78, 0xEA, 0x00, 0xC0, 0xC6, 0x11, 0xC3, 0x00, 0x01];
    let mut cpu = Sm83::new();
    let mut bus = FlatBus::new();
    for (i, b) in program.iter().enumerate() {
        bus.poke(0x0100 + i as u16, *b);
    }

    // Run mid-way through the loop.
    for _ in 0..7 {
        run_one(&mut cpu, &mut bus);
    }

    // Snapshot the full machine state: CPU registers plus RAM contents.
    let mut snapshot = Vec::new();
    encode_sm83(&cpu, &mut snapshot);
    encode_bytes(&bus.mem, &mut snapshot);

    // Restore into a fresh machine.
    let (mut restored_cpu, pos) = decode_sm83(&snapshot, 0).unwrap();
    let (ram, _) = decode_bytes(&snapshot, pos).unwrap();
    let mut restored_bus = FlatBus::new();
    for (i, b) in ram.iter().enumerate() {
        restored_bus.poke(i as u16, *b);
    }

    // Both machines run on and stay in lock-step: identical registers and
    // identical bus-visible state after every further instruction.
    for step in 0..25 {
        run_one(&mut cpu, &mut bus);
        run_one(&mut restored_cpu, &mut restored_bus);
        assert_eq!(cpu, restored_cpu, "state diverged at step {step}");
        assert_eq!(
            bus.peek(0xC000),
            restored_bus.peek(0xC000),
            "memory diverged at step {step}"
        );
    }
}

#[test]
fn snapshot_excludes_nothing_needed_for_sample_output() {
    // A restored pulse channel produces the same samples as the original.
    let mut ch = PulseChannel::new();
    ch.write_register_2(0xF0);
    ch.write_register_1(0x80);
    ch.write_register_3(0xFC);
    ch.write_register_4(0x87, 1);
    for _ in 0..6 {
        ch.tick_m_cycle();
    }

    let mut data = Vec::new();
    encode_pulse_channel(&ch, &mut data);
    let (mut restored, _) = decode_pulse_channel(&data, 0).unwrap();

    for _ in 0..32 {
        ch.tick_m_cycle();
        restored.tick_m_cycle();
        assert_eq!(ch.sample(), restored.sample());
    }
}

#[test]
fn interrupt_state_survives_a_snapshot() {
    let mut cpu = Sm83::new();
    let mut bus = FlatBus::new();
    bus.poke(0x0100, 0xFB); // EI
    bus.poke(0x0101, 0x00); // NOP
    cpu.execute_instruction(&mut bus);

    let mut data = Vec::new();
    encode_sm83(&cpu, &mut data);
    let (restored, _) = decode_sm83(&data, 0).unwrap();
    assert!(restored.state.pending_ime_set);
    assert_eq!(restored, cpu);
}

#[test]
fn genesis_memory_snapshot_roundtrips_without_rom() {
    // Build a machine with battery RAM and scribble on its state.
    let mut rom = vec![0u8; 0x400];
    rom[0x1F0] = b'U';
    rom[0x1B0] = b'R';
    rom[0x1B1] = b'A';
    rom[0x1B5] = 0x20; // RAM $200000-$2000FF
    rom[0x1B9] = 0x20;
    rom[0x1BA] = 0x00;
    rom[0x1BB] = 0xFF;
    let cart = Cartridge::from_rom(rom, None, None);
    let mut bus = MainBus::new(
        Memory::new(cart),
        VdpPort::new(),
        PsgPort::new(),
        YmPort::new(),
        InputState::new(),
        TimingMode::Ntsc,
        false,
    );
    bus.write_word(0xFF1234, 0xABCD);
    bus.write_byte(0x200042, 0x77);
    bus.write_memory(0x0123, 0x9C).unwrap();
    bus.write_memory(0x6000, 1).unwrap();
    bus.write_memory(0x6000, 1).unwrap();
    bus.write_byte(0xA11100, 0x01);

    let mut snapshot = Vec::new();
    encode_genesis_memory(&bus.memory, &mut snapshot);

    let (mut restored, end) = decode_genesis_memory(&snapshot, 0).unwrap();
    assert_eq!(end, snapshot.len());
    // The snapshot carries no ROM; re-attach the one from the running
    // machine, as a loader would.
    restored.take_rom_from(&mut bus.memory);

    assert_eq!(restored.hardware_region(), GenesisRegion::Americas);
    assert_eq!(restored.cartridge.rom_address_mask, 0x3FF);
    assert_eq!(
        restored.z80_bank_register,
        // Two one-bits shifted into the 9-bit register.
        Z80BankRegister { bank_number: 0x180, current_bit: 0 },
    );
    assert!(restored.signals.z80_busreq);
    assert!(restored.cartridge.external_memory.dirty);
    assert_eq!(restored.cartridge.external_memory.ram[0x42], 0x77);
    assert_eq!(restored.main_ram[0x1234], 0xAB);
    assert_eq!(restored.main_ram[0x1235], 0xCD);
    assert_eq!(restored.audio_ram[0x123], 0x9C);
    assert_eq!(restored.read_word_for_dma(0xFF1234), 0xABCD);
}

#[test]
fn corrupt_genesis_snapshots_are_rejected() {
    // Too short for even the first length prefix.
    assert!(decode_genesis_memory(&vec![1u8, 2, 3], 0).is_none());
    // A main-RAM blob of the wrong size is rejected as inconsistent.
    let mut bad = Vec::new();
    encode_bytes(&vec![0u8; 16], &mut bad);
    encode_bytes(&vec![0u8; 16], &mut bad);
    bad.extend_from_slice(&[0u8; 22]);
    encode_bytes(&vec![0u8; 0], &mut bad);
    assert!(decode_genesis_memory(&bad, 0).is_none());
}
