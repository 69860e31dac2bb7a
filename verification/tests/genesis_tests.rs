use retrocore::genesis::api::{z80_cycle_budget, GenesisError, GenesisRegion};
use retrocore::genesis::memory::{Cartridge, MainBus, Memory};
use retrocore::genesis::ports::{InputState, InterruptLine, PsgPort, VdpPort, YmPort};
use retrocore::TimingMode;

fn rom_with_region(code: &[u8]) -> Vec<u8> {
    let mut rom = vec![0u8; 0x400];
    for (i, b) in code.iter().enumerate() {
        rom[0x1F0 + i] = *b;
    }
    rom
}

#[test]
fn region_u_selects_americas_regardless_of_other_bytes() {
    assert_eq!(
        GenesisRegion::from_rom(&rom_with_region(b"JUE")),
        Some(GenesisRegion::Americas)
    );
    assert_eq!(
        GenesisRegion::from_rom(&rom_with_region(b"EEU")),
        Some(GenesisRegion::Americas)
    );
    assert_eq!(
        GenesisRegion::from_rom(&rom_with_region(b"U  ")),
        Some(GenesisRegion::Americas)
    );
}

#[test]
fn region_fallback_order_is_japan_then_europe() {
    assert_eq!(
        GenesisRegion::from_rom(&rom_with_region(b"JE ")),
        Some(GenesisRegion::Japan)
    );
    assert_eq!(
        GenesisRegion::from_rom(&rom_with_region(b"E  ")),
        Some(GenesisRegion::Europe)
    );
}

#[test]
fn region_hex_bitmask_fallback() {
    // '4' = bit 2 -> Americas.
    assert_eq!(
        GenesisRegion::from_rom(&rom_with_region(b"4  ")),
        Some(GenesisRegion::Americas)
    );
    // '1' = bit 0 -> Japan (Asia).
    assert_eq!(
        GenesisRegion::from_rom(&rom_with_region(b"1  ")),
        Some(GenesisRegion::Japan)
    );
    // '8' = bit 3 -> Europe.
    assert_eq!(
        GenesisRegion::from_rom(&rom_with_region(b"8  ")),
        Some(GenesisRegion::Europe)
    );
    // '0' = no bits -> unrecognised.
    assert_eq!(GenesisRegion::from_rom(&rom_with_region(b"0  ")), None);
    // Not a hex digit at all.
    assert_eq!(GenesisRegion::from_rom(&rom_with_region(b"X  ")), None);
}

#[test]
fn version_bit_and_timing_mode() {
    assert!(GenesisRegion::Americas.version_bit());
    assert!(GenesisRegion::Europe.version_bit());
    assert!(!GenesisRegion::Japan.version_bit());
    assert_eq!(GenesisRegion::Europe.default_timing_mode(), TimingMode::Pal);
    assert_eq!(GenesisRegion::Japan.default_timing_mode(), TimingMode::Ntsc);
}

#[test]
fn unrecognised_region_falls_back_to_americas() {
    let cart = Cartridge::from_rom(rom_with_region(b"0  "), None, None);
    assert_eq!(cart.region, GenesisRegion::Americas);
}

#[test]
fn cartridge_title_trims_and_collapses_spaces() {
    let mut rom = rom_with_region(b"U  ");
    let title = b"  SONIC    THE   HEDGEHOG  ";
    for (i, b) in title.iter().enumerate() {
        rom[0x150 + i] = *b;
    }
    // Pad the rest of the 48-byte field with spaces.
    for i in title.len()..48 {
        rom[0x150 + i] = b' ';
    }
    let cart = Cartridge::from_rom(rom, None, Some(GenesisRegion::Americas));
    let memory = Memory::new(cart);
    assert_eq!(memory.cartridge_title(), "SONIC THE HEDGEHOG");
}

fn rom_with_sram() -> Vec<u8> {
    let mut rom = rom_with_region(b"U  ");
    rom[0x1B0] = b'R';
    rom[0x1B1] = b'A';
    // RAM at $200000-$2003FF.
    rom[0x1B4] = 0x00;
    rom[0x1B5] = 0x20;
    rom[0x1B6] = 0x00;
    rom[0x1B7] = 0x00;
    rom[0x1B8] = 0x00;
    rom[0x1B9] = 0x20;
    rom[0x1BA] = 0x03;
    rom[0x1BB] = 0xFF;
    rom
}

#[test]
fn external_ram_write_sets_dirty_and_reads_back() {
    let cart = Cartridge::from_rom(rom_with_sram(), None, None);
    let mut memory = Memory::new(cart);
    assert!(memory.cartridge_ram_persistent());
    assert!(!memory.get_and_clear_cartridge_ram_dirty());

    let mut bus = MainBus::new(
        memory,
        VdpPort::new(),
        PsgPort::new(),
        YmPort::new(),
        InputState::new(),
        TimingMode::Ntsc,
        false,
    );
    bus.write_byte(0x200010, 0xAB);
    assert_eq!(bus.read_byte(0x200010), 0xAB);
    assert!(bus.memory.get_and_clear_cartridge_ram_dirty());
    assert!(!bus.memory.get_and_clear_cartridge_ram_dirty());

    let saved = bus.memory.take_cartridge_ram_if_persistent().unwrap();
    assert_eq!(saved.len(), 0x400);
    assert_eq!(saved[0x10], 0xAB);
}

fn fresh_bus() -> MainBus {
    let mut rom = rom_with_region(b"U  ");
    rom[0] = 0x12;
    rom[1] = 0x34;
    let cart = Cartridge::from_rom(rom, None, None);
    MainBus::new(
        Memory::new(cart),
        VdpPort::new(),
        PsgPort::new(),
        YmPort::new(),
        InputState::new(),
        TimingMode::Ntsc,
        false,
    )
}

#[test]
fn rom_reads_and_open_bus() {
    let mut bus = fresh_bus();
    assert_eq!(bus.read_byte(0x000000), 0x12);
    assert_eq!(bus.read_word(0x000000), 0x1234);
    // Past the ROM image: open bus.
    assert_eq!(bus.read_byte(0x300000), 0xFF);
    // Unmapped region.
    assert_eq!(bus.read_byte(0x800000), 0xFF);
}

#[test]
fn main_ram_word_writes_are_big_endian() {
    let mut bus = fresh_bus();
    bus.write_word(0xFF0000, 0xBEEF);
    assert_eq!(bus.read_byte(0xFF0000), 0xBE);
    assert_eq!(bus.read_byte(0xFF0001), 0xEF);
    assert_eq!(bus.read_word(0xFF0000), 0xBEEF);
    // The RAM window mirrors across the whole $E00000-$FFFFFF range.
    assert_eq!(bus.read_byte(0xE00000), 0xBE);
}

#[test]
fn version_register_encodes_region_and_timing() {
    let mut bus = fresh_bus();
    // Americas (export bit set), NTSC: 0x20 | 0x80.
    assert_eq!(bus.read_byte(0xA10001), 0xA0);
}

#[test]
fn vdp_byte_writes_duplicate_into_both_halves() {
    let mut bus = fresh_bus();
    bus.write_byte(0xC00001, 0x7E);
    assert_eq!(bus.vdp.data, 0x7E7E);
    assert_eq!(bus.read_word(0xC00000), 0x7E7E);
    // Control port by word.
    bus.write_word(0xC00004, 0x8004);
    assert_eq!(bus.vdp.control, 0x8004);
}

#[test]
fn psg_write_through_vdp_range() {
    let mut bus = fresh_bus();
    bus.write_byte(0xC00011, 0x9F);
    assert_eq!(bus.psg.last_write, 0x9F);
}

#[test]
fn z80_sound_ram_is_mirrored() {
    let mut bus = fresh_bus();
    assert_eq!(bus.write_memory(0x0005, 0x42), Ok(()));
    // Mirror at $2000-$3FFF.
    assert_eq!(bus.read_memory(0x2005), Ok(0x42));
    // The 68000 reaches the same byte through the $A00000 window.
    assert_eq!(bus.read_byte(0xA00005), 0x42);
    // And the mirror of the window's upper half.
    assert_eq!(bus.read_byte(0xA08005), 0x42);
}

#[test]
fn z80_busreq_and_reset_lines() {
    let mut bus = fresh_bus();
    assert!(!bus.busreq());
    assert!(bus.reset());
    bus.write_byte(0xA11100, 0x01);
    assert!(bus.busreq());
    bus.write_byte(0xA11200, 0x01);
    assert!(!bus.reset());
    // Word writes use bit 8.
    bus.write_word(0xA11100, 0x0000);
    assert!(!bus.busreq());
    bus.write_word(0xA11100, 0x0100);
    assert!(bus.busreq());
}

#[test]
fn z80_bank_window_reaches_the_68000_bus() {
    let mut bus = fresh_bus();
    bus.write_word(0xFF0000, 0xBEEF);
    // Shift in bank number 0x1FE (bits written LSB first): the window
    // then maps to $FF0000.
    for bit in [0, 1, 1, 1, 1, 1, 1, 1, 1] {
        assert_eq!(bus.write_memory(0x6000, bit), Ok(()));
    }
    assert_eq!(bus.read_memory(0x8000), Ok(0xBE));
    assert_eq!(bus.read_memory(0x8001), Ok(0xEF));
}

#[test]
fn z80_reading_its_own_window_is_a_lockup() {
    let mut bus = fresh_bus();
    // Bank 0x140 maps the window to $A00000: the Z80's own reserved
    // main-bus range.
    for bit in [0, 0, 0, 0, 0, 0, 1, 0, 1] {
        assert_eq!(bus.write_memory(0x6000, bit), Ok(()));
    }
    let err = bus.read_memory(0x8000).unwrap_err();
    assert_eq!(err.m68k_address, 0xA00000);
    assert_eq!(err.z80_address, 0x8000);
    assert!(bus.write_memory(0x8000, 0x00).is_err());
}

#[test]
fn controller_registers_read_back() {
    let mut bus = fresh_bus();
    bus.write_byte(0xA10003, 0x55);
    bus.write_byte(0xA10009, 0x40);
    assert_eq!(bus.read_byte(0xA10003), 0x55);
    assert_eq!(bus.read_byte(0xA10009), 0x40);
    // TxData reads as 0xFF, other I/O as 0x00.
    assert_eq!(bus.read_byte(0xA1000F), 0xFF);
    assert_eq!(bus.read_byte(0xA10011), 0x00);
}

#[test]
fn ym2612_ports_latch_and_read_status() {
    let mut bus = fresh_bus();
    assert_eq!(bus.write_memory(0x4000, 0x2A), Ok(()));
    assert_eq!(bus.write_memory(0x4001, 0x80), Ok(()));
    assert_eq!(bus.ym2612.address_1, 0x2A);
    assert_eq!(bus.ym2612.data_1, 0x80);
    assert_eq!(bus.read_memory(0x4123), Ok(0x00));
}

#[test]
fn interrupt_lines_come_from_the_vdp() {
    let mut bus = fresh_bus();
    bus.vdp.m68k_interrupt = 6;
    assert_eq!(bus.interrupt_level(), 6);
    bus.acknowledge_interrupt();
    assert_eq!(bus.interrupt_level(), 0);
    assert_eq!(bus.nmi(), InterruptLine::High);
    assert_eq!(bus.int_line(), InterruptLine::High);
}

#[test]
fn read_word_for_dma_reads_cartridge_and_ram() {
    let mut bus = fresh_bus();
    bus.write_word(0xFF0100, 0xCAFE);
    assert_eq!(bus.memory.read_word_for_dma(0x000000), 0x1234);
    assert_eq!(bus.memory.read_word_for_dma(0xFF0100), 0xCAFE);
    assert_eq!(bus.memory.read_word_for_dma(0x500000), 0xFF);
}

#[test]
fn take_rom_detaches_and_reattaches() {
    let mut bus = fresh_bus();
    let rom = bus.memory.take_rom();
    assert_eq!(rom[0], 0x12);
    assert_eq!(bus.read_byte(0x000000), 0xFF);

    let cart2 = Cartridge::from_rom(rom, None, Some(GenesisRegion::Americas));
    let mut other = Memory::new(cart2);
    bus.memory.take_rom_from(&mut other);
    assert_eq!(bus.read_byte(0x000000), 0x12);
}

#[test]
fn z80_cycle_budget_tracks_the_cumulative_clock() {
    // 10 m68k cycles = 70 master clocks -> 4 Z80 cycles, 10 left over.
    let (z80, total) = z80_cycle_budget(0, 10);
    assert_eq!(total, 70);
    assert_eq!(z80, 4);
    // Continuing from 70: another 70 master clocks -> 140 / 15 = 9 whole
    // periods; 9 - 4 = 5 this tick. No drift: 4 + 5 = 140 / 15.
    let (z80b, totalb) = z80_cycle_budget(total, 10);
    assert_eq!(totalb, 140);
    assert_eq!(z80b, 5);
}

#[test]
fn genesis_error_categories_name_the_collaborator() {
    let e: GenesisError<&str, &str, &str> = GenesisError::Render("boom");
    assert_eq!(e.category(), "rendering error");
    let e: GenesisError<&str, &str, &str> = GenesisError::Audio("boom");
    assert_eq!(e.category(), "audio output error");
    let e: GenesisError<&str, &str, &str> = GenesisError::Save("boom");
    assert_eq!(e.category(), "save write error");
}

#[test]
fn title_normalization_edge_cases() {
    // An all-space title collapses to the empty string.
    let mut rom = rom_with_region(b"U  ");
    for i in 0..48 {
        rom[0x150 + i] = b' ';
    }
    let memory = Memory::new(Cartridge::from_rom(rom, None, Some(GenesisRegion::Americas)));
    assert_eq!(memory.cartridge_title(), "");

    // Inner single spaces are kept; tabs are trimmed only at the ends.
    let mut rom = rom_with_region(b"U  ");
    let title = b"\tA B\t";
    for (i, b) in title.iter().enumerate() {
        rom[0x150 + i] = *b;
    }
    for i in title.len()..48 {
        rom[0x150 + i] = b' ';
    }
    let memory = Memory::new(Cartridge::from_rom(rom, None, Some(GenesisRegion::Americas)));
    assert_eq!(memory.cartridge_title(), "A B");
}
