use retrocore::snes::memory::{CpuInternalRegisters, Memory, Memory2Speed};

#[test]
fn lorom_mapping_halves_the_bank_byte() {
    let mut rom = vec![0u8; 0x10000];
    rom[0x8123] = 0xAB;
    let mut memory = Memory::from_rom(rom);
    // Address $018123 maps to ROM offset ($010000 >> 1) | $0123 = $8123.
    assert_eq!(memory.read_cartridge(0x018123), 0xAB);
}

#[test]
fn small_roms_mirror_by_wrapping() {
    let mut rom = vec![0u8; 0x100];
    rom[0x23] = 0x77;
    let mut memory = Memory::from_rom(rom);
    // Offset $0123 wraps modulo the 0x100-byte image.
    assert_eq!(memory.read_cartridge(0x000123), 0x77);
}

#[test]
fn cartridge_writes_are_ignored() {
    let rom = vec![0x55u8; 0x100];
    let mut memory = Memory::from_rom(rom);
    memory.write_cartridge(0x000000, 0x00);
    assert_eq!(memory.read_cartridge(0x000000), 0x55);
}

#[test]
fn wram_masks_to_seventeen_bits() {
    let mut memory = Memory::from_rom(vec![0u8; 0x100]);
    memory.write_wram(0x7E1234, 0x42);
    // Only the low 17 address bits matter.
    assert_eq!(memory.read_wram(0x001234 | 0x20000 * 3), 0x42);
}

#[test]
fn wram_port_autoincrements_and_wraps() {
    let mut memory = Memory::from_rom(vec![0u8; 0x100]);
    memory.write_wram_port_address_low(0xFF);
    memory.write_wram_port_address_mid(0xFF);
    memory.write_wram_port_address_high(0xFF); // only one bit decoded
    memory.write_wram_port(0xAA); // writes $1FFFF, then wraps to 0
    memory.write_wram_port(0xBB); // writes $00000
    assert_eq!(memory.read_wram(0x1FFFF), 0xAA);
    assert_eq!(memory.read_wram(0x00000), 0xBB);
    // Point the port back at 0 and read through it.
    memory.write_wram_port_address_low(0x00);
    memory.write_wram_port_address_mid(0x00);
    memory.write_wram_port_address_high(0x00);
    assert_eq!(memory.read_wram_port(), 0xBB);
}

#[test]
fn wram_port_address_bytes_assemble() {
    let mut memory = Memory::from_rom(vec![0u8; 0x100]);
    memory.write_wram_port_address_low(0x34);
    memory.write_wram_port_address_mid(0x12);
    memory.write_wram_port_address_high(0x01);
    memory.write_wram_port(0x99);
    assert_eq!(memory.read_wram(0x11234), 0x99);
}

#[test]
fn multiplication_writes_product_and_quotient_register() {
    let mut regs = CpuInternalRegisters::new();
    regs.write_register(0x4202, 0xFF);
    regs.write_register(0x4203, 0xFF);
    // 255 * 255 = 65025 = $FE01.
    assert_eq!(regs.read_register(0x4216), 0x01);
    assert_eq!(regs.read_register(0x4217), 0xFE);
    // Multiplication always writes operand B to the division quotient.
    assert_eq!(regs.read_register(0x4214), 0xFF);
    assert_eq!(regs.read_register(0x4215), 0x00);
}

#[test]
fn division_sets_quotient_and_remainder() {
    let mut regs = CpuInternalRegisters::new();
    regs.write_register(0x4204, 0x39); // dividend low: $1239 = 4665
    regs.write_register(0x4205, 0x12);
    regs.write_register(0x4206, 0x07); // divide by 7: 666 rem 3
    assert_eq!(regs.read_register(0x4214), (666u16 & 0xFF) as u8);
    assert_eq!(regs.read_register(0x4215), (666u16 >> 8) as u8);
    assert_eq!(regs.read_register(0x4216), 3);
    assert_eq!(regs.read_register(0x4217), 0);
}

#[test]
fn division_by_zero_saturates() {
    let mut regs = CpuInternalRegisters::new();
    regs.write_register(0x4204, 0xCD);
    regs.write_register(0x4205, 0xAB);
    regs.write_register(0x4206, 0x00);
    // Quotient $FFFF, remainder = dividend.
    assert_eq!(regs.read_register(0x4214), 0xFF);
    assert_eq!(regs.read_register(0x4215), 0xFF);
    assert_eq!(regs.read_register(0x4216), 0xCD);
    assert_eq!(regs.read_register(0x4217), 0xAB);
}

#[test]
fn nmitimen_sets_interrupt_state() {
    let mut regs = CpuInternalRegisters::new();
    regs.write_register(0x4200, 0xB1);
    assert!(regs.nmi_enabled);
    assert!(regs.auto_joypad_read_enabled);
    // Bits 4-5 = 11 -> IRQ on H and V.
    assert_eq!(format!("{:?}", regs.irq_mode), "HV");
}

#[test]
fn memsel_switches_memory_2_speed() {
    let mut regs = CpuInternalRegisters::new();
    assert_eq!(regs.memory_2_speed(), Memory2Speed::Slow);
    regs.write_register(0x420D, 0x01);
    assert_eq!(regs.memory_2_speed(), Memory2Speed::Fast);
    regs.write_register(0x420D, 0x00);
    assert_eq!(regs.memory_2_speed(), Memory2Speed::Slow);
}

#[test]
fn htime_and_vtime_assemble_nine_bits() {
    let mut regs = CpuInternalRegisters::new();
    regs.write_register(0x4207, 0x34);
    regs.write_register(0x4208, 0xFF); // only bit 0 decoded
    assert_eq!(regs.irq_htime, 0x134);
    regs.write_register(0x4209, 0xAB);
    regs.write_register(0x420A, 0x00);
    assert_eq!(regs.irq_vtime, 0x0AB);
}

#[test]
fn mdmaen_selects_channels() {
    let mut regs = CpuInternalRegisters::new();
    regs.write_register(0x420B, 0xA5);
    let expected = [true, false, true, false, false, true, false, true];
    for (i, e) in expected.iter().enumerate() {
        assert_eq!(regs.active_gpdma_channels[i], *e, "channel {i}");
    }
}

#[test]
fn dma_registers_address_their_channel() {
    let mut regs = CpuInternalRegisters::new();
    // Channel 3: DMAP, BBAD, A1T low/high, bank, byte counter.
    regs.write_register(0x4330, 0x98);
    regs.write_register(0x4331, 0x18);
    regs.write_register(0x4332, 0x00);
    regs.write_register(0x4333, 0x80);
    regs.write_register(0x4334, 0x7E);
    regs.write_register(0x4335, 0x00);
    regs.write_register(0x4336, 0x04);

    assert_eq!(regs.dma_transfer_unit[3], 0x00);
    assert_eq!(regs.dma_bus_b_address[3], 0x18);
    assert_eq!(regs.gpdma_current_address[3], 0x8000);
    assert_eq!(regs.dma_bank[3], 0x7E);
    assert_eq!(regs.gpdma_byte_counter[3], 0x0400);
    // Other channels keep their reset values.
    assert_eq!(regs.dma_bus_b_address[0], 0xFF);
    assert_eq!(regs.gpdma_current_address[0], 0xFFFF);
}

#[test]
fn hdma_registers_of_a_channel() {
    let mut regs = CpuInternalRegisters::new();
    regs.write_register(0x4317, 0x40);
    regs.write_register(0x4318, 0x34);
    regs.write_register(0x4319, 0x12);
    assert_eq!(regs.hdma_indirect_bank[1], 0x40);
    assert_eq!(regs.hdma_table_current_address[1], 0x1234);
}

#[test]
fn joywr_and_wrio_are_accepted_and_ignored() {
    let mut regs = CpuInternalRegisters::new();
    let before = regs.clone();
    regs.write_register(0x4016, 0xFF);
    regs.write_register(0x4201, 0xFF);
    assert_eq!(regs.multiply_product, before.multiply_product);
    assert_eq!(regs.irq_htime, before.irq_htime);
}

#[test]
fn unimplemented_registers_read_as_open_bus() {
    let mut regs = CpuInternalRegisters::new();
    regs.write_register(0x4202, 0x10);
    regs.write_register(0x4203, 0x10);
    // NMI flag, timer flags, joypad ports: unimplemented, open bus.
    assert_eq!(regs.read_register(0x4210), 0xFF);
    assert_eq!(regs.read_register(0x4212), 0xFF);
    assert_eq!(regs.read_register(0x4218), 0xFF);
    // The read changed nothing: the arithmetic registers still read back.
    assert_eq!(regs.read_register(0x4216), 0x00);
    assert_eq!(regs.read_register(0x4217), 0x01);
}

#[test]
fn unimplemented_register_writes_are_ignored() {
    let mut regs = CpuInternalRegisters::new();
    regs.write_register(0x4202, 0x12);
    regs.write_register(0x4203, 0x34);
    let before = regs.clone();
    // Two unassigned $42xx registers and a DMA channel offset past $9:
    // all ignored.
    regs.write_register(0x420E, 0x55);
    regs.write_register(0x4211, 0x55);
    regs.write_register(0x430A, 0x55);
    // HDMAEN with channels selected: HBlank DMA is unimplemented; ignored.
    regs.write_register(0x420C, 0x05);
    assert_eq!(regs.multiply_product, before.multiply_product);
    assert_eq!(regs.division_quotient, before.division_quotient);
    assert_eq!(regs.active_gpdma_channels, before.active_gpdma_channels);
    assert_eq!(regs.memory_2_speed, before.memory_2_speed);
}
