//! SNES memory: LoROM cartridge address mapping, 128 KiB work RAM with its
//! auto-incrementing WRAM port, and the CPU internal registers (multiplier,
//! divider, IRQ timers, and the DMA channel configuration block).

use vstd::prelude::*;
use crate::bits::{bit8, spec_bit8};

verus! {

/// Work RAM size: 128 KiB.
pub const MAIN_RAM_LEN: usize = 0x20000;

/// Where a cartridge address lands after mapping.
#[derive(Debug, Clone, Copy, PartialEq, Eq, Structural)]
pub enum CartridgeLocation {
    Rom(u32),
}

/// The cartridge address mapper.
#[derive(Debug, Clone, Copy, PartialEq, Eq, Structural)]
pub enum Mapper {
    LoRom,
}

impl Mapper {
    /// Guess the mapper from the ROM image. Only LoROM is recognised.
    pub fn guess_from_rom(rom: &[u8]) -> (r: Option<Mapper>)
        ensures
            r == Some(Mapper::LoRom),
    {
        let _ = rom;
        Option::Some(Mapper::LoRom)
    }

    /// LoROM: the bank byte is halved into a 15-bit-per-bank ROM offset.
    pub open spec fn spec_map_address(self, address: u32) -> CartridgeLocation {
        CartridgeLocation::Rom(((address & 0xFF0000) >> 1) | (address & 0x7FFF))
    }

    pub fn map_address(self, address: u32) -> (r: CartridgeLocation)
        ensures
            r == self.spec_map_address(address),
    {
        match self {
            Self::LoRom => {
                let rom_addr = ((address & 0xFF0000) >> 1) | (address & 0x7FFF);
                CartridgeLocation::Rom(rom_addr)
            }
        }
    }
}

/// ROM image plus its mapper.
#[derive(Debug, Clone)]
pub struct Cartridge {
    pub rom: Vec<u8>,
    pub mapper: Mapper,
}

/// Waitstate setting for the Memory-2 region.
#[derive(Debug, Clone, Copy, PartialEq, Eq, Structural)]
pub enum Memory2Speed {
    Fast,
    Slow,
}

impl Memory2Speed {
    /// MEMSEL: bit 0 selects fast waitstates.
    pub fn from_byte(byte: u8) -> (r: Self)
        ensures
            r == (if spec_bit8(byte, 0) { Memory2Speed::Fast } else { Memory2Speed::Slow }),
    {
        if bit8(byte, 0) { Self::Fast } else { Self::Slow }
    }
}

/// Cartridge, work RAM, and the $2180-$2183 WRAM port address.
#[derive(Debug, Clone)]
pub struct Memory {
    pub cartridge: Cartridge,
    pub main_ram: Vec<u8>,
    pub wram_port_address: u32,
}

impl Memory {
    pub open spec fn wf(self) -> bool {
        &&& self.main_ram.len() == MAIN_RAM_LEN
        &&& self.wram_port_address < MAIN_RAM_LEN
        &&& self.cartridge.rom.len() > 0
    }

    /// Build the memory system from a ROM image, with zeroed work RAM.
    pub fn from_rom(rom: Vec<u8>) -> (r: Self)
        requires
            rom.len() > 0,
        ensures
            r.wf(),
            r.cartridge.rom@ == rom@,
            r.cartridge.mapper == Mapper::LoRom,
            r.wram_port_address == 0,
            forall|i: int| 0 <= i < MAIN_RAM_LEN ==> r.main_ram[i] == 0u8,
    {
        let mapper = match Mapper::guess_from_rom(rom.as_slice()) {
            Option::Some(mapper) => mapper,
            Option::None => Mapper::LoRom,
        };
        let cartridge = Cartridge { rom, mapper };

        let mut main_ram: Vec<u8> = Vec::new();
        let mut i: usize = 0;
        while i < MAIN_RAM_LEN
            invariant
                i <= MAIN_RAM_LEN,
                main_ram.len() == i,
                forall|j: int| 0 <= j < i ==> main_ram[j] == 0u8,
            decreases MAIN_RAM_LEN - i,
        {
            main_ram.push(0);
            i = i + 1;
        }

        Self { cartridge, main_ram, wram_port_address: 0 }
    }

    /// Read through the cartridge mapper; ROM smaller than the mapped space
    /// is mirrored by wrapping the offset.
    pub fn read_cartridge(&mut self, address: u32) -> (r: u8)
        requires
            old(self).wf(),
        ensures
            *final(self) == *old(self),
            ({
                let rom_addr = ((address & 0xFF0000) >> 1) | (address & 0x7FFF);
                r == old(self).cartridge.rom[rom_addr as int % old(self).cartridge.rom.len() as int]
            }),
    {
        match self.cartridge.mapper.map_address(address) {
            CartridgeLocation::Rom(rom_addr) => {
                self.cartridge.rom[(rom_addr as usize) % self.cartridge.rom.len()]
            }
        }
    }

    /// Writes through the LoROM mapper hit ROM, which ignores them
    /// (no cartridge SRAM is mapped).
    pub fn write_cartridge(&mut self, address: u32, value: u8)
        requires
            old(self).wf(),
        ensures
            *final(self) == *old(self),
    {
        let _ = address;
        let _ = value;
    }

    /// Read work RAM; only the low 17 address bits are decoded.
    pub fn read_wram(&self, address: u32) -> (r: u8)
        requires
            self.wf(),
        ensures
            r == self.main_ram[(address as int) % 0x20000],
    {
        proof {
            crate::bits::lemma_mask_1ffff_u32(address);
        }
        self.main_ram[(address & 0x1FFFF) as usize]
    }

    /// Write work RAM; only the low 17 address bits are decoded.
    pub fn write_wram(&mut self, address: u32, value: u8)
        requires
            old(self).wf(),
        ensures
            final(self).wf(),
            final(self).main_ram@ == old(self).main_ram@.update(
                (address as int) % 0x20000,
                value,
            ),
            final(self).cartridge == old(self).cartridge,
            final(self).wram_port_address == old(self).wram_port_address,
    {
        proof {
            crate::bits::lemma_mask_1ffff_u32(address);
        }
        self.main_ram.set((address & 0x1FFFF) as usize, value);
    }

    /// Read the WRAM port and post-increment its address (wrapping at the
    /// RAM size).
    pub fn read_wram_port(&mut self) -> (r: u8)
        requires
            old(self).wf(),
        ensures
            final(self).wf(),
            r == old(self).main_ram[old(self).wram_port_address as int],
            final(self).main_ram@ == old(self).main_ram@,
            final(self).cartridge == old(self).cartridge,
            final(self).wram_port_address == (old(self).wram_port_address + 1) % 0x20000,
    {
        let value = self.main_ram[self.wram_port_address as usize];
        self.increment_wram_port_address();
        value
    }

    /// Write the WRAM port and post-increment its address.
    pub fn write_wram_port(&mut self, value: u8)
        requires
            old(self).wf(),
        ensures
            final(self).wf(),
            final(self).main_ram@ == old(self).main_ram@.update(
                old(self).wram_port_address as int,
                value,
            ),
            final(self).cartridge == old(self).cartridge,
            final(self).wram_port_address == (old(self).wram_port_address + 1) % 0x20000,
    {
        self.main_ram.set(self.wram_port_address as usize, value);
        self.increment_wram_port_address();
    }

    fn increment_wram_port_address(&mut self)
        requires
            old(self).wf(),
        ensures
            final(self).wf(),
            final(self).main_ram@ == old(self).main_ram@,
            final(self).cartridge == old(self).cartridge,
            final(self).wram_port_address == (old(self).wram_port_address + 1) % 0x20000,
    {
        proof {
            crate::bits::lemma_mask_1ffff_u32((self.wram_port_address + 1) as u32);
        }
        self.wram_port_address = (self.wram_port_address + 1) & 0x1FFFF;
    }

    /// $2181: low byte of the WRAM port address.
    pub fn write_wram_port_address_low(&mut self, value: u8)
        requires
            old(self).wf(),
        ensures
            final(self).wf(),
            final(self).wram_port_address == (old(self).wram_port_address & 0xFFFF00)
                | (value as u32),
            final(self).main_ram@ == old(self).main_ram@,
            final(self).cartridge == old(self).cartridge,
    {
        proof {
            let a = self.wram_port_address;
            assert((a & 0xFFFF00) | (value as u32) < 0x20000) by (bit_vector)
                requires
                    a < 0x20000u32,
            ;
        }
        self.wram_port_address = (self.wram_port_address & 0xFFFF00) | (value as u32);
    }

    /// $2182: middle byte of the WRAM port address.
    pub fn write_wram_port_address_mid(&mut self, value: u8)
        requires
            old(self).wf(),
        ensures
            final(self).wf(),
            final(self).wram_port_address == (old(self).wram_port_address & 0xFF00FF)
                | ((value as u32) << 8),
            final(self).main_ram@ == old(self).main_ram@,
            final(self).cartridge == old(self).cartridge,
    {
        proof {
            let a = self.wram_port_address;
            assert((a & 0xFF00FF) | ((value as u32) << 8) < 0x20000) by (bit_vector)
                requires
                    a < 0x20000u32,
            ;
        }
        self.wram_port_address = (self.wram_port_address & 0xFF00FF) | ((value as u32) << 8);
    }

    /// $2183: high byte of the WRAM port address; only one bit is decoded.
    pub fn write_wram_port_address_high(&mut self, value: u8)
        requires
            old(self).wf(),
        ensures
            final(self).wf(),
            final(self).wram_port_address == (old(self).wram_port_address & 0x00FFFF)
                | (((value & 0x01) as u32) << 16),
            final(self).main_ram@ == old(self).main_ram@,
            final(self).cartridge == old(self).cartridge,
    {
        proof {
            let a = self.wram_port_address;
            assert((a & 0x00FFFF) | (((value & 0x01) as u32) << 16) < 0x20000) by (bit_vector);
        }
        self.wram_port_address = (self.wram_port_address & 0x00FFFF)
            | (((value & 0x01) as u32) << 16);
    }
}

/// When the H/V timer raises an IRQ.
#[derive(Debug, Clone, Copy, PartialEq, Eq, Structural)]
pub enum IrqMode {
    Off,
    H,
    V,
    HV,
}

impl IrqMode {
    /// NMITIMEN bits 4-5.
    pub open spec fn spec_from_byte(byte: u8) -> IrqMode {
        if byte & 0x30 == 0x00 {
            IrqMode::Off
        } else if byte & 0x30 == 0x10 {
            IrqMode::H
        } else if byte & 0x30 == 0x20 {
            IrqMode::V
        } else {
            IrqMode::HV
        }
    }

    pub fn from_byte(byte: u8) -> (r: Self)
        ensures
            r == Self::spec_from_byte(byte),
    {
        if byte & 0x30 == 0x00 {
            Self::Off
        } else if byte & 0x30 == 0x10 {
            Self::H
        } else if byte & 0x30 == 0x20 {
            Self::V
        } else {
            Self::HV
        }
    }
}

/// DMA transfer direction.
#[derive(Debug, Clone, Copy, PartialEq, Eq, Structural)]
pub enum DmaDirection {
    AtoB,
    BtoA,
}

impl DmaDirection {
    pub fn from_byte(byte: u8) -> (r: Self)
        ensures
            r == (if spec_bit8(byte, 7) { DmaDirection::BtoA } else { DmaDirection::AtoB }),
    {
        if bit8(byte, 7) { Self::BtoA } else { Self::AtoB }
    }
}

/// HDMA table addressing mode.
#[derive(Debug, Clone, Copy, PartialEq, Eq, Structural)]
pub enum HdmaAddressingMode {
    Direct,
    Indirect,
}

impl HdmaAddressingMode {
    pub fn from_byte(byte: u8) -> (r: Self)
        ensures
            r == (if spec_bit8(byte, 6) {
                HdmaAddressingMode::Indirect
            } else {
                HdmaAddressingMode::Direct
            }),
    {
        if bit8(byte, 6) { Self::Indirect } else { Self::Direct }
    }
}

/// GPDMA bus-A address stepping.
#[derive(Debug, Clone, Copy, PartialEq, Eq, Structural)]
pub enum DmaIncrementMode {
    Fixed,
    Increment,
    Decrement,
}

impl DmaIncrementMode {
    /// DMAP bits 3-4.
    pub open spec fn spec_from_byte(byte: u8) -> DmaIncrementMode {
        if byte & 0x18 == 0x00 {
            DmaIncrementMode::Increment
        } else if byte & 0x18 == 0x10 {
            DmaIncrementMode::Decrement
        } else {
            DmaIncrementMode::Fixed
        }
    }

    pub fn from_byte(byte: u8) -> (r: Self)
        ensures
            r == Self::spec_from_byte(byte),
    {
        if byte & 0x18 == 0x00 {
            Self::Increment
        } else if byte & 0x18 == 0x10 {
            Self::Decrement
        } else {
            Self::Fixed
        }
    }
}

/// A vector holding `n` copies of `value`.
fn filled<T: Copy>(value: T, n: usize) -> (r: Vec<T>)
    ensures
        r.len() == n,
        forall|i: int| 0 <= i < n ==> r[i] == value,
{
    let mut r: Vec<T> = Vec::new();
    let mut i: usize = 0;
    while i < n
        invariant
            i <= n,
            r.len() == i,
            forall|j: int| 0 <= j < i ==> r[j] == value,
        decreases n - i,
    {
        r.push(value);
        i = i + 1;
    }
    r
}

/// The open-bus byte: what an unimplemented register reads as.
pub const REGISTER_OPEN_BUS: u8 = 0xFF;

/// Which CPU internal registers this block implements for writes; HDMAEN
/// acts only on a zero (HBlank DMA is not implemented), and a write
/// anywhere else in the block is ignored as the documented safe default.
pub open spec fn spec_register_writable(address: u32, value: u8) -> bool {
    let a = address & 0xFFFF;
    ||| a == 0x4016
    ||| a == 0x4200
    ||| a == 0x4201
    ||| (0x4202 <= a && a <= 0x420B)
    ||| (a == 0x420C && value == 0)
    ||| a == 0x420D
    ||| (0x4300 <= a && a <= 0x437F && spec_dma_register_writable(address))
}

/// The DMA registers this block implements: offsets $0-$9 of each channel.
pub open spec fn spec_dma_register_writable(address: u32) -> bool {
    0x4300 <= (address & 0xFF0F) && (address & 0xFF0F) <= 0x4309
}

/// Registers and ports on the 5A22 chip that are not part of the 65816:
/// interrupt enables, the multiplier/divider, and eight DMA channels.
#[derive(Debug, Clone)]
pub struct CpuInternalRegisters {
    pub nmi_enabled: bool,
    pub irq_mode: IrqMode,
    pub auto_joypad_read_enabled: bool,
    pub irq_htime: u16,
    pub irq_vtime: u16,
    pub multiply_operand_l: u8,
    pub multiply_operand_r: u8,
    pub multiply_product: u16,
    pub division_dividend: u16,
    pub division_divisor: u8,
    pub division_quotient: u16,
    pub memory_2_speed: Memory2Speed,
    pub active_gpdma_channels: Vec<bool>,
    pub dma_direction: Vec<DmaDirection>,
    pub hdma_addressing_mode: Vec<HdmaAddressingMode>,
    pub dma_increment_mode: Vec<DmaIncrementMode>,
    pub dma_transfer_unit: Vec<u8>,
    pub dma_bus_b_address: Vec<u8>,
    /// GPDMA current address, also used as the HDMA table start address.
    pub gpdma_current_address: Vec<u16>,
    pub dma_bank: Vec<u8>,
    /// GPDMA byte counter, also used as the HDMA indirect address.
    pub gpdma_byte_counter: Vec<u16>,
    pub hdma_indirect_bank: Vec<u8>,
    pub hdma_table_current_address: Vec<u16>,
    pub vblank_flag: bool,
    pub hblank_flag: bool,
    pub last_h: u16,
}

impl CpuInternalRegisters {
    pub open spec fn wf(self) -> bool {
        &&& self.active_gpdma_channels.len() == 8
        &&& self.dma_direction.len() == 8
        &&& self.hdma_addressing_mode.len() == 8
        &&& self.dma_increment_mode.len() == 8
        &&& self.dma_transfer_unit.len() == 8
        &&& self.dma_bus_b_address.len() == 8
        &&& self.gpdma_current_address.len() == 8
        &&& self.dma_bank.len() == 8
        &&& self.gpdma_byte_counter.len() == 8
        &&& self.hdma_indirect_bank.len() == 8
        &&& self.hdma_table_current_address.len() == 8
    }

    /// Power-on values: operands and addresses come up all-ones, DMA
    /// parameters in their documented reset state.
    pub fn new() -> (r: Self)
        ensures
            r.wf(),
            !r.nmi_enabled && r.irq_mode == IrqMode::Off && !r.auto_joypad_read_enabled,
            r.irq_htime == 0 && r.irq_vtime == 0,
            r.multiply_operand_l == 0xFF && r.multiply_operand_r == 0xFF && r.multiply_product == 0,
            r.division_dividend == 0xFFFF && r.division_divisor == 0xFF && r.division_quotient == 0,
            r.memory_2_speed == Memory2Speed::Slow,
            forall|i: int| 0 <= i < 8 ==> {
                &&& !r.active_gpdma_channels[i]
                &&& r.dma_direction[i] == DmaDirection::BtoA
                &&& r.hdma_addressing_mode[i] == HdmaAddressingMode::Indirect
                &&& r.dma_increment_mode[i] == DmaIncrementMode::Fixed
                &&& r.dma_transfer_unit[i] == 0x07u8
                &&& r.dma_bus_b_address[i] == 0xFFu8
                &&& r.gpdma_current_address[i] == 0xFFFFu16
                &&& r.dma_bank[i] == 0xFFu8
                &&& r.gpdma_byte_counter[i] == 0xFFFFu16
                &&& r.hdma_indirect_bank[i] == 0xFFu8
                &&& r.hdma_table_current_address[i] == 0xFFFFu16
            },
            !r.vblank_flag && !r.hblank_flag && r.last_h == 0,
    {
        Self {
            nmi_enabled: false,
            irq_mode: IrqMode::Off,
            auto_joypad_read_enabled: false,
            irq_htime: 0,
            irq_vtime: 0,
            multiply_operand_l: 0xFF,
            multiply_operand_r: 0xFF,
            multiply_product: 0,
            division_dividend: 0xFFFF,
            division_divisor: 0xFF,
            division_quotient: 0,
            memory_2_speed: Memory2Speed::Slow,
            active_gpdma_channels: filled(false, 8),
            dma_direction: filled(DmaDirection::BtoA, 8),
            hdma_addressing_mode: filled(HdmaAddressingMode::Indirect, 8),
            dma_increment_mode: filled(DmaIncrementMode::Fixed, 8),
            dma_transfer_unit: filled(0x07u8, 8),
            dma_bus_b_address: filled(0xFFu8, 8),
            gpdma_current_address: filled(0xFFFFu16, 8),
            dma_bank: filled(0xFFu8, 8),
            gpdma_byte_counter: filled(0xFFFFu16, 8),
            hdma_indirect_bank: filled(0xFFu8, 8),
            hdma_table_current_address: filled(0xFFFFu16, 8),
            vblank_flag: false,
            hblank_flag: false,
            last_h: 0,
        }
    }

    /// Read a CPU internal register, with no observable state change. The
    /// arithmetic results are implemented: the division quotient
    /// ($4214/$4215) and the multiply product / division remainder
    /// ($4216/$4217). Every other address in the block is an unimplemented
    /// register and reads as the open-bus constant.
    pub fn read_register(&mut self, address: u32) -> (r: u8)
        requires
            old(self).wf(),
        ensures
            *final(self) == *old(self),
            ({
                let a = address & 0xFFFF;
                &&& (a == 0x4214 ==> r == old(self).division_quotient & 0xFF)
                &&& (a == 0x4215 ==> r == old(self).division_quotient >> 8)
                &&& (a == 0x4216 ==> r == old(self).multiply_product & 0xFF)
                &&& (a == 0x4217 ==> r == old(self).multiply_product >> 8)
                &&& (!(0x4214 <= a && a <= 0x4217) ==> r == REGISTER_OPEN_BUS)
            }),
    {
        proof {
            crate::bits::lemma_bytes_u16(self.division_quotient);
            crate::bits::lemma_bytes_u16(self.multiply_product);
        }
        let masked = address & 0xFFFF;
        if masked == 0x4214 {
            // RDDIVL: division quotient, low byte
            (self.division_quotient & 0xFF) as u8
        } else if masked == 0x4215 {
            // RDDIVH: division quotient, high byte
            (self.division_quotient >> 8) as u8
        } else if masked == 0x4216 {
            // RDMPYL: multiply product / division remainder, low byte
            (self.multiply_product & 0xFF) as u8
        } else if masked == 0x4217 {
            // RDMPYH: multiply product / division remainder, high byte
            (self.multiply_product >> 8) as u8
        } else {
            // Unimplemented register: open bus.
            REGISTER_OPEN_BUS
        }
    }

    /// Write a CPU internal register. Every implemented register's effect is
    /// stated exactly; JOYWR and WRIO are accepted and ignored, and a write
    /// to any unimplemented register in the block is ignored (the documented
    /// safe default), leaving the state unchanged.
    pub fn write_register(&mut self, address: u32, value: u8)
        requires
            old(self).wf(),
        ensures
            final(self).wf(),
            !spec_register_writable(address, value) ==> *final(self) == *old(self),
            ({
                let a = address & 0xFFFF;
                &&& (a == 0x4016 || a == 0x4201 || (a == 0x420C && value == 0) ==>
                    *final(self) == *old(self))
                &&& (a == 0x4200 ==> *final(self) == (CpuInternalRegisters {
                    auto_joypad_read_enabled: spec_bit8(value, 0),
                    irq_mode: IrqMode::spec_from_byte(value),
                    nmi_enabled: spec_bit8(value, 7),
                    ..*old(self)
                }))
                &&& (a == 0x4202 ==> *final(self) == (CpuInternalRegisters {
                    multiply_operand_l: value,
                    ..*old(self)
                }))
                &&& (a == 0x4203 ==> *final(self) == (CpuInternalRegisters {
                    multiply_operand_r: value,
                    multiply_product: (old(self).multiply_operand_l * value) as u16,
                    division_quotient: value as u16,
                    ..*old(self)
                }))
                &&& (a == 0x4204 ==> *final(self) == (CpuInternalRegisters {
                    division_dividend: (old(self).division_dividend & 0xFF00) | (value as u16),
                    ..*old(self)
                }))
                &&& (a == 0x4205 ==> *final(self) == (CpuInternalRegisters {
                    division_dividend: (old(self).division_dividend & 0x00FF)
                        | ((value as u16) << 8),
                    ..*old(self)
                }))
                &&& (a == 0x4206 && value != 0 ==> *final(self) == (CpuInternalRegisters {
                    division_divisor: value,
                    division_quotient: (old(self).division_dividend as int
                        / (value as int)) as u16,
                    multiply_product: (old(self).division_dividend as int
                        % (value as int)) as u16,
                    ..*old(self)
                }))
                &&& (a == 0x4206 && value == 0 ==> *final(self) == (CpuInternalRegisters {
                    division_divisor: value,
                    division_quotient: 0xFFFFu16,
                    multiply_product: old(self).division_dividend,
                    ..*old(self)
                }))
                &&& (a == 0x4207 ==> *final(self) == (CpuInternalRegisters {
                    irq_htime: (old(self).irq_htime & 0xFF00) | (value as u16),
                    ..*old(self)
                }))
                &&& (a == 0x4208 ==> *final(self) == (CpuInternalRegisters {
                    irq_htime: (old(self).irq_htime & 0x00FF) | (((value & 0x01) as u16) << 8),
                    ..*old(self)
                }))
                &&& (a == 0x4209 ==> *final(self) == (CpuInternalRegisters {
                    irq_vtime: (old(self).irq_vtime & 0xFF00) | (value as u16),
                    ..*old(self)
                }))
                &&& (a == 0x420A ==> *final(self) == (CpuInternalRegisters {
                    irq_vtime: (old(self).irq_vtime & 0x00FF) | (((value & 0x01) as u16) << 8),
                    ..*old(self)
                }))
                &&& (a == 0x420B ==> {
                    &&& final(self).active_gpdma_channels.len() == 8
                    &&& (forall|i: int| 0 <= i < 8 ==> final(self).active_gpdma_channels[i]
                        == spec_bit8(value, i as u8))
                    &&& *final(self) == (CpuInternalRegisters {
                        active_gpdma_channels: final(self).active_gpdma_channels,
                        ..*old(self)
                    })
                })
                &&& (a == 0x420D ==> *final(self) == (CpuInternalRegisters {
                    memory_2_speed: if spec_bit8(value, 0) {
                        Memory2Speed::Fast
                    } else {
                        Memory2Speed::Slow
                    },
                    ..*old(self)
                }))
                &&& (0x4300 <= a && a <= 0x437F ==> spec_write_dma_ensures(
                    *old(self),
                    *final(self),
                    address,
                    value,
                ))
            }),
    {
        let masked = address & 0xFFFF;
        if masked == 0x4016 {
            // JOYWR: joypad output strobe; accepted and ignored.
        } else if masked == 0x4200 {
            // NMITIMEN: interrupt enable and joypad request
            self.auto_joypad_read_enabled = bit8(value, 0);
            self.irq_mode = IrqMode::from_byte(value);
            self.nmi_enabled = bit8(value, 7);
        } else if masked == 0x4201 {
            // WRIO: joypad programmable I/O port; accepted and ignored.
        } else if masked == 0x4202 {
            // WRMPYA: multiplication 8-bit operand A
            self.multiply_operand_l = value;
        } else if masked == 0x4203 {
            // WRMPYB: multiplication 8-bit operand B + start multiplication
            self.multiply_operand_r = value;
            proof {
                let l = self.multiply_operand_l;
                assert(l * value <= 255 * 255) by (nonlinear_arith)
                    requires
                        l <= 255,
                        value <= 255,
                ;
            }
            self.multiply_product = (self.multiply_operand_l as u16) * (value as u16);
            // Multiplication always writes operand B to the division
            // quotient register.
            self.division_quotient = value as u16;
        } else if masked == 0x4204 {
            // WRDIVL: division 16-bit dividend, low byte
            self.division_dividend = (self.division_dividend & 0xFF00) | (value as u16);
        } else if masked == 0x4205 {
            // WRDIVH: division 16-bit dividend, high byte
            self.division_dividend = (self.division_dividend & 0x00FF) | ((value as u16) << 8);
        } else if masked == 0x4206 {
            // WRDIVB: division 8-bit divisor + start division
            self.division_divisor = value;
            if value != 0 {
                self.division_quotient = self.division_dividend / (value as u16);
                // Division writes the remainder to the multiply product
                // register.
                self.multiply_product = self.division_dividend % (value as u16);
            } else {
                // Divide by 0 sets the quotient to $FFFF and the remainder
                // to the dividend.
                self.division_quotient = 0xFFFF;
                self.multiply_product = self.division_dividend;
            }
        } else if masked == 0x4207 {
            // HTIMEL: H-count timer setting, low byte
            self.irq_htime = (self.irq_htime & 0xFF00) | (value as u16);
        } else if masked == 0x4208 {
            // HTIMEH: H-count timer setting, high byte (one bit)
            self.irq_htime = (self.irq_htime & 0x00FF) | (((value & 0x01) as u16) << 8);
        } else if masked == 0x4209 {
            // VTIMEL: V-count timer setting, low byte
            self.irq_vtime = (self.irq_vtime & 0xFF00) | (value as u16);
        } else if masked == 0x420A {
            // VTIMEH: V-count timer setting, high byte (one bit)
            self.irq_vtime = (self.irq_vtime & 0x00FF) | (((value & 0x01) as u16) << 8);
        } else if masked == 0x420B {
            // MDMAEN: select general purpose DMA channels
            let mut i: usize = 0;
            while i < 8
                invariant
                    i <= 8,
                    self.active_gpdma_channels.len() == 8,
                    forall|j: int| 0 <= j < i ==> self.active_gpdma_channels[j]
                        == spec_bit8(value, j as u8),
                    *self == (CpuInternalRegisters {
                        active_gpdma_channels: self.active_gpdma_channels,
                        ..*old(self)
                    }),
                decreases 8 - i,
            {
                let flag = bit8(value, i as u8);
                self.active_gpdma_channels.set(i, flag);
                i = i + 1;
            }
        } else if masked == 0x420C {
            // HDMAEN: HBlank DMA is unimplemented; a zero (all channels off)
            // changes nothing, and a nonzero write is ignored.
        } else if masked == 0x420D {
            // MEMSEL: Memory-2 waitstate control
            self.memory_2_speed = Memory2Speed::from_byte(value);
        } else if 0x4300 <= masked && masked <= 0x437F {
            // DMA channel registers
            self.write_dma_register(address, value);
        } else {
            // Unimplemented register: the write is ignored.
        }
    }

    /// Write a DMA channel register; the channel index is the second-lowest
    /// address nibble. Offsets $A-$F of a channel are unimplemented and the
    /// write is ignored.
    pub fn write_dma_register(&mut self, address: u32, value: u8)
        requires
            old(self).wf(),
        ensures
            final(self).wf(),
            spec_write_dma_ensures(*old(self), *final(self), address, value),
    {
        let channel = ((address >> 4) & 0x7) as usize;
        proof {
            crate::bits::lemma_and_bound_u32(address >> 4, 0x7);
        }

        let reg = address & 0xFF0F;
        if reg == 0x4300 {
            // DMAPx: DMA parameters
            self.dma_transfer_unit.set(channel, value & 0x07);
            self.dma_increment_mode.set(channel, DmaIncrementMode::from_byte(value));
            self.hdma_addressing_mode.set(channel, HdmaAddressingMode::from_byte(value));
            self.dma_direction.set(channel, DmaDirection::from_byte(value));
        } else if reg == 0x4301 {
            // BBADx: DMA bus B address
            self.dma_bus_b_address.set(channel, value);
        } else if reg == 0x4302 {
            // A1TxL: GPDMA current address / HDMA table start, low byte
            let current = self.gpdma_current_address[channel];
            self.gpdma_current_address.set(channel, (current & 0xFF00) | (value as u16));
        } else if reg == 0x4303 {
            // A1TxH: GPDMA current address / HDMA table start, high byte
            let current = self.gpdma_current_address[channel];
            self.gpdma_current_address.set(channel, (current & 0x00FF) | ((value as u16) << 8));
        } else if reg == 0x4304 {
            // A1Bx: GPDMA current address / HDMA table start, bank
            self.dma_bank.set(channel, value);
        } else if reg == 0x4305 {
            // DASxL: GPDMA byte counter / HDMA indirect address, low byte
            let current = self.gpdma_byte_counter[channel];
            self.gpdma_byte_counter.set(channel, (current & 0xFF00) | (value as u16));
        } else if reg == 0x4306 {
            // DASxH: GPDMA byte counter / HDMA indirect address, high byte
            let current = self.gpdma_byte_counter[channel];
            self.gpdma_byte_counter.set(channel, (current & 0x00FF) | ((value as u16) << 8));
        } else if reg == 0x4307 {
            // DASBx: HDMA indirect address, bank
            self.hdma_indirect_bank.set(channel, value);
        } else if reg == 0x4308 {
            // A2AxL: HDMA table current address, low byte
            let current = self.hdma_table_current_address[channel];
            self.hdma_table_current_address.set(channel, (current & 0xFF00) | (value as u16));
        } else if reg == 0x4309 {
            // A2AxH: HDMA table current address, high byte
            let current = self.hdma_table_current_address[channel];
            self.hdma_table_current_address.set(channel, (current & 0x00FF) | ((value as u16) << 8));
        } else {
            // NTRLx / unused offsets: unimplemented, the write is ignored.
        }
    }

    pub fn memory_2_speed(&self) -> (r: Memory2Speed)
        ensures
            r == self.memory_2_speed,
    {
        self.memory_2_speed
    }
}

/// The effect of a DMA channel register write on the register block.
pub open spec fn spec_write_dma_ensures(
    pre: CpuInternalRegisters,
    post: CpuInternalRegisters,
    address: u32,
    value: u8,
) -> bool {
    let ch = ((address >> 4) & 0x7) as int;
    let reg = address & 0xFF0F;
    &&& (reg == 0x4300 ==> {
        &&& post.dma_transfer_unit@ == pre.dma_transfer_unit@.update(ch, value & 0x07)
        &&& post.dma_increment_mode@ == pre.dma_increment_mode@.update(
            ch,
            DmaIncrementMode::spec_from_byte(value),
        )
        &&& post.hdma_addressing_mode@ == pre.hdma_addressing_mode@.update(
            ch,
            if spec_bit8(value, 6) { HdmaAddressingMode::Indirect } else { HdmaAddressingMode::Direct },
        )
        &&& post.dma_direction@ == pre.dma_direction@.update(
            ch,
            if spec_bit8(value, 7) { DmaDirection::BtoA } else { DmaDirection::AtoB },
        )
        &&& post == (CpuInternalRegisters {
            dma_transfer_unit: post.dma_transfer_unit,
            dma_increment_mode: post.dma_increment_mode,
            hdma_addressing_mode: post.hdma_addressing_mode,
            dma_direction: post.dma_direction,
            ..pre
        })
    })
    &&& (reg == 0x4301 ==> {
        &&& post.dma_bus_b_address@ == pre.dma_bus_b_address@.update(ch, value)
        &&& post == (CpuInternalRegisters { dma_bus_b_address: post.dma_bus_b_address, ..pre })
    })
    &&& (reg == 0x4302 ==> {
        &&& post.gpdma_current_address@ == pre.gpdma_current_address@.update(
            ch,
            (pre.gpdma_current_address[ch] & 0xFF00) | (value as u16),
        )
        &&& post == (CpuInternalRegisters {
            gpdma_current_address: post.gpdma_current_address,
            ..pre
        })
    })
    &&& (reg == 0x4303 ==> {
        &&& post.gpdma_current_address@ == pre.gpdma_current_address@.update(
            ch,
            (pre.gpdma_current_address[ch] & 0x00FF) | ((value as u16) << 8),
        )
        &&& post == (CpuInternalRegisters {
            gpdma_current_address: post.gpdma_current_address,
            ..pre
        })
    })
    &&& (reg == 0x4304 ==> {
        &&& post.dma_bank@ == pre.dma_bank@.update(ch, value)
        &&& post == (CpuInternalRegisters { dma_bank: post.dma_bank, ..pre })
    })
    &&& (reg == 0x4305 ==> {
        &&& post.gpdma_byte_counter@ == pre.gpdma_byte_counter@.update(
            ch,
            (pre.gpdma_byte_counter[ch] & 0xFF00) | (value as u16),
        )
        &&& post == (CpuInternalRegisters { gpdma_byte_counter: post.gpdma_byte_counter, ..pre })
    })
    &&& (reg == 0x4306 ==> {
        &&& post.gpdma_byte_counter@ == pre.gpdma_byte_counter@.update(
            ch,
            (pre.gpdma_byte_counter[ch] & 0x00FF) | ((value as u16) << 8),
        )
        &&& post == (CpuInternalRegisters { gpdma_byte_counter: post.gpdma_byte_counter, ..pre })
    })
    &&& (reg == 0x4307 ==> {
        &&& post.hdma_indirect_bank@ == pre.hdma_indirect_bank@.update(ch, value)
        &&& post == (CpuInternalRegisters { hdma_indirect_bank: post.hdma_indirect_bank, ..pre })
    })
    &&& (reg == 0x4308 ==> {
        &&& post.hdma_table_current_address@ == pre.hdma_table_current_address@.update(
            ch,
            (pre.hdma_table_current_address[ch] & 0xFF00) | (value as u16),
        )
        &&& post == (CpuInternalRegisters {
            hdma_table_current_address: post.hdma_table_current_address,
            ..pre
        })
    })
    &&& (reg == 0x4309 ==> {
        &&& post.hdma_table_current_address@ == pre.hdma_table_current_address@.update(
            ch,
            (pre.hdma_table_current_address[ch] & 0x00FF) | ((value as u16) << 8),
        )
        &&& post == (CpuInternalRegisters {
            hdma_table_current_address: post.hdma_table_current_address,
            ..pre
        })
    })
    &&& (!(0x4300 <= reg && reg <= 0x4309) ==> post == pre)
}

} // verus!
