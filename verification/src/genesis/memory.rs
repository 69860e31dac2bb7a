//! Genesis memory: cartridge ROM with optional battery-backed RAM, 64 KiB
//! main RAM, 8 KiB Z80 sound RAM, the Z80 bank register, and the main bus
//! router that arbitrates every 68000 and Z80 access.

use vstd::prelude::*;
use crate::bits::{bit8, spec_bit8};
use crate::genesis::api::{spec_region_from_rom, GenesisRegion};
use crate::genesis::ports::{InputState, InterruptLine, PsgPort, VdpPort, YmPort};
use crate::TimingMode;

verus! {

/// Main RAM size: 64 KiB.
pub const MAIN_RAM_LEN: usize = 0x10000;

/// Z80 sound RAM size: 8 KiB.
pub const AUDIO_RAM_LEN: usize = 0x2000;

/// A vector of `n` zero bytes.
fn zeroed(n: usize) -> (r: Vec<u8>)
    ensures
        r.len() == n,
        forall|i: int| 0 <= i < n ==> r[i] == 0u8,
{
    let mut r: Vec<u8> = Vec::new();
    let mut i: usize = 0;
    while i < n
        invariant
            i <= n,
            r.len() == i,
            forall|j: int| 0 <= j < i ==> r[j] == 0u8,
        decreases n - i,
    {
        r.push(0);
        i = i + 1;
    }
    r
}

/// The immutable ROM image.
#[derive(Debug, Clone)]
pub struct Rom(pub Vec<u8>);

impl Rom {
    /// The byte at `i`, if the ROM is that large.
    pub fn get(&self, i: usize) -> (r: Option<u8>)
        ensures
            i < self.0.len() ==> r == Some(self.0[i as int]),
            i >= self.0.len() ==> r is None,
    {
        if i < self.0.len() {
            Option::Some(self.0[i])
        } else {
            Option::None
        }
    }
}

/// Whether the ROM header declares external RAM ("RA" at $1B0) with a
/// valid address range at $1B4/$1B8.
pub open spec fn spec_has_ram_header(rom: Seq<u8>) -> bool {
    &&& rom.len() >= 0x1BC
    &&& rom[0x1B0] == 0x52u8
    &&& rom[0x1B1] == 0x41u8
    &&& spec_ram_start(rom) <= spec_ram_end(rom)
    &&& spec_ram_end(rom) - spec_ram_start(rom) < 0x100000
}

/// Big-endian u32 at offset `i`.
pub open spec fn spec_be32(rom: Seq<u8>, i: int) -> u32 {
    (rom[i] * 0x1000000 + rom[i + 1] * 0x10000 + rom[i + 2] * 0x100 + rom[i + 3]) as u32
}

/// The header's external-RAM start address.
pub open spec fn spec_ram_start(rom: Seq<u8>) -> u32 {
    spec_be32(rom, 0x1B4)
}

/// The header's external-RAM end address (inclusive).
pub open spec fn spec_ram_end(rom: Seq<u8>) -> u32 {
    spec_be32(rom, 0x1B8)
}

/// Battery-backed cartridge RAM: a byte-addressed range of the 68000
/// address space with a dirty flag set on every write and cleared only
/// when the save collaborator persists it.
#[derive(Debug, Clone)]
pub struct ExternalMemory {
    pub ram: Vec<u8>,
    pub persistent: bool,
    pub dirty: bool,
    pub start_address: u32,
    pub end_address: u32,
}

/// The effect of a byte write on external memory: an in-range write
/// updates RAM and marks it dirty; anything else is ignored.
pub open spec fn spec_ext_write_ensures(
    pre: ExternalMemory,
    post: ExternalMemory,
    address: u32,
    value: u8,
) -> bool {
    if pre.ram.len() > 0 && pre.start_address <= address && address <= pre.end_address {
        &&& post.ram@ == pre.ram@.update(address - pre.start_address, value)
        &&& post == (ExternalMemory { ram: post.ram, dirty: true, ..pre })
    } else {
        post == pre
    }
}

impl ExternalMemory {
    pub open spec fn wf(self) -> bool {
        self.ram.len() > 0 ==> {
            &&& self.start_address <= self.end_address
            &&& self.ram.len() == self.end_address - self.start_address + 1
        }
    }

    /// Whether `address` falls in the mapped RAM range.
    pub open spec fn spec_in_range(self, address: u32) -> bool {
        self.ram.len() > 0 && self.start_address <= address && address <= self.end_address
    }

    /// The mapped byte at an in-range address.
    pub open spec fn spec_byte(self, address: u32) -> u8 {
        self.ram[address - self.start_address]
    }

    /// Create the external memory from the ROM header: a "RA" marker with a
    /// sane address range maps battery-backed RAM there, initialised from
    /// the given save bytes when they have the exact size, else zeroed.
    pub fn from_rom(rom: &[u8], initial_ram_bytes: Option<Vec<u8>>) -> (r: Self)
        ensures
            r.wf(),
            !r.dirty,
            r.persistent == spec_has_ram_header(rom@),
            spec_has_ram_header(rom@) ==> {
                &&& r.start_address == spec_ram_start(rom@)
                &&& r.end_address == spec_ram_end(rom@)
                &&& r.ram.len() == spec_ram_end(rom@) - spec_ram_start(rom@) + 1
                &&& (match initial_ram_bytes {
                    Some(bytes) => bytes.len() == r.ram.len() ==> r.ram@ == bytes@,
                    None => forall|i: int| 0 <= i < r.ram.len() ==> r.ram[i] == 0u8,
                })
            },
            !spec_has_ram_header(rom@) ==> r.ram.len() == 0,
    {
        if rom.len() >= 0x1BC && rom[0x1B0] == 0x52 && rom[0x1B1] == 0x41 {
            let start: u32 = (rom[0x1B4] as u32) * 0x1000000 + (rom[0x1B5] as u32) * 0x10000
                + (rom[0x1B6] as u32) * 0x100 + (rom[0x1B7] as u32);
            let end: u32 = (rom[0x1B8] as u32) * 0x1000000 + (rom[0x1B9] as u32) * 0x10000
                + (rom[0x1BA] as u32) * 0x100 + (rom[0x1BB] as u32);
            if start <= end && end - start < 0x100000 {
                let size = (end - start + 1) as usize;
                let ram = match initial_ram_bytes {
                    Option::Some(bytes) => {
                        if bytes.len() == size {
                            bytes
                        } else {
                            zeroed(size)
                        }
                    }
                    Option::None => zeroed(size),
                };
                return ExternalMemory {
                    ram,
                    persistent: true,
                    dirty: false,
                    start_address: start,
                    end_address: end,
                };
            }
            return ExternalMemory {
                ram: Vec::new(),
                persistent: false,
                dirty: false,
                start_address: 0,
                end_address: 0,
            };
        }
        ExternalMemory {
            ram: Vec::new(),
            persistent: false,
            dirty: false,
            start_address: 0,
            end_address: 0,
        }
    }

    /// Read a mapped byte; `None` when the address is not external RAM.
    pub fn read_byte(&self, address: u32) -> (r: Option<u8>)
        requires
            self.wf(),
        ensures
            self.spec_in_range(address) ==> r == Some(self.spec_byte(address)),
            !self.spec_in_range(address) ==> r is None,
    {
        if self.ram.len() > 0 && self.start_address <= address && address <= self.end_address {
            Option::Some(self.ram[(address - self.start_address) as usize])
        } else {
            Option::None
        }
    }

    /// Read a mapped big-endian word; `None` unless both bytes are mapped.
    pub fn read_word(&self, address: u32) -> (r: Option<u16>)
        requires
            self.wf(),
        ensures
            self.spec_in_range(address) && address < self.end_address ==> r == Some(
                crate::bits::spec_word(
                    self.spec_byte(address),
                    self.spec_byte((address + 1) as u32),
                ),
            ),
            !(self.spec_in_range(address) && address < self.end_address) ==> r is None,
    {
        if self.ram.len() > 0 && self.start_address <= address && address < self.end_address {
            let msb = self.ram[(address - self.start_address) as usize];
            let lsb = self.ram[(address + 1 - self.start_address) as usize];
            Option::Some(crate::bits::word_from_bytes(msb, lsb))
        } else {
            Option::None
        }
    }

    /// Write a mapped byte and set the dirty flag; out-of-range writes are
    /// ignored.
    pub fn write_byte(&mut self, address: u32, value: u8)
        requires
            old(self).wf(),
        ensures
            final(self).wf(),
            spec_ext_write_ensures(*old(self), *final(self), address, value),
    {
        if self.ram.len() > 0 && self.start_address <= address && address <= self.end_address {
            self.ram.set((address - self.start_address) as usize, value);
            self.dirty = true;
        }
    }

    /// Write a mapped big-endian word as two byte writes.
    pub fn write_word(&mut self, address: u32, value: u16)
        requires
            old(self).wf(),
        ensures
            final(self).wf(),
            exists|m: ExternalMemory|
                spec_ext_write_ensures(*old(self), m, address, crate::bits::spec_msb(value))
                    && spec_ext_write_ensures(
                    m,
                    *final(self),
                    crate::bits::spec_wadd32(address, 1),
                    crate::bits::spec_lsb(value),
                ),
    {
        let ghost pre = *self;
        self.write_byte(address, crate::bits::word_msb(value));
        let ghost mid = *self;
        self.write_byte(address.wrapping_add(1), crate::bits::word_lsb(value));
        proof {
            assert(spec_ext_write_ensures(pre, mid, address, crate::bits::spec_msb(value)));
        }
    }

    /// Hand the RAM to the save collaborator if it is battery-backed,
    /// leaving the unit empty.
    pub fn take_if_persistent(&mut self) -> (r: Option<Vec<u8>>)
        requires
            old(self).wf(),
        ensures
            final(self).wf(),
            old(self).persistent ==> {
                &&& r matches Some(ram) && ram@ == old(self).ram@
                &&& final(self).ram.len() == 0
                &&& *final(self) == (ExternalMemory { ram: final(self).ram, ..*old(self) })
            },
            !old(self).persistent ==> r is None && *final(self) == *old(self),
    {
        if self.persistent {
            let mut out: Vec<u8> = Vec::new();
            core::mem::swap(&mut self.ram, &mut out);
            Option::Some(out)
        } else {
            Option::None
        }
    }

    /// The current RAM contents.
    pub fn get_memory(&self) -> (r: &[u8])
        ensures
            r@ == self.ram@,
    {
        self.ram.as_slice()
    }

    pub fn is_persistent(&self) -> (r: bool)
        ensures
            r == self.persistent,
    {
        self.persistent
    }

    /// Report whether RAM was written since the last call, clearing the
    /// flag.
    pub fn get_and_clear_dirty_bit(&mut self) -> (r: bool)
        ensures
            r == old(self).dirty,
            *final(self) == (ExternalMemory { dirty: false, ..*old(self) }),
    {
        let dirty = self.dirty;
        self.dirty = false;
        dirty
    }
}

/// ROM plus external memory, the ROM address mask, and the detected region.
#[derive(Debug, Clone)]
pub struct Cartridge {
    pub rom: Rom,
    pub external_memory: ExternalMemory,
    pub rom_address_mask: u32,
    pub region: GenesisRegion,
}

/// What a cartridge byte read returns: external RAM if mapped there, else
/// ROM, else open bus.
pub open spec fn spec_cartridge_read_byte(c: Cartridge, address: u32) -> u8 {
    if c.external_memory.spec_in_range(address) {
        c.external_memory.spec_byte(address)
    } else if address < c.rom.0.len() {
        c.rom.0[address as int]
    } else {
        0xFFu8
    }
}

impl Cartridge {
    pub open spec fn wf(self) -> bool {
        self.external_memory.wf()
    }

    /// Build a cartridge from a ROM image: detect the region from the
    /// header (the Americas on an unrecognised code) unless one is forced,
    /// and map external RAM per the header.
    pub fn from_rom(
        rom_bytes: Vec<u8>,
        initial_ram_bytes: Option<Vec<u8>>,
        forced_region: Option<GenesisRegion>,
    ) -> (r: Self)
        requires
            rom_bytes.len() >= 1,
            rom_bytes.len() <= 0x1000000,
            forced_region is None ==> rom_bytes.len() >= 0x1F3,
        ensures
            r.wf(),
            r.rom.0@ == rom_bytes@,
            r.rom_address_mask == rom_bytes.len() - 1,
            (match forced_region {
                Some(region) => r.region == region,
                None => r.region == (match spec_region_from_rom(rom_bytes@) {
                    Some(region) => region,
                    None => GenesisRegion::Americas,
                }),
            }),
            r.external_memory.persistent == spec_has_ram_header(rom_bytes@),
            !r.external_memory.dirty,
    {
        let region = match forced_region {
            Option::Some(region) => region,
            Option::None => {
                match GenesisRegion::from_rom(rom_bytes.as_slice()) {
                    Option::Some(region) => region,
                    // An unrecognised region code falls back to the
                    // Americas rather than failing the load.
                    Option::None => GenesisRegion::Americas,
                }
            }
        };

        let external_memory = ExternalMemory::from_rom(rom_bytes.as_slice(), initial_ram_bytes);

        let rom_address_mask = (rom_bytes.len() - 1) as u32;
        Self { rom: Rom(rom_bytes), external_memory, rom_address_mask, region }
    }

    /// Byte read: external RAM first, then ROM, else open bus.
    pub fn read_byte(&self, address: u32) -> (r: u8)
        requires
            self.wf(),
        ensures
            r == spec_cartridge_read_byte(*self, address),
    {
        if let Option::Some(byte) = self.external_memory.read_byte(address) {
            return byte;
        }

        match self.rom.get(address as usize) {
            Option::Some(byte) => byte,
            Option::None => 0xFF,
        }
    }

    /// Word read: an external-RAM word if fully mapped there, else two
    /// big-endian byte reads (the second address wraps).
    pub fn read_word(&self, address: u32) -> (r: u16)
        requires
            self.wf(),
        ensures
            self.external_memory.spec_in_range(address) && address < self.external_memory.end_address
                ==> r == crate::bits::spec_word(
                self.external_memory.spec_byte(address),
                self.external_memory.spec_byte((address + 1) as u32),
            ),
            !(self.external_memory.spec_in_range(address) && address
                < self.external_memory.end_address) ==> r == crate::bits::spec_word(
                spec_cartridge_read_byte(*self, address),
                spec_cartridge_read_byte(*self, crate::bits::spec_wadd32(address, 1)),
            ),
    {
        if let Option::Some(word) = self.external_memory.read_word(address) {
            return word;
        }

        crate::bits::word_from_bytes(
            self.read_byte(address),
            self.read_byte(address.wrapping_add(1)),
        )
    }

    /// Byte write: only external RAM is writable.
    pub fn write_byte(&mut self, address: u32, value: u8)
        requires
            old(self).wf(),
        ensures
            final(self).wf(),
            spec_ext_write_ensures(
                old(self).external_memory,
                final(self).external_memory,
                address,
                value,
            ),
            *final(self) == (Cartridge { external_memory: final(self).external_memory, ..*old(self) }),
    {
        self.external_memory.write_byte(address, value);
    }

    /// Word write: only external RAM is writable.
    pub fn write_word(&mut self, address: u32, value: u16)
        requires
            old(self).wf(),
        ensures
            final(self).wf(),
            exists|m: ExternalMemory|
                spec_ext_write_ensures(
                    old(self).external_memory,
                    m,
                    address,
                    crate::bits::spec_msb(value),
                ) && spec_ext_write_ensures(
                    m,
                    final(self).external_memory,
                    crate::bits::spec_wadd32(address, 1),
                    crate::bits::spec_lsb(value),
                ),
            *final(self) == (Cartridge { external_memory: final(self).external_memory, ..*old(self) }),
    {
        self.external_memory.write_word(address, value);
    }
}

/// The Z80's bank register: nine bits shifted in one at a time, selecting
/// which 32 KiB page of the 68000 address space the Z80's upper window
/// reaches.
#[derive(Debug, Clone, Copy, PartialEq, Eq, Structural)]
pub struct Z80BankRegister {
    pub bank_number: u32,
    pub current_bit: u8,
}

impl Z80BankRegister {
    pub open spec fn wf(self) -> bool {
        self.bank_number < 0x200
    }

    pub fn new() -> (r: Self)
        ensures
            r.wf(),
            r == (Z80BankRegister { bank_number: 0u32, current_bit: 0u8 }),
    {
        Z80BankRegister { bank_number: 0, current_bit: 0 }
    }

    /// The 68000 address reached through the bank window for a Z80 address.
    pub open spec fn spec_map_to_68k_address(self, z80_address: u16) -> u32 {
        (self.bank_number << 15) | ((z80_address & 0x7FFF) as u32)
    }

    pub fn map_to_68k_address(self, z80_address: u16) -> (r: u32)
        requires
            self.wf(),
        ensures
            r == self.spec_map_to_68k_address(z80_address),
            r < 0x1000000,
    {
        proof {
            let b = self.bank_number;
            let z = z80_address;
            assert((b << 15) | ((z & 0x7FFF) as u32) < 0x1000000) by (bit_vector)
                requires
                    b < 0x200u32,
            ;
        }
        (self.bank_number << 15) | ((z80_address & 0x7FFF) as u32)
    }

    /// Shift one bit into the top of the 9-bit bank number.
    pub fn write_bit(&mut self, bit: bool)
        requires
            old(self).wf(),
        ensures
            final(self).wf(),
            final(self).bank_number == (old(self).bank_number >> 1) | (if bit {
                0x100u32
            } else {
                0u32
            }),
            final(self).current_bit == old(self).current_bit,
    {
        proof {
            let b = self.bank_number;
            assert((b >> 1) | 0x100 < 0x200 && (b >> 1) | 0 < 0x200) by (bit_vector)
                requires
                    b < 0x200u32,
            ;
        }
        self.bank_number = (self.bank_number >> 1) | (if bit { 0x100u32 } else { 0u32 });
    }
}

/// The Z80 bus-request and reset lines.
#[derive(Debug, Clone, Copy, PartialEq, Eq, Structural)]
pub struct Signals {
    pub z80_busreq: bool,
    pub z80_reset: bool,
}

impl Default for Signals {
    /// At power-on the Z80 is held in reset and not bus-requested.
    fn default() -> (r: Self)
        ensures
            r == (Signals { z80_busreq: false, z80_reset: true }),
    {
        Signals { z80_busreq: false, z80_reset: true }
    }
}

/// What a cartridge word read returns; see [`Cartridge::read_word`].
pub open spec fn spec_cartridge_read_word(c: Cartridge, address: u32) -> u16 {
    if c.external_memory.spec_in_range(address) && address < c.external_memory.end_address {
        crate::bits::spec_word(
            c.external_memory.spec_byte(address),
            c.external_memory.spec_byte((address + 1) as u32),
        )
    } else {
        crate::bits::spec_word(
            spec_cartridge_read_byte(c, address),
            spec_cartridge_read_byte(c, crate::bits::spec_wadd32(address, 1)),
        )
    }
}

/// Cartridge, both RAMs, the Z80 bank register, and the Z80 control
/// signals.
#[derive(Debug, Clone)]
pub struct Memory {
    pub cartridge: Cartridge,
    pub main_ram: Vec<u8>,
    pub audio_ram: Vec<u8>,
    pub z80_bank_register: Z80BankRegister,
    pub signals: Signals,
}

impl Memory {
    pub open spec fn wf(self) -> bool {
        &&& self.cartridge.wf()
        &&& self.main_ram.len() == MAIN_RAM_LEN
        &&& self.audio_ram.len() == AUDIO_RAM_LEN
        &&& self.z80_bank_register.wf()
    }

    /// Fresh memory around a cartridge: both RAMs zeroed, the bank register
    /// cleared, and the Z80 held in reset.
    pub fn new(cartridge: Cartridge) -> (r: Self)
        requires
            cartridge.wf(),
        ensures
            r.wf(),
            r.cartridge == cartridge,
            forall|i: int| 0 <= i < MAIN_RAM_LEN ==> r.main_ram[i] == 0u8,
            forall|i: int| 0 <= i < AUDIO_RAM_LEN ==> r.audio_ram[i] == 0u8,
            r.z80_bank_register == (Z80BankRegister { bank_number: 0u32, current_bit: 0u8 }),
            r.signals == (Signals { z80_busreq: false, z80_reset: true }),
    {
        Self {
            cartridge,
            main_ram: zeroed(MAIN_RAM_LEN),
            audio_ram: zeroed(AUDIO_RAM_LEN),
            z80_bank_register: Z80BankRegister::new(),
            signals: Signals { z80_busreq: false, z80_reset: true },
        }
    }

    /// Word read for VDP DMA: cartridge or main RAM; other regions read as
    /// open bus.
    pub fn read_word_for_dma(&self, address: u32) -> (r: u16)
        requires
            self.wf(),
        ensures
            address <= 0x3FFFFF ==> r == spec_cartridge_read_word(self.cartridge, address),
            0xE00000 <= address && address <= 0xFFFFFF ==> r == crate::bits::spec_word(
                self.main_ram[(address & 0xFFFF) as int],
                self.main_ram[((address & 0xFFFF) + 1) % 0x10000],
            ),
            !(address <= 0x3FFFFF || (0xE00000 <= address && address <= 0xFFFFFF)) ==> r == 0xFF,
    {
        if address <= 0x3FFFFF {
            self.cartridge.read_word(address)
        } else if 0xE00000 <= address && address <= 0xFFFFFF {
            let addr = (address & 0xFFFF) as usize;
            proof {
                crate::bits::lemma_and_bound_u32(address, 0xFFFF);
            }
            crate::bits::word_from_bytes(self.main_ram[addr], self.main_ram[(addr + 1) % 0x10000])
        } else {
            0xFF
        }
    }

    /// Detach the ROM image (save states exclude it; it is re-attached on
    /// load).
    pub fn take_rom(&mut self) -> (r: Vec<u8>)
        requires
            old(self).wf(),
        ensures
            r@ == old(self).cartridge.rom.0@,
            final(self).cartridge.rom.0.len() == 0,
            *final(self) == (Memory { cartridge: final(self).cartridge, ..*old(self) }),
            final(self).cartridge == (Cartridge { rom: final(self).cartridge.rom, ..old(self).cartridge }),
    {
        let mut out: Vec<u8> = Vec::new();
        core::mem::swap(&mut self.cartridge.rom.0, &mut out);
        out
    }

    /// Move the ROM image over from another memory system (after loading a
    /// save state, which carries no ROM).
    pub fn take_rom_from(&mut self, other: &mut Self)
        ensures
            final(self).cartridge.rom.0@ == old(other).cartridge.rom.0@,
            *final(self) == (Memory { cartridge: final(self).cartridge, ..*old(self) }),
            final(self).cartridge == (Cartridge { rom: final(self).cartridge.rom, ..old(self).cartridge }),
            final(other).cartridge.rom.0.len() == 0,
            *final(other) == (Memory { cartridge: final(other).cartridge, ..*old(other) }),
            final(other).cartridge == (Cartridge {
                rom: final(other).cartridge.rom,
                ..old(other).cartridge
            }),
    {
        let mut out: Vec<u8> = Vec::new();
        core::mem::swap(&mut other.cartridge.rom.0, &mut out);
        core::mem::swap(&mut self.cartridge.rom.0, &mut out);
    }

    /// Hand cartridge RAM to the save collaborator if battery-backed.
    pub fn take_cartridge_ram_if_persistent(&mut self) -> (r: Option<Vec<u8>>)
        requires
            old(self).wf(),
        ensures
            final(self).wf(),
            old(self).cartridge.external_memory.persistent ==> (r matches Some(ram) && ram@ == old(
                self,
            ).cartridge.external_memory.ram@),
            !old(self).cartridge.external_memory.persistent ==> r is None && *final(self) == *old(
                self,
            ),
    {
        self.cartridge.external_memory.take_if_persistent()
    }

    /// The cartridge title from the ROM header, read as Latin-1, trimmed,
    /// and with space runs collapsed. The header offset depends on the
    /// region: $120 on domestic hardware, $150 elsewhere.
    pub fn cartridge_title(&self) -> (r: String)
        requires
            self.wf(),
            self.cartridge.rom.0.len() >= 0x180,
        ensures
            ({
                let addr: int = if self.cartridge.region == GenesisRegion::Japan {
                    0x120
                } else {
                    0x150
                };
                r@ == crate::text::spec_latin1(
                    crate::text::spec_collapse_spaces(
                        crate::text::spec_trim_end(
                            crate::text::spec_trim_start(
                                self.cartridge.rom.0@.subrange(addr, addr + 48),
                            ),
                        ),
                    ),
                )
            }),
    {
        let addr: usize = match self.cartridge.region {
            GenesisRegion::Americas | GenesisRegion::Europe => 0x150,
            GenesisRegion::Japan => 0x120,
        };

        let mut title_bytes: Vec<u8> = Vec::new();
        let mut i: usize = 0;
        while i < 48
            invariant
                i <= 48,
                addr + 48 <= self.cartridge.rom.0.len(),
                title_bytes@ =~= self.cartridge.rom.0@.subrange(addr as int, addr + i),
            decreases 48 - i,
        {
            title_bytes.push(self.cartridge.rom.0[addr + i]);
            proof {
                assert(title_bytes@ =~= self.cartridge.rom.0@.subrange(addr as int, addr + i + 1));
            }
            i = i + 1;
        }

        let trimmed = crate::text::trim_bytes(&title_bytes);
        let collapsed = crate::text::collapse_spaces(&trimmed);
        crate::text::latin1_string(&collapsed)
    }

    pub fn hardware_region(&self) -> (r: GenesisRegion)
        ensures
            r == self.cartridge.region,
    {
        self.cartridge.region
    }

    pub fn cartridge_ram(&self) -> (r: &[u8])
        ensures
            r@ == self.cartridge.external_memory.ram@,
    {
        self.cartridge.external_memory.get_memory()
    }

    pub fn cartridge_ram_persistent(&self) -> (r: bool)
        ensures
            r == self.cartridge.external_memory.persistent,
    {
        self.cartridge.external_memory.is_persistent()
    }

    /// Whether cartridge RAM was written since the last call; clears the
    /// flag.
    pub fn get_and_clear_cartridge_ram_dirty(&mut self) -> (r: bool)
        ensures
            r == old(self).cartridge.external_memory.dirty,
            final(self).cartridge.external_memory == (ExternalMemory {
                dirty: false,
                ..old(self).cartridge.external_memory
            }),
            *final(self) == (Memory { cartridge: final(self).cartridge, ..*old(self) }),
            final(self).cartridge == (Cartridge {
                external_memory: final(self).cartridge.external_memory,
                ..old(self).cartridge
            }),
    {
        self.cartridge.external_memory.get_and_clear_dirty_bit()
    }

    /// Return the Z80 control signals to their power-on state.
    pub fn reset_z80_signals(&mut self)
        ensures
            *final(self) == (Memory {
                signals: Signals { z80_busreq: false, z80_reset: true },
                ..*old(self)
            }),
    {
        self.signals = Signals { z80_busreq: false, z80_reset: true };
    }
}

/// The Genesis has a 24-bit bus, not 32-bit.
pub const ADDRESS_MASK: u32 = 0xFFFFFF;

/// A Z80 access through its bank window resolved back into the Z80's own
/// reserved main-bus range: a hardware lockup, reported distinctly.
#[derive(Debug, Clone, Copy, PartialEq, Eq, Structural)]
pub struct Z80BankWindowLockup {
    pub z80_address: u16,
    pub m68k_address: u32,
}

/// The main bus: the single arbiter of every 68000 and Z80 access, owning
/// memory and the peripheral register ports it routes to.
#[derive(Clone)]
pub struct MainBus {
    pub memory: Memory,
    pub vdp: VdpPort,
    pub psg: PsgPort,
    pub ym2612: YmPort,
    pub input: InputState,
    pub timing_mode: TimingMode,
    pub z80_stalled: bool,
    /// Ghost trace of the 68000's data accesses; see [`crate::m68k::BusInterface`].
    pub trace: Ghost<Seq<crate::m68k::BusOp>>,
}

/// What a VDP byte-port read returns: the data, status, or HV-counter
/// half selected by the low address bits; the PSG range and the
/// unmapped byte lanes read as open bus.
pub open spec fn spec_read_vdp_byte(bus: MainBus, address: u32) -> u8 {
    let sel = address & 0x1F;
    if sel == 0 || sel == 2 {
        (bus.vdp.data >> 8) as u8
    } else if sel == 1 || sel == 3 {
        (bus.vdp.data & 0xFF) as u8
    } else if sel == 4 || sel == 6 {
        (bus.vdp.status >> 8) as u8
    } else if sel == 5 || sel == 7 {
        (bus.vdp.status & 0xFF) as u8
    } else if sel == 8 || sel == 0xA {
        (bus.vdp.hv >> 8) as u8
    } else if sel == 9 || sel == 0xB {
        (bus.vdp.hv & 0xFF) as u8
    } else {
        0xFFu8
    }
}

/// What an I/O-register read returns: the version register encodes the
/// region and timing mode; the TxData registers read as $FF and the rest
/// of the block as $00.
pub open spec fn spec_read_io_register(bus: MainBus, address: u32) -> u8 {
    if address == 0xA10000 || address == 0xA10001 {
        (0x20 + (if bus.memory.cartridge.region != GenesisRegion::Japan {
            0x80int
        } else {
            0int
        }) + (if bus.timing_mode == TimingMode::Pal {
            0x40int
        } else {
            0int
        })) as u8
    } else if address == 0xA10002 || address == 0xA10003 {
        bus.input.p1_data
    } else if address == 0xA10004 || address == 0xA10005 {
        bus.input.p2_data
    } else if address == 0xA10008 || address == 0xA10009 {
        bus.input.p1_ctrl
    } else if address == 0xA1000A || address == 0xA1000B {
        bus.input.p2_ctrl
    } else if address == 0xA1000E || address == 0xA1000F || address == 0xA10014 || address
        == 0xA10015 || address == 0xA1001A || address == 0xA1001B {
        0xFFu8
    } else {
        0x00u8
    }
}

/// What a Z80-side read of the Z80's own space returns (sound RAM
/// mirrored across its window, the YM2612 status, or the VDP ports); the
/// bank register and unused ranges read as $FF.
pub open spec fn spec_z80_local_read(bus: MainBus, address: u16) -> u8 {
    if address < 0x4000 {
        bus.memory.audio_ram[(address & 0x1FFF) as int]
    } else if address < 0x6000 {
        bus.ym2612.status
    } else if 0x7F00 <= address && address < 0x7F20 {
        spec_read_vdp_byte(bus, address as u32)
    } else {
        0xFFu8
    }
}

/// What a 68000 byte read outside the Z80 window returns.
pub open spec fn spec_read_byte_main(bus: MainBus, a: u32) -> u8 {
    if a <= 0x3FFFFF {
        spec_cartridge_read_byte(bus.memory.cartridge, a)
    } else if 0xA10000 <= a && a <= 0xA1001F {
        spec_read_io_register(bus, a)
    } else if 0xA11100 <= a && a <= 0xA11101 {
        if bus.z80_stalled {
            0u8
        } else {
            1u8
        }
    } else if 0xC00000 <= a && a <= 0xC0001F {
        spec_read_vdp_byte(bus, a)
    } else if 0xE00000 <= a {
        bus.memory.main_ram[(a & 0xFFFF) as int]
    } else {
        0xFFu8
    }
}

/// What any 68000 byte read returns, the address masked to 24 bits; the
/// Z80 window at $A00000 mirrors the Z80's lower 32 KiB.
pub open spec fn spec_read_byte(bus: MainBus, address: u32) -> u8 {
    let a = address & 0xFFFFFF;
    if 0xA00000 <= a && a <= 0xA0FFFF {
        spec_z80_local_read(bus, (a & 0x7FFF) as u16)
    } else {
        spec_read_byte_main(bus, a)
    }
}

/// The effect of a VDP byte-port write: the byte is duplicated into both
/// halves of a word and routed to the data port, the control port, or the
/// PSG; other offsets are ignored.
pub open spec fn spec_write_vdp_byte_ensures(
    pre: MainBus,
    post: MainBus,
    address: u32,
    value: u8,
) -> bool {
    let sel = address & 0x1F;
    let word = (value * 0x101) as u16;
    if sel <= 3 {
        post == (MainBus { vdp: VdpPort { data: word, ..pre.vdp }, ..pre })
    } else if sel <= 7 {
        post == (MainBus { vdp: VdpPort { control: word, ..pre.vdp }, ..pre })
    } else if sel == 0x11 || sel == 0x13 || sel == 0x15 || sel == 0x17 {
        post == (MainBus { psg: PsgPort { last_write: value }, ..pre })
    } else {
        post == pre
    }
}

/// The effect of an I/O-register write: only the controller data/control
/// registers are writable.
pub open spec fn spec_write_io_ensures(pre: MainBus, post: MainBus, address: u32, value: u8) -> bool {
    if address == 0xA10002 || address == 0xA10003 {
        post == (MainBus { input: InputState { p1_data: value, ..pre.input }, ..pre })
    } else if address == 0xA10004 || address == 0xA10005 {
        post == (MainBus { input: InputState { p2_data: value, ..pre.input }, ..pre })
    } else if address == 0xA10008 || address == 0xA10009 {
        post == (MainBus { input: InputState { p1_ctrl: value, ..pre.input }, ..pre })
    } else if address == 0xA1000A || address == 0xA1000B {
        post == (MainBus { input: InputState { p2_ctrl: value, ..pre.input }, ..pre })
    } else {
        post == pre
    }
}

/// The effect of a Z80-side write to the Z80's own space: sound RAM, the
/// YM2612 port selected by the low two bits, one bit into the bank
/// register, or a VDP port; unused ranges ignore the write.
pub open spec fn spec_z80_local_write_ensures(
    pre: MainBus,
    post: MainBus,
    address: u16,
    value: u8,
) -> bool {
    if address < 0x4000 {
        &&& post.memory.audio_ram@ == pre.memory.audio_ram@.update((address & 0x1FFF) as int, value)
        &&& post == (MainBus { memory: post.memory, ..pre })
        &&& post.memory == (Memory { audio_ram: post.memory.audio_ram, ..pre.memory })
    } else if address < 0x6000 {
        let sel = address & 0x03;
        if sel == 0 {
            post == (MainBus { ym2612: YmPort { address_1: value, ..pre.ym2612 }, ..pre })
        } else if sel == 1 {
            post == (MainBus { ym2612: YmPort { data_1: value, ..pre.ym2612 }, ..pre })
        } else if sel == 2 {
            post == (MainBus { ym2612: YmPort { address_2: value, ..pre.ym2612 }, ..pre })
        } else {
            post == (MainBus { ym2612: YmPort { data_2: value, ..pre.ym2612 }, ..pre })
        }
    } else if address < 0x6100 {
        &&& post == (MainBus { memory: post.memory, ..pre })
        &&& post.memory == (Memory {
            z80_bank_register: Z80BankRegister {
                bank_number: (pre.memory.z80_bank_register.bank_number >> 1) | (if crate::bits::spec_bit8(
                    value,
                    0,
                ) {
                    0x100u32
                } else {
                    0u32
                }),
                current_bit: pre.memory.z80_bank_register.current_bit,
            },
            ..pre.memory
        })
    } else if 0x7F00 <= address && address < 0x7F20 {
        spec_write_vdp_byte_ensures(pre, post, address as u32, value)
    } else {
        post == pre
    }
}

/// The effect of a 68000 byte write outside the Z80 window.
pub open spec fn spec_write_byte_main_ensures(
    pre: MainBus,
    post: MainBus,
    a: u32,
    value: u8,
) -> bool {
    if a <= 0x3FFFFF {
        &&& spec_ext_write_ensures(
            pre.memory.cartridge.external_memory,
            post.memory.cartridge.external_memory,
            a,
            value,
        )
        &&& post == (MainBus { memory: post.memory, ..pre })
        &&& post.memory == (Memory { cartridge: post.memory.cartridge, ..pre.memory })
        &&& post.memory.cartridge == (Cartridge {
            external_memory: post.memory.cartridge.external_memory,
            ..pre.memory.cartridge
        })
    } else if 0xA10000 <= a && a <= 0xA1001F {
        spec_write_io_ensures(pre, post, a, value)
    } else if 0xA11100 <= a && a <= 0xA11101 {
        &&& post == (MainBus { memory: post.memory, ..pre })
        &&& post.memory == (Memory {
            signals: Signals {
                z80_busreq: crate::bits::spec_bit8(value, 0),
                z80_reset: pre.memory.signals.z80_reset,
            },
            ..pre.memory
        })
    } else if 0xA11200 <= a && a <= 0xA11201 {
        &&& post == (MainBus { memory: post.memory, ..pre })
        &&& post.memory == (Memory {
            signals: Signals {
                z80_busreq: pre.memory.signals.z80_busreq,
                z80_reset: !crate::bits::spec_bit8(value, 0),
            },
            ..pre.memory
        })
    } else if 0xC00000 <= a && a <= 0xC0001F {
        spec_write_vdp_byte_ensures(pre, post, a, value)
    } else if 0xE00000 <= a {
        &&& post.memory.main_ram@ == pre.memory.main_ram@.update((a & 0xFFFF) as int, value)
        &&& post == (MainBus { memory: post.memory, ..pre })
        &&& post.memory == (Memory { main_ram: post.memory.main_ram, ..pre.memory })
    } else {
        post == pre
    }
}

/// The effect of any 68000 byte write, the address masked to 24 bits.
pub open spec fn spec_write_byte_ensures(
    pre: MainBus,
    post: MainBus,
    address: u32,
    value: u8,
) -> bool {
    let a = address & 0xFFFFFF;
    if 0xA00000 <= a && a <= 0xA0FFFF {
        spec_z80_local_write_ensures(pre, post, (a & 0x7FFF) as u16, value)
    } else {
        spec_write_byte_main_ensures(pre, post, a, value)
    }
}

impl MainBus {
    pub open spec fn wf(self) -> bool {
        self.memory.wf()
    }

    pub fn new(
        memory: Memory,
        vdp: VdpPort,
        psg: PsgPort,
        ym2612: YmPort,
        input: InputState,
        timing_mode: TimingMode,
        z80_stalled: bool,
    ) -> (r: Self)
        requires
            memory.wf(),
        ensures
            r.wf(),
            r == (MainBus {
                memory,
                vdp,
                psg,
                ym2612,
                input,
                timing_mode,
                z80_stalled,
                trace: r.trace,
            }),
            r.trace@ == Seq::<crate::m68k::BusOp>::empty(),
    {
        Self {
            memory,
            vdp,
            psg,
            ym2612,
            input,
            timing_mode,
            z80_stalled,
            trace: Ghost(Seq::empty()),
        }
    }

    /// Read an I/O-block register; see [`spec_read_io_register`].
    pub fn read_io_register(&self, address: u32) -> (r: u8)
        ensures
            r == spec_read_io_register(*self, address),
    {
        if address == 0xA10000 || address == 0xA10001 {
            // Version register
            0x20 + (if self.memory.cartridge.region.version_bit() { 0x80u8 } else { 0u8 }) + (
            if self.timing_mode == TimingMode::Pal {
                0x40u8
            } else {
                0u8
            })
        } else if address == 0xA10002 || address == 0xA10003 {
            self.input.read_p1_data()
        } else if address == 0xA10004 || address == 0xA10005 {
            self.input.read_p2_data()
        } else if address == 0xA10008 || address == 0xA10009 {
            self.input.read_p1_ctrl()
        } else if address == 0xA1000A || address == 0xA1000B {
            self.input.read_p2_ctrl()
        } else if address == 0xA1000E || address == 0xA1000F || address == 0xA10014 || address
            == 0xA10015 || address == 0xA1001A || address == 0xA1001B {
            // TxData registers read as $FF by default
            0xFF
        } else {
            // Other I/O registers read as $00 by default
            0x00
        }
    }

    /// Write an I/O-block register; see [`spec_write_io_ensures`].
    pub fn write_io_register(&mut self, address: u32, value: u8)
        ensures
            spec_write_io_ensures(*old(self), *final(self), address, value),
    {
        if address == 0xA10002 || address == 0xA10003 {
            self.input.write_p1_data(value);
        } else if address == 0xA10004 || address == 0xA10005 {
            self.input.write_p2_data(value);
        } else if address == 0xA10008 || address == 0xA10009 {
            self.input.write_p1_ctrl(value);
        } else if address == 0xA1000A || address == 0xA1000B {
            self.input.write_p2_ctrl(value);
        }
    }

    /// Read a VDP byte port; see [`spec_read_vdp_byte`].
    pub fn read_vdp_byte(&mut self, address: u32) -> (r: u8)
        ensures
            *final(self) == *old(self),
            r == spec_read_vdp_byte(*old(self), address),
    {
        proof {
            crate::bits::lemma_bytes_u16(self.vdp.data);
            crate::bits::lemma_bytes_u16(self.vdp.status);
            crate::bits::lemma_bytes_u16(self.vdp.hv);
        }
        let sel = address & 0x1F;
        if sel == 0 || sel == 2 {
            (self.vdp.read_data() >> 8) as u8
        } else if sel == 1 || sel == 3 {
            (self.vdp.read_data() & 0xFF) as u8
        } else if sel == 4 || sel == 6 {
            (self.vdp.read_status() >> 8) as u8
        } else if sel == 5 || sel == 7 {
            (self.vdp.read_status() & 0xFF) as u8
        } else if sel == 8 || sel == 0xA {
            (self.vdp.hv_counter() >> 8) as u8
        } else if sel == 9 || sel == 0xB {
            (self.vdp.hv_counter() & 0xFF) as u8
        } else {
            // PSG range, unused byte lanes: open bus.
            0xFF
        }
    }

    /// Write a VDP byte port; see [`spec_write_vdp_byte_ensures`].
    pub fn write_vdp_byte(&mut self, address: u32, value: u8)
        ensures
            spec_write_vdp_byte_ensures(*old(self), *final(self), address, value),
    {
        // Byte-size VDP writes duplicate the byte into both word halves.
        let vdp_word: u16 = (value as u16) * 0x101;
        let sel = address & 0x1F;
        if sel <= 3 {
            self.vdp.write_data(vdp_word);
        } else if sel <= 7 {
            self.vdp.write_control(vdp_word);
        } else if sel == 0x11 || sel == 0x13 || sel == 0x15 || sel == 0x17 {
            self.psg.write(value);
        }
    }

    /// Read the Z80's own space; see [`spec_z80_local_read`].
    fn z80_local_read(&mut self, address: u16) -> (r: u8)
        requires
            old(self).wf(),
            address < 0x8000,
        ensures
            *final(self) == *old(self),
            r == spec_z80_local_read(*old(self), address),
    {
        if address < 0x4000 {
            // Z80 sound RAM, mirrored across the lower window
            proof {
                crate::bits::lemma_and_bound_u16(address, 0x1FFF);
            }
            self.memory.audio_ram[(address & 0x1FFF) as usize]
        } else if address < 0x6000 {
            // YM2612: every read returns the status byte
            self.ym2612.read_register()
        } else if 0x7F00 <= address && address < 0x7F20 {
            // VDP ports
            self.read_vdp_byte(address as u32)
        } else {
            // Bank register, unused and invalid ranges: open bus.
            0xFF
        }
    }

    /// Write the Z80's own space; see [`spec_z80_local_write_ensures`].
    fn z80_local_write(&mut self, address: u16, value: u8)
        requires
            old(self).wf(),
            address < 0x8000,
        ensures
            final(self).wf(),
            spec_z80_local_write_ensures(*old(self), *final(self), address, value),
    {
        if address < 0x4000 {
            proof {
                crate::bits::lemma_and_bound_u16(address, 0x1FFF);
            }
            self.memory.audio_ram.set((address & 0x1FFF) as usize, value);
        } else if address < 0x6000 {
            // YM2612 ports, mirrored every 4 addresses
            let sel = address & 0x03;
            if sel == 0 {
                self.ym2612.write_address_1(value);
            } else if sel == 1 {
                self.ym2612.write_data_1(value);
            } else if sel == 2 {
                self.ym2612.write_address_2(value);
            } else {
                self.ym2612.write_data_2(value);
            }
        } else if address < 0x6100 {
            // Bank number register: one bit per write
            self.memory.z80_bank_register.write_bit(bit8(value, 0));
        } else if 0x7F00 <= address && address < 0x7F20 {
            self.write_vdp_byte(address as u32, value);
        }
        // Unused / invalid addresses ignore the write.
    }

    /// A 68000 byte read outside the Z80 window; see
    /// [`spec_read_byte_main`].
    fn read_byte_main(&mut self, a: u32) -> (r: u8)
        requires
            old(self).wf(),
            a <= 0xFFFFFF,
            !(0xA00000 <= a && a <= 0xA0FFFF),
        ensures
            *final(self) == *old(self),
            r == spec_read_byte_main(*old(self), a),
    {
        if a <= 0x3FFFFF {
            self.memory.cartridge.read_byte(a)
        } else if 0xA10000 <= a && a <= 0xA1001F {
            self.read_io_register(a)
        } else if 0xA11100 <= a && a <= 0xA11101 {
            // Z80 BUSREQ: reads 0 while the Z80 is stalled
            if self.z80_stalled {
                0
            } else {
                1
            }
        } else if 0xC00000 <= a && a <= 0xC0001F {
            self.read_vdp_byte(a)
        } else if 0xE00000 <= a {
            proof {
                crate::bits::lemma_and_bound_u32(a, 0xFFFF);
            }
            self.memory.main_ram[(a & 0xFFFF) as usize]
        } else {
            // Unmapped: open bus (the unimplemented timer register block
            // included).
            0xFF
        }
    }

    /// A 68000 byte write outside the Z80 window; see
    /// [`spec_write_byte_main_ensures`].
    fn write_byte_main(&mut self, a: u32, value: u8)
        requires
            old(self).wf(),
            a <= 0xFFFFFF,
            !(0xA00000 <= a && a <= 0xA0FFFF),
        ensures
            final(self).wf(),
            spec_write_byte_main_ensures(*old(self), *final(self), a, value),
    {
        if a <= 0x3FFFFF {
            self.memory.cartridge.write_byte(a, value);
        } else if 0xA10000 <= a && a <= 0xA1001F {
            self.write_io_register(a, value);
        } else if 0xA11100 <= a && a <= 0xA11101 {
            self.memory.signals.z80_busreq = bit8(value, 0);
        } else if 0xA11200 <= a && a <= 0xA11201 {
            self.memory.signals.z80_reset = !bit8(value, 0);
        } else if 0xC00000 <= a && a <= 0xC0001F {
            self.write_vdp_byte(a, value);
        } else if 0xE00000 <= a {
            proof {
                crate::bits::lemma_and_bound_u32(a, 0xFFFF);
            }
            self.memory.main_ram.set((a & 0xFFFF) as usize, value);
        }
        // Unmapped regions (the unimplemented timer register block
        // included) drop the write.
    }

    /// A 68000 byte read anywhere; total over the address space.
    pub fn read_byte(&mut self, address: u32) -> (r: u8)
        requires
            old(self).wf(),
        ensures
            *final(self) == *old(self),
            r == spec_read_byte(*old(self), address),
    {
        let a = address & ADDRESS_MASK;
        proof {
            crate::bits::lemma_and_bound_u32(address, 0xFFFFFF);
            crate::bits::lemma_and_bound_u32(address & 0xFFFFFF, 0x7FFF);
        }
        if 0xA00000 <= a && a <= 0xA0FFFF {
            // Z80 memory map; for 68k access, $8000-$FFFF mirrors
            // $0000-$7FFF
            self.z80_local_read((a & 0x7FFF) as u16)
        } else {
            self.read_byte_main(a)
        }
    }

    /// A 68000 byte write anywhere; total over the address space.
    pub fn write_byte(&mut self, address: u32, value: u8)
        requires
            old(self).wf(),
        ensures
            final(self).wf(),
            spec_write_byte_ensures(*old(self), *final(self), address, value),
    {
        let a = address & ADDRESS_MASK;
        proof {
            crate::bits::lemma_and_bound_u32(address, 0xFFFFFF);
            crate::bits::lemma_and_bound_u32(address & 0xFFFFFF, 0x7FFF);
        }
        if 0xA00000 <= a && a <= 0xA0FFFF {
            self.z80_local_write((a & 0x7FFF) as u16, value);
        } else {
            self.write_byte_main(a, value);
        }
    }

    /// A 68000 word read; the Z80 window and the BUSREQ register mirror
    /// their byte in both halves, and main RAM reads big-endian.
    pub fn read_word(&mut self, address: u32) -> (r: u16)
        requires
            old(self).wf(),
        ensures
            *final(self) == *old(self),
            ({
                let a = address & 0xFFFFFF;
                &&& (a <= 0x3FFFFF ==> r == spec_cartridge_read_word(old(self).memory.cartridge, a))
                &&& (0xA00000 <= a && a <= 0xA0FFFF ==> r == spec_z80_local_read(
                    *old(self),
                    (a & 0x7FFF) as u16,
                ) * 0x101)
                &&& (0xA10000 <= a && a <= 0xA1001F ==> r == spec_read_io_register(*old(self), a))
                &&& (0xA11100 <= a && a <= 0xA11101 ==> r == (if old(self).z80_stalled {
                    0int
                } else {
                    0x101int
                }))
                &&& (0xC00000 <= a && a <= 0xC00003 ==> r == old(self).vdp.data)
                &&& (0xC00004 <= a && a <= 0xC00007 ==> r == old(self).vdp.status)
                &&& (0xC00008 <= a && a <= 0xC0000F ==> r == old(self).vdp.hv)
                &&& (0xE00000 <= a ==> r == crate::bits::spec_word(
                    old(self).memory.main_ram[(a & 0xFFFF) as int],
                    old(self).memory.main_ram[((a & 0xFFFF) + 1) % 0x10000],
                ))
            }),
    {
        let a = address & ADDRESS_MASK;
        proof {
            crate::bits::lemma_and_bound_u32(address, 0xFFFFFF);
            crate::bits::lemma_and_bound_u32(address & 0xFFFFFF, 0x7FFF);
            crate::bits::lemma_and_bound_u32(address & 0xFFFFFF, 0xFFFF);
        }
        if a <= 0x3FFFFF {
            self.memory.cartridge.read_word(a)
        } else if 0xA00000 <= a && a <= 0xA0FFFF {
            // All Z80 access is byte-size; word reads mirror the byte in
            // both halves
            let byte = self.z80_local_read((a & 0x7FFF) as u16);
            (byte as u16) * 0x101
        } else if 0xA10000 <= a && a <= 0xA1001F {
            self.read_io_register(a) as u16
        } else if 0xA11100 <= a && a <= 0xA11101 {
            // Word reads of Z80 BUSREQ mirror the byte in both halves
            if self.z80_stalled {
                0
            } else {
                0x101
            }
        } else if 0xC00000 <= a && a <= 0xC00003 {
            self.vdp.read_data()
        } else if 0xC00004 <= a && a <= 0xC00007 {
            self.vdp.read_status()
        } else if 0xC00008 <= a && a <= 0xC0000F {
            self.vdp.hv_counter()
        } else if 0xE00000 <= a {
            let ram_addr = (a & 0xFFFF) as usize;
            crate::bits::word_from_bytes(
                self.memory.main_ram[ram_addr],
                self.memory.main_ram[(ram_addr + 1) % 0x10000],
            )
        } else {
            0xFFFF
        }
    }

    /// A 68000 word write; a word aimed at the Z80 window degrades to a
    /// byte write of the high byte, and main RAM is written big-endian.
    pub fn write_word(&mut self, address: u32, value: u16)
        requires
            old(self).wf(),
        ensures
            final(self).wf(),
            ({
                let a = address & 0xFFFFFF;
                &&& (a <= 0x3FFFFF ==> exists|m: ExternalMemory|
                    spec_ext_write_ensures(
                        old(self).memory.cartridge.external_memory,
                        m,
                        a,
                        crate::bits::spec_msb(value),
                    ) && spec_ext_write_ensures(
                        m,
                        final(self).memory.cartridge.external_memory,
                        crate::bits::spec_wadd32(a, 1),
                        crate::bits::spec_lsb(value),
                    ) && *final(self) == (MainBus { memory: final(self).memory, ..*old(self) })
                        && final(self).memory == (Memory {
                        cartridge: final(self).memory.cartridge,
                        ..old(self).memory
                    }) && final(self).memory.cartridge == (Cartridge {
                        external_memory: final(self).memory.cartridge.external_memory,
                        ..old(self).memory.cartridge
                    }))
                &&& (0xA00000 <= a && a <= 0xA0FFFF ==> spec_z80_local_write_ensures(
                    *old(self),
                    *final(self),
                    (a & 0x7FFF) as u16,
                    crate::bits::spec_msb(value),
                ))
                &&& (0xA10000 <= a && a <= 0xA1001F ==> spec_write_io_ensures(
                    *old(self),
                    *final(self),
                    a,
                    (value & 0xFF) as u8,
                ))
                &&& (0xA11100 <= a && a <= 0xA11101 ==> *final(self) == (MainBus {
                    memory: final(self).memory,
                    ..*old(self)
                }) && final(self).memory == (Memory {
                    signals: Signals {
                        z80_busreq: crate::bits::spec_bit16(value, 8),
                        z80_reset: old(self).memory.signals.z80_reset,
                    },
                    ..old(self).memory
                }))
                &&& (0xA11200 <= a && a <= 0xA11201 ==> *final(self) == (MainBus {
                    memory: final(self).memory,
                    ..*old(self)
                }) && final(self).memory == (Memory {
                    signals: Signals {
                        z80_busreq: old(self).memory.signals.z80_busreq,
                        z80_reset: !crate::bits::spec_bit16(value, 8),
                    },
                    ..old(self).memory
                }))
                &&& (0xC00000 <= a && a <= 0xC00003 ==> *final(self) == (MainBus {
                    vdp: VdpPort { data: value, ..old(self).vdp },
                    ..*old(self)
                }))
                &&& (0xC00004 <= a && a <= 0xC00007 ==> *final(self) == (MainBus {
                    vdp: VdpPort { control: value, ..old(self).vdp },
                    ..*old(self)
                }))
                &&& (0xE00000 <= a ==> final(self).memory.main_ram@ == old(
                    self,
                ).memory.main_ram@.update(
                    (a & 0xFFFF) as int,
                    crate::bits::spec_msb(value),
                ).update(((a & 0xFFFF) + 1) % 0x10000, crate::bits::spec_lsb(value)) && *final(self)
                    == (MainBus { memory: final(self).memory, ..*old(self) }) && final(self).memory
                    == (Memory { main_ram: final(self).memory.main_ram, ..old(self).memory }))
            }),
    {
        let a = address & ADDRESS_MASK;
        proof {
            crate::bits::lemma_and_bound_u32(address, 0xFFFFFF);
            crate::bits::lemma_and_bound_u32(address & 0xFFFFFF, 0x7FFF);
            crate::bits::lemma_and_bound_u32(address & 0xFFFFFF, 0xFFFF);
        }
        if a <= 0x3FFFFF {
            self.memory.cartridge.write_word(a, value);
        } else if 0xA00000 <= a && a <= 0xA0FFFF {
            // Z80 memory map: word-size writes degrade to a byte write of
            // the MSB
            self.z80_local_write((a & 0x7FFF) as u16, crate::bits::word_msb(value));
        } else if 0xA10000 <= a && a <= 0xA1001F {
            self.write_io_register(a, (value & 0xFF) as u8);
        } else if 0xA11100 <= a && a <= 0xA11101 {
            self.memory.signals.z80_busreq = crate::bits::bit16(value, 8);
        } else if 0xA11200 <= a && a <= 0xA11201 {
            self.memory.signals.z80_reset = !crate::bits::bit16(value, 8);
        } else if 0xC00000 <= a && a <= 0xC00003 {
            self.vdp.write_data(value);
        } else if 0xC00004 <= a && a <= 0xC00007 {
            self.vdp.write_control(value);
        } else if 0xE00000 <= a {
            let ram_addr = (a & 0xFFFF) as usize;
            self.memory.main_ram.set(ram_addr, crate::bits::word_msb(value));
            self.memory.main_ram.set((ram_addr + 1) % 0x10000, crate::bits::word_lsb(value));
        }
        // Other regions (the unimplemented timer register block included)
        // drop the write.
    }

    /// The VDP's current 68000 interrupt level.
    pub fn interrupt_level(&self) -> (r: u8)
        ensures
            r == self.vdp.m68k_interrupt,
    {
        self.vdp.m68k_interrupt_level()
    }

    /// Acknowledge the 68000 interrupt at the VDP.
    pub fn acknowledge_interrupt(&mut self)
        ensures
            *final(self) == (MainBus {
                vdp: VdpPort { m68k_interrupt: 0u8, ..old(self).vdp },
                ..*old(self)
            }),
    {
        self.vdp.acknowledge_m68k_interrupt();
    }

    /// A Z80 read: its own space below $8000, else through the bank window
    /// into the 68000 bus. A window access resolving back into the Z80's
    /// own reserved main-bus range is a hardware lockup, reported
    /// distinctly.
    pub fn read_memory(&mut self, address: u16) -> (r: Result<u8, Z80BankWindowLockup>)
        requires
            old(self).wf(),
        ensures
            *final(self) == *old(self),
            address < 0x8000 ==> r == Ok::<u8, Z80BankWindowLockup>(
                spec_z80_local_read(*old(self), address),
            ),
            address >= 0x8000 ==> ({
                let m = old(self).memory.z80_bank_register.spec_map_to_68k_address(address);
                if 0xA00000 <= m && m <= 0xA0FFFF {
                    r == Err::<u8, Z80BankWindowLockup>(Z80BankWindowLockup {
                        z80_address: address,
                        m68k_address: m,
                    })
                } else {
                    r == Ok::<u8, Z80BankWindowLockup>(spec_read_byte_main(*old(self), m))
                }
            }),
    {
        if address < 0x8000 {
            Result::Ok(self.z80_local_read(address))
        } else {
            let m68k_addr = self.memory.z80_bank_register.map_to_68k_address(address);
            if 0xA00000 <= m68k_addr && m68k_addr <= 0xA0FFFF {
                Result::Err(Z80BankWindowLockup { z80_address: address, m68k_address: m68k_addr })
            } else {
                Result::Ok(self.read_byte_main(m68k_addr))
            }
        }
    }

    /// A Z80 write: its own space below $8000, else through the bank
    /// window, with the same lockup condition as reads.
    pub fn write_memory(&mut self, address: u16, value: u8) -> (r: Result<(), Z80BankWindowLockup>)
        requires
            old(self).wf(),
        ensures
            final(self).wf(),
            address < 0x8000 ==> r is Ok && spec_z80_local_write_ensures(
                *old(self),
                *final(self),
                address,
                value,
            ),
            address >= 0x8000 ==> ({
                let m = old(self).memory.z80_bank_register.spec_map_to_68k_address(address);
                if 0xA00000 <= m && m <= 0xA0FFFF {
                    r == Err::<(), Z80BankWindowLockup>(Z80BankWindowLockup {
                        z80_address: address,
                        m68k_address: m,
                    }) && *final(self) == *old(self)
                } else {
                    r is Ok && spec_write_byte_main_ensures(*old(self), *final(self), m, value)
                }
            }),
    {
        if address < 0x8000 {
            self.z80_local_write(address, value);
            Result::Ok(())
        } else {
            let m68k_addr = self.memory.z80_bank_register.map_to_68k_address(address);
            if 0xA00000 <= m68k_addr && m68k_addr <= 0xA0FFFF {
                Result::Err(Z80BankWindowLockup { z80_address: address, m68k_address: m68k_addr })
            } else {
                self.write_byte_main(m68k_addr, value);
                Result::Ok(())
            }
        }
    }

    /// The Z80's I/O ports are not wired up.
    pub fn read_io(&self, address: u16) -> (r: u8)
        ensures
            r == 0xFF,
    {
        let _ = address;
        0xFF
    }

    /// The Z80's I/O ports are not wired up.
    pub fn write_io(&mut self, address: u16, value: u8)
        ensures
            *final(self) == *old(self),
    {
        let _ = address;
        let _ = value;
    }

    /// The NMI line is not connected to anything.
    pub fn nmi(&self) -> (r: InterruptLine)
        ensures
            r == InterruptLine::High,
    {
        InterruptLine::High
    }

    /// The Z80 INT line comes from the VDP.
    pub fn int_line(&self) -> (r: InterruptLine)
        ensures
            r == self.vdp.z80_interrupt,
    {
        self.vdp.z80_interrupt_line()
    }

    pub fn busreq(&self) -> (r: bool)
        ensures
            r == self.memory.signals.z80_busreq,
    {
        self.memory.signals.z80_busreq
    }

    pub fn reset(&self) -> (r: bool)
        ensures
            r == self.memory.signals.z80_reset,
    {
        self.memory.signals.z80_reset
    }
}

impl MainBus {
    /// Runtime well-formedness test, used by the bus-trait impl (trait
    /// impls cannot add preconditions).
    fn wf_check(&self) -> (r: bool)
        ensures
            r == self.wf(),
    {
        let e = &self.memory.cartridge.external_memory;
        let ext_ok = e.ram.len() == 0 || (e.start_address <= e.end_address && e.ram.len() as u64
            == (e.end_address - e.start_address) as u64 + 1);
        ext_ok && self.memory.main_ram.len() == MAIN_RAM_LEN && self.memory.audio_ram.len()
            == AUDIO_RAM_LEN && self.memory.z80_bank_register.bank_number < 0x200
    }
}

impl crate::m68k::BusInterface for MainBus {
    open spec fn ops(&self) -> Seq<crate::m68k::BusOp> {
        self.trace@
    }

    fn read_byte(&mut self, address: u32) -> (r: u8)
        ensures
            old(self).wf() ==> {
                &&& *final(self) == (MainBus { trace: final(self).trace, ..*old(self) })
                &&& r == spec_read_byte(*old(self), address)
            },
    {
        let value = if self.wf_check() {
            MainBus::read_byte(self, address)
        } else {
            // An ill-formed bus reads as open bus (trait impls cannot add
            // preconditions; a bus built by this library is always
            // well-formed).
            0xFF
        };
        self.trace = Ghost(
            self.trace@.push(crate::m68k::BusOp::ReadByte { address, value }),
        );
        value
    }

    fn read_word(&mut self, address: u32) -> (r: u16)
        ensures
            old(self).wf() ==> *final(self) == (MainBus {
                trace: final(self).trace,
                ..*old(self)
            }),
    {
        let value = if self.wf_check() {
            MainBus::read_word(self, address)
        } else {
            0xFFFF
        };
        self.trace = Ghost(
            self.trace@.push(crate::m68k::BusOp::ReadWord { address, value }),
        );
        value
    }

    fn write_byte(&mut self, address: u32, value: u8)
        ensures
            old(self).wf() ==> spec_write_byte_ensures(
                *old(self),
                (MainBus { trace: old(self).trace, ..*final(self) }),
                address,
                value,
            ),
    {
        if self.wf_check() {
            MainBus::write_byte(self, address, value);
        }
        self.trace = Ghost(
            self.trace@.push(crate::m68k::BusOp::WriteByte { address, value }),
        );
    }

    fn write_word(&mut self, address: u32, value: u16)
    {
        let ghost entry_trace = self.trace@;
        if self.wf_check() {
            MainBus::write_word(self, address, value);
        }
        self.trace = Ghost(
            entry_trace.push(crate::m68k::BusOp::WriteWord { address, value }),
        );
    }

    fn interrupt_level(&self) -> (r: u8)
        ensures
            r == self.vdp.m68k_interrupt,
    {
        MainBus::interrupt_level(self)
    }

    fn acknowledge_interrupt(&mut self)
        ensures
            *final(self) == (MainBus {
                vdp: VdpPort { m68k_interrupt: 0u8, ..old(self).vdp },
                ..*old(self)
            }),
    {
        MainBus::acknowledge_interrupt(self)
    }
}

} // verus!
