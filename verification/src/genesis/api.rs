//! Console-level types for the Genesis driver: hardware region detection
//! from the ROM header, aspect-ratio and error classification, and the
//! exact clock-divider arithmetic of the tick loop.

use vstd::prelude::*;
use crate::bits::spec_bit8;
use crate::TimingMode;

verus! {

/// The 68000 runs at master clock / 7.
pub const M68K_MCLK_DIVIDER: u64 = 7;

/// The Z80 runs at master clock / 15.
pub const Z80_MCLK_DIVIDER: u64 = 15;

/// Which collaborator failed during a tick.
#[derive(Debug)]
pub enum GenesisError<RErr, AErr, SErr> {
    Render(RErr),
    Audio(AErr),
    Save(SErr),
}

impl<RErr, AErr, SErr> GenesisError<RErr, AErr, SErr> {
    /// A short description of which collaborator failed.
    pub fn category(&self) -> (r: &'static str)
        ensures
            self is Render ==> r@ == "rendering error"@,
            self is Audio ==> r@ == "audio output error"@,
            self is Save ==> r@ == "save write error"@,
    {
        match self {
            Self::Render(_) => "rendering error",
            Self::Audio(_) => "audio output error",
            Self::Save(_) => "save write error",
        }
    }
}

/// How frames should be stretched for display.
#[derive(Debug, Clone, Copy, PartialEq, Eq, Structural)]
pub enum GenesisAspectRatio {
    Ntsc,
    Pal,
    SquarePixels,
    Stretched,
}

impl Default for GenesisAspectRatio {
    /// NTSC is the default display mode.
    fn default() -> (r: Self)
        ensures
            r == GenesisAspectRatio::Ntsc,
    {
        GenesisAspectRatio::Ntsc
    }
}

/// Console hardware region.
#[derive(Debug, Clone, Copy, PartialEq, Eq, Structural)]
pub enum GenesisRegion {
    Americas,
    Japan,
    Europe,
}

/// Whether one of the three ROM-header region bytes equals `b`.
pub open spec fn spec_region_bytes_contain(rom: Seq<u8>, b: u8) -> bool {
    exists|i: int| 0x1F0 <= i < 0x1F3 && rom[i] == b
}

/// The value of an ASCII hexadecimal digit.
pub open spec fn spec_hex_value(b: u8) -> Option<u8> {
    if 0x30 <= b <= 0x39 {
        Some((b - 0x30) as u8)
    } else if 0x41 <= b <= 0x46 {
        Some((b - 0x41 + 10) as u8)
    } else if 0x61 <= b <= 0x66 {
        Some((b - 0x61 + 10) as u8)
    } else {
        None::<u8>
    }
}

/// Region selection from the ROM header bytes at $1F0-$1F2: a literal 'U'
/// wins over everything, then 'J', then 'E'; otherwise the first byte is
/// read as a hexadecimal region bitmask (bit 2 Americas, bit 0 Asia,
/// bit 3 Europe).
pub open spec fn spec_region_from_rom(rom: Seq<u8>) -> Option<GenesisRegion> {
    if spec_region_bytes_contain(rom, 0x55) {
        Some(GenesisRegion::Americas)
    } else if spec_region_bytes_contain(rom, 0x4A) {
        Some(GenesisRegion::Japan)
    } else if spec_region_bytes_contain(rom, 0x45) {
        Some(GenesisRegion::Europe)
    } else {
        match spec_hex_value(rom[0x1F0]) {
            Some(value) => {
                if spec_bit8(value, 2) {
                    Some(GenesisRegion::Americas)
                } else if spec_bit8(value, 0) {
                    Some(GenesisRegion::Japan)
                } else if spec_bit8(value, 3) {
                    Some(GenesisRegion::Europe)
                } else {
                    None::<GenesisRegion>
                }
            }
            None => None::<GenesisRegion>,
        }
    }
}

/// The value of an ASCII hexadecimal digit.
fn hex_value(b: u8) -> (r: Option<u8>)
    ensures
        r == spec_hex_value(b),
{
    if 0x30 <= b && b <= 0x39 {
        Option::Some(b - 0x30)
    } else if 0x41 <= b && b <= 0x46 {
        Option::Some(b - 0x41 + 10)
    } else if 0x61 <= b && b <= 0x66 {
        Option::Some(b - 0x61 + 10)
    } else {
        Option::None
    }
}

impl GenesisRegion {
    /// Detect the region from the ROM header; see [`spec_region_from_rom`].
    /// A header containing 'U' always selects the Americas, whatever else
    /// is present.
    pub fn from_rom(rom: &[u8]) -> (r: Option<GenesisRegion>)
        requires
            rom.len() >= 0x1F3,
        ensures
            r == spec_region_from_rom(rom@),
            spec_region_bytes_contain(rom@, 0x55) ==> r == Some(GenesisRegion::Americas),
    {
        let b0 = rom[0x1F0];
        let b1 = rom[0x1F1];
        let b2 = rom[0x1F2];

        // Prefer Americas if the region code contains a 'U'.
        if b0 == 0x55 || b1 == 0x55 || b2 == 0x55 {
            proof {
                assert(spec_region_bytes_contain(rom@, 0x55)) by {
                    if b0 == 0x55 {
                        assert(rom@[0x1F0] == 0x55u8);
                    } else if b1 == 0x55 {
                        assert(rom@[0x1F1] == 0x55u8);
                    } else {
                        assert(rom@[0x1F2] == 0x55u8);
                    }
                }
            }
            return Option::Some(GenesisRegion::Americas);
        }

        // Otherwise prefer Japan if it contains a 'J'.
        if b0 == 0x4A || b1 == 0x4A || b2 == 0x4A {
            proof {
                assert(spec_region_bytes_contain(rom@, 0x4A)) by {
                    if b0 == 0x4A {
                        assert(rom@[0x1F0] == 0x4Au8);
                    } else if b1 == 0x4A {
                        assert(rom@[0x1F1] == 0x4Au8);
                    } else {
                        assert(rom@[0x1F2] == 0x4Au8);
                    }
                }
            }
            return Option::Some(GenesisRegion::Japan);
        }

        // Finally prefer Europe if it contains an 'E'.
        if b0 == 0x45 || b1 == 0x45 || b2 == 0x45 {
            proof {
                assert(spec_region_bytes_contain(rom@, 0x45)) by {
                    if b0 == 0x45 {
                        assert(rom@[0x1F0] == 0x45u8);
                    } else if b1 == 0x45 {
                        assert(rom@[0x1F1] == 0x45u8);
                    } else {
                        assert(rom@[0x1F2] == 0x45u8);
                    }
                }
            }
            return Option::Some(GenesisRegion::Europe);
        }

        // With none of 'U'/'J'/'E' present, read the first byte as a
        // hexadecimal region bitmask.
        let value = match hex_value(b0) {
            Option::Some(value) => value,
            Option::None => {
                return Option::None;
            }
        };
        if crate::bits::bit8(value, 2) {
            // Bit 2 = Americas
            Option::Some(GenesisRegion::Americas)
        } else if crate::bits::bit8(value, 0) {
            // Bit 0 = Asia
            Option::Some(GenesisRegion::Japan)
        } else if crate::bits::bit8(value, 3) {
            // Bit 3 = Europe
            Option::Some(GenesisRegion::Europe)
        } else {
            // Invalid bitmask
            Option::None
        }
    }

    /// The version-register bit distinguishing domestic from export
    /// hardware.
    pub fn version_bit(self) -> (r: bool)
        ensures
            r == (self != GenesisRegion::Japan),
    {
        match self {
            Self::Japan => false,
            Self::Americas | Self::Europe => true,
        }
    }

    /// The timing mode a console of this region runs at unless overridden.
    pub fn default_timing_mode(self) -> (r: TimingMode)
        ensures
            r == (if self == GenesisRegion::Europe { TimingMode::Pal } else { TimingMode::Ntsc }),
    {
        match self {
            Self::Europe => TimingMode::Pal,
            Self::Americas | Self::Japan => TimingMode::Ntsc,
        }
    }
}

/// The Z80 cycles owed after one 68000 instruction, by cumulative
/// master-clock differencing: the 68000 cycles are converted to master
/// clocks, and the Z80 advances by however many Z80 clock periods fit into
/// the new total that did not fit into the old one. Carrying the cumulative
/// counter (rather than rounding per tick) means no drift over a long run.
///
/// Returns `(z80_cycles, new_master_clock_cycles)`.
pub fn z80_cycle_budget(master_clock_cycles: u64, m68k_cycles: u32) -> (r: (u64, u64))
    requires
        master_clock_cycles <= 0xFFFF_FFF0_0000_0000,
    ensures
        ({
            let elapsed = (m68k_cycles as int) * (M68K_MCLK_DIVIDER as int);
            let total = master_clock_cycles + elapsed;
            &&& r.1 == total
            &&& r.0 == total / 15 - (master_clock_cycles as int) / 15
        }),
{
    let elapsed_mclk_cycles = (m68k_cycles as u64) * M68K_MCLK_DIVIDER;
    proof {
        let m = m68k_cycles as u64;
        assert(m * 7 <= 0xFFFF_FFFFu64 * 7) by (nonlinear_arith)
            requires
                m <= 0xFFFF_FFFFu64,
        ;
        assert(elapsed_mclk_cycles <= 0xFFFF_FFFFu64 * 7);
    }
    let total = master_clock_cycles + elapsed_mclk_cycles;
    let z80_cycles = total / Z80_MCLK_DIVIDER - master_clock_cycles / Z80_MCLK_DIVIDER;
    proof {
        assert(total / 15 >= master_clock_cycles / 15) by (nonlinear_arith)
            requires
                total >= master_clock_cycles,
        ;
    }
    (z80_cycles, total)
}

/// The cumulative master-clock count after a run of ticks, each
/// contributing its elapsed master clocks.
pub open spec fn spec_cumulative_mclk(mclk0: int, elapsed: Seq<int>) -> int
    decreases elapsed.len(),
{
    if elapsed.len() == 0 {
        mclk0
    } else {
        spec_cumulative_mclk(mclk0, elapsed.drop_last()) + elapsed.last()
    }
}

/// The Z80 cycles granted over a run of ticks, each tick granted by
/// cumulative differencing as [`z80_cycle_budget`] computes it.
pub open spec fn spec_z80_cycles_granted(mclk0: int, elapsed: Seq<int>) -> int
    decreases elapsed.len(),
{
    if elapsed.len() == 0 {
        0
    } else {
        spec_z80_cycles_granted(mclk0, elapsed.drop_last()) + (spec_cumulative_mclk(
            mclk0,
            elapsed,
        ) / 15 - spec_cumulative_mclk(mclk0, elapsed.drop_last()) / 15)
    }
}

/// Cumulative differencing never drifts: over any run of ticks, the Z80
/// cycles granted add up to exactly the whole Z80 periods contained in
/// the total master clocks elapsed — however the run is cut into ticks.
pub proof fn lemma_z80_budget_never_drifts(mclk0: int, elapsed: Seq<int>)
    ensures
        spec_z80_cycles_granted(mclk0, elapsed) == spec_cumulative_mclk(mclk0, elapsed) / 15
            - mclk0 / 15,
    decreases elapsed.len(),
{
    if elapsed.len() > 0 {
        lemma_z80_budget_never_drifts(mclk0, elapsed.drop_last());
    }
}

} // verus!
