//! Save states: a compact, self-describing byte encoding of machine
//! state, with the round-trip proved — decoding an encoding returns
//! exactly the state that was encoded, so a restored machine continues
//! exactly as the original would. ROM images are deliberately excluded
//! and re-attached on load.

use vstd::prelude::*;
use crate::bits::{spec_lsb, spec_msb, spec_word};
use crate::gb::apu::components::{Envelope, PulseTimer, StandardLengthCounter};
use crate::gb::apu::pulse::{DutyCycle, PulseChannel, SweepUnit};
use crate::gb::sm83::{Flags, Registers, Sm83, State};
use crate::genesis::api::GenesisRegion;
use crate::genesis::memory::{Cartridge, ExternalMemory, Memory, Rom, Signals, Z80BankRegister};

verus! {

/// A bool as its encoded byte.
pub open spec fn spec_bool_byte(b: bool) -> u8 {
    if b {
        1u8
    } else {
        0u8
    }
}

/// The encoding of a CPU snapshot: registers in order, then the
/// execution-state latches. 19 bytes.
pub open spec fn spec_encode_sm83(c: Sm83) -> Seq<u8> {
    seq![
        c.registers.a,
        c.registers.f.spec_to_byte(),
        c.registers.b,
        c.registers.c,
        c.registers.d,
        c.registers.e,
        c.registers.h,
        c.registers.l,
        spec_lsb(c.registers.sp),
        spec_msb(c.registers.sp),
        spec_lsb(c.registers.pc),
        spec_msb(c.registers.pc),
        spec_bool_byte(c.registers.ime),
        spec_bool_byte(c.state.pending_ime_set),
        spec_bool_byte(c.state.handling_interrupt),
        spec_bool_byte(c.state.halted),
        spec_bool_byte(c.state.halt_bug_triggered),
        spec_bool_byte(c.state.executed_invalid_opcode),
        spec_bool_byte(c.state.stopped),
    ]
}

/// Decode a CPU snapshot at `pos`; any 19 bytes decode to a state.
pub open spec fn spec_decode_sm83(data: Seq<u8>, pos: int) -> Option<(Sm83, int)> {
    if 0 <= pos && pos + 19 <= data.len() {
        Some(
            (
                Sm83 {
                    registers: Registers {
                        a: data[pos],
                        f: Flags::spec_from_byte(data[pos + 1]),
                        b: data[pos + 2],
                        c: data[pos + 3],
                        d: data[pos + 4],
                        e: data[pos + 5],
                        h: data[pos + 6],
                        l: data[pos + 7],
                        sp: spec_word(data[pos + 9], data[pos + 8]),
                        pc: spec_word(data[pos + 11], data[pos + 10]),
                        ime: data[pos + 12] != 0,
                    },
                    state: State {
                        pending_ime_set: data[pos + 13] != 0,
                        handling_interrupt: data[pos + 14] != 0,
                        halted: data[pos + 15] != 0,
                        halt_bug_triggered: data[pos + 16] != 0,
                        executed_invalid_opcode: data[pos + 17] != 0,
                        stopped: data[pos + 18] != 0,
                    },
                },
                pos + 19,
            ),
        )
    } else {
        None::<(Sm83, int)>
    }
}

/// The F register byte decodes back to exactly the flags it encodes.
pub proof fn lemma_flags_roundtrip(f: Flags)
    ensures
        Flags::spec_from_byte(f.spec_to_byte()) == f,
{
    let z: u8 = if f.zero { 1 } else { 0 };
    let n: u8 = if f.subtract { 1 } else { 0 };
    let h: u8 = if f.half_carry { 1 } else { 0 };
    let c: u8 = if f.carry { 1 } else { 0 };
    let v: u8 = (z * 0x80 + n * 0x40 + h * 0x20 + c * 0x10) as u8;
    assert((v >> 7) & 1 == z && (v >> 6) & 1 == n && (v >> 5) & 1 == h && (v >> 4) & 1 == c)
        by (bit_vector)
        requires
            z <= 1 && n <= 1 && h <= 1 && c <= 1 && v == z * 0x80 + n * 0x40 + h * 0x20 + c * 0x10,
    ;
}

/// Round-trip: decoding an encoded CPU snapshot returns exactly the
/// snapshot that was encoded.
pub proof fn lemma_sm83_roundtrip(c: Sm83)
    ensures
        spec_decode_sm83(spec_encode_sm83(c), 0) == Some((c, 19int)),
{
    lemma_flags_roundtrip(c.registers.f);
    crate::bits::lemma_word_roundtrip(c.registers.sp);
    crate::bits::lemma_word_roundtrip(c.registers.pc);
}

/// Append one byte.
fn put_u8(out: &mut Vec<u8>, v: u8)
    ensures
        final(out)@ == old(out)@.push(v),
{
    out.push(v);
}

/// Append a word, low byte first.
fn put_u16(out: &mut Vec<u8>, v: u16)
    ensures
        final(out)@ == old(out)@.push(spec_lsb(v)).push(spec_msb(v)),
{
    out.push(crate::bits::word_lsb(v));
    out.push(crate::bits::word_msb(v));
}

/// Append a bool as 0 or 1.
fn put_bool(out: &mut Vec<u8>, v: bool)
    ensures
        final(out)@ == old(out)@.push(spec_bool_byte(v)),
{
    out.push(if v { 1 } else { 0 });
}

/// Encode a CPU snapshot; see [`spec_encode_sm83`].
pub fn encode_sm83(c: &Sm83, out: &mut Vec<u8>)
    ensures
        final(out)@ == old(out)@ + spec_encode_sm83(*c),
{
    put_u8(out, c.registers.a);
    put_u8(out, c.registers.f.to_byte());
    put_u8(out, c.registers.b);
    put_u8(out, c.registers.c);
    put_u8(out, c.registers.d);
    put_u8(out, c.registers.e);
    put_u8(out, c.registers.h);
    put_u8(out, c.registers.l);
    put_u16(out, c.registers.sp);
    put_u16(out, c.registers.pc);
    put_bool(out, c.registers.ime);
    put_bool(out, c.state.pending_ime_set);
    put_bool(out, c.state.handling_interrupt);
    put_bool(out, c.state.halted);
    put_bool(out, c.state.halt_bug_triggered);
    put_bool(out, c.state.executed_invalid_opcode);
    put_bool(out, c.state.stopped);
    proof {
        assert(final(out)@ =~= old(out)@ + spec_encode_sm83(*c));
    }
}

/// Decode a CPU snapshot; see [`spec_decode_sm83`].
pub fn decode_sm83(data: &Vec<u8>, pos: usize) -> (r: Option<(Sm83, usize)>)
    ensures
        ({
            let s = spec_decode_sm83(data@, pos as int);
            match s {
                Some((c, end)) => r matches Some(rr) && rr.0 == c && rr.1 == end,
                None => r is None,
            }
        }),
{
    if pos >= data.len() || data.len() - pos < 19 {
        return Option::None;
    }
    let registers = Registers {
        a: data[pos],
        f: Flags::from_byte(data[pos + 1]),
        b: data[pos + 2],
        c: data[pos + 3],
        d: data[pos + 4],
        e: data[pos + 5],
        h: data[pos + 6],
        l: data[pos + 7],
        sp: crate::bits::word_from_bytes(data[pos + 9], data[pos + 8]),
        pc: crate::bits::word_from_bytes(data[pos + 11], data[pos + 10]),
        ime: data[pos + 12] != 0,
    };
    let state = State {
        pending_ime_set: data[pos + 13] != 0,
        handling_interrupt: data[pos + 14] != 0,
        halted: data[pos + 15] != 0,
        halt_bug_triggered: data[pos + 16] != 0,
        executed_invalid_opcode: data[pos + 17] != 0,
        stopped: data[pos + 18] != 0,
    };
    Option::Some((Sm83 { registers, state }, pos + 19))
}

/// A duty cycle as its encoded byte.
pub open spec fn spec_duty_byte(d: DutyCycle) -> u8 {
    match d {
        DutyCycle::OneEighth => 0u8,
        DutyCycle::OneFourth => 1u8,
        DutyCycle::OneHalf => 2u8,
        DutyCycle::ThreeFourths => 3u8,
    }
}

/// Any byte decodes to a duty cycle (values past 3 saturate).
pub open spec fn spec_byte_duty(b: u8) -> DutyCycle {
    if b == 0 {
        DutyCycle::OneEighth
    } else if b == 1 {
        DutyCycle::OneFourth
    } else if b == 2 {
        DutyCycle::OneHalf
    } else {
        DutyCycle::ThreeFourths
    }
}

/// The encoding of a pulse channel: duty, length counter, envelope,
/// sweep, timer, then the enable bits. 24 bytes.
pub open spec fn spec_encode_pulse(p: PulseChannel) -> Seq<u8> {
    seq![
        spec_duty_byte(p.duty_cycle),
        spec_lsb(p.length_counter.counter),
        spec_msb(p.length_counter.counter),
        spec_bool_byte(p.length_counter.enabled),
        p.envelope.volume,
        p.envelope.initial_volume,
        spec_bool_byte(p.envelope.increase),
        p.envelope.period,
        p.envelope.counter,
        spec_bool_byte(p.sweep.enabled),
        spec_lsb(p.sweep.shadow_frequency),
        spec_msb(p.sweep.shadow_frequency),
        p.sweep.counter,
        p.sweep.period,
        p.sweep.shift,
        spec_bool_byte(p.sweep.negate),
        spec_bool_byte(p.sweep.calculated_with_negate_since_trigger),
        spec_lsb(p.timer.frequency),
        spec_msb(p.timer.frequency),
        spec_lsb(p.timer.counter),
        spec_msb(p.timer.counter),
        p.timer.phase,
        spec_bool_byte(p.channel_enabled),
        spec_bool_byte(p.dac_enabled),
    ]
}

/// Decode a pulse channel at `pos`; any 24 bytes decode to a channel.
pub open spec fn spec_decode_pulse(data: Seq<u8>, pos: int) -> Option<(PulseChannel, int)> {
    if 0 <= pos && pos + 24 <= data.len() {
        Some(
            (
                PulseChannel {
                    duty_cycle: spec_byte_duty(data[pos]),
                    length_counter: StandardLengthCounter {
                        counter: spec_word(data[pos + 2], data[pos + 1]),
                        enabled: data[pos + 3] != 0,
                    },
                    envelope: Envelope {
                        volume: data[pos + 4],
                        initial_volume: data[pos + 5],
                        increase: data[pos + 6] != 0,
                        period: data[pos + 7],
                        counter: data[pos + 8],
                    },
                    sweep: SweepUnit {
                        enabled: data[pos + 9] != 0,
                        shadow_frequency: spec_word(data[pos + 11], data[pos + 10]),
                        counter: data[pos + 12],
                        period: data[pos + 13],
                        shift: data[pos + 14],
                        negate: data[pos + 15] != 0,
                        calculated_with_negate_since_trigger: data[pos + 16] != 0,
                    },
                    timer: PulseTimer {
                        frequency: spec_word(data[pos + 18], data[pos + 17]),
                        counter: spec_word(data[pos + 20], data[pos + 19]),
                        phase: data[pos + 21],
                    },
                    channel_enabled: data[pos + 22] != 0,
                    dac_enabled: data[pos + 23] != 0,
                },
                pos + 24,
            ),
        )
    } else {
        None::<(PulseChannel, int)>
    }
}

/// Round-trip: decoding an encoded pulse channel returns exactly the
/// channel that was encoded.
pub proof fn lemma_pulse_roundtrip(p: PulseChannel)
    ensures
        spec_decode_pulse(spec_encode_pulse(p), 0) == Some((p, 24int)),
{
    crate::bits::lemma_word_roundtrip(p.length_counter.counter);
    crate::bits::lemma_word_roundtrip(p.sweep.shadow_frequency);
    crate::bits::lemma_word_roundtrip(p.timer.frequency);
    crate::bits::lemma_word_roundtrip(p.timer.counter);
}

/// Encode a pulse channel; see [`spec_encode_pulse`].
#[verifier::rlimit(60)]
pub fn encode_pulse_channel(p: &PulseChannel, out: &mut Vec<u8>)
    ensures
        final(out)@ == old(out)@ + spec_encode_pulse(*p),
{
    let duty: u8 = match p.duty_cycle {
        DutyCycle::OneEighth => 0,
        DutyCycle::OneFourth => 1,
        DutyCycle::OneHalf => 2,
        DutyCycle::ThreeFourths => 3,
    };
    put_u8(out, duty);
    put_u16(out, p.length_counter.counter);
    put_bool(out, p.length_counter.enabled);
    put_u8(out, p.envelope.volume);
    put_u8(out, p.envelope.initial_volume);
    put_bool(out, p.envelope.increase);
    put_u8(out, p.envelope.period);
    put_u8(out, p.envelope.counter);
    put_bool(out, p.sweep.enabled);
    put_u16(out, p.sweep.shadow_frequency);
    put_u8(out, p.sweep.counter);
    put_u8(out, p.sweep.period);
    put_u8(out, p.sweep.shift);
    put_bool(out, p.sweep.negate);
    put_bool(out, p.sweep.calculated_with_negate_since_trigger);
    put_u16(out, p.timer.frequency);
    put_u16(out, p.timer.counter);
    put_u8(out, p.timer.phase);
    put_bool(out, p.channel_enabled);
    put_bool(out, p.dac_enabled);
    proof {
        assert(final(out)@ =~= old(out)@ + spec_encode_pulse(*p));
    }
}

/// Decode a pulse channel; see [`spec_decode_pulse`].
pub fn decode_pulse_channel(data: &Vec<u8>, pos: usize) -> (r: Option<(PulseChannel, usize)>)
    ensures
        ({
            let s = spec_decode_pulse(data@, pos as int);
            match s {
                Some((p, end)) => r matches Some(rr) && rr.0 == p && rr.1 == end,
                None => r is None,
            }
        }),
{
    if pos >= data.len() || data.len() - pos < 24 {
        return Option::None;
    }
    let duty = if data[pos] == 0 {
        DutyCycle::OneEighth
    } else if data[pos] == 1 {
        DutyCycle::OneFourth
    } else if data[pos] == 2 {
        DutyCycle::OneHalf
    } else {
        DutyCycle::ThreeFourths
    };
    let channel = PulseChannel {
        duty_cycle: duty,
        length_counter: StandardLengthCounter {
            counter: crate::bits::word_from_bytes(data[pos + 2], data[pos + 1]),
            enabled: data[pos + 3] != 0,
        },
        envelope: Envelope {
            volume: data[pos + 4],
            initial_volume: data[pos + 5],
            increase: data[pos + 6] != 0,
            period: data[pos + 7],
            counter: data[pos + 8],
        },
        sweep: SweepUnit {
            enabled: data[pos + 9] != 0,
            shadow_frequency: crate::bits::word_from_bytes(data[pos + 11], data[pos + 10]),
            counter: data[pos + 12],
            period: data[pos + 13],
            shift: data[pos + 14],
            negate: data[pos + 15] != 0,
            calculated_with_negate_since_trigger: data[pos + 16] != 0,
        },
        timer: PulseTimer {
            frequency: crate::bits::word_from_bytes(data[pos + 18], data[pos + 17]),
            counter: crate::bits::word_from_bytes(data[pos + 20], data[pos + 19]),
            phase: data[pos + 21],
        },
        channel_enabled: data[pos + 22] != 0,
        dac_enabled: data[pos + 23] != 0,
    };
    Option::Some((channel, pos + 24))
}

/// The encoding of a byte blob: a 32-bit little-endian length prefix,
/// then the bytes.
pub open spec fn spec_encode_bytes(v: Seq<u8>) -> Seq<u8> {
    seq![
        (v.len() as u32 % 0x100) as u8,
        ((v.len() as u32 / 0x100) % 0x100) as u8,
        ((v.len() as u32 / 0x10000) % 0x100) as u8,
        ((v.len() as u32 / 0x1000000) % 0x100) as u8,
    ] + v
}

/// Decode a byte blob at `pos`.
pub open spec fn spec_decode_bytes(data: Seq<u8>, pos: int) -> Option<(Seq<u8>, int)> {
    if 0 <= pos && pos + 4 <= data.len() {
        let n = data[pos] + data[pos + 1] * 0x100 + data[pos + 2] * 0x10000 + data[pos + 3]
            * 0x1000000;
        if pos + 4 + n <= data.len() {
            Some((data.subrange(pos + 4, pos + 4 + n), pos + 4 + n))
        } else {
            None::<(Seq<u8>, int)>
        }
    } else {
        None::<(Seq<u8>, int)>
    }
}

/// Round-trip: decoding an encoded blob returns exactly the bytes that
/// were encoded.
pub proof fn lemma_bytes_roundtrip(v: Seq<u8>)
    requires
        v.len() < 0x1_0000_0000,
    ensures
        spec_decode_bytes(spec_encode_bytes(v), 0) == Some((v, 4 + v.len() as int)),
{
    let e = spec_encode_bytes(v);
    let n = v.len() as u32;
    assert((n % 0x100) + ((n / 0x100) % 0x100) * 0x100 + ((n / 0x10000) % 0x100) * 0x10000 + ((n
        / 0x1000000) % 0x100) * 0x1000000 == n) by (bit_vector);
    assert(e.subrange(4, 4 + v.len() as int) =~= v);
}

/// Encode a byte blob; see [`spec_encode_bytes`].
pub fn encode_bytes(v: &Vec<u8>, out: &mut Vec<u8>)
    requires
        v.len() < 0x1_0000_0000,
    ensures
        final(out)@ == old(out)@ + spec_encode_bytes(v@),
{
    let n = v.len() as u32;
    put_u8(out, (n % 0x100) as u8);
    put_u8(out, ((n / 0x100) % 0x100) as u8);
    put_u8(out, ((n / 0x10000) % 0x100) as u8);
    put_u8(out, ((n / 0x1000000) % 0x100) as u8);
    let mut i: usize = 0;
    let ghost prefix = out@;
    while i < v.len()
        invariant
            i <= v.len(),
            out@ =~= prefix + v@.take(i as int),
        decreases v.len() - i,
    {
        out.push(v[i]);
        proof {
            assert(prefix + v@.take(i as int) + seq![v@[i as int]] =~= prefix + v@.take(i + 1));
        }
        i = i + 1;
    }
    proof {
        assert(v@.take(v@.len() as int) =~= v@);
        assert(final(out)@ =~= old(out)@ + spec_encode_bytes(v@));
    }
}

/// Decode a byte blob; see [`spec_decode_bytes`].
pub fn decode_bytes(data: &Vec<u8>, pos: usize) -> (r: Option<(Vec<u8>, usize)>)
    ensures
        ({
            let s = spec_decode_bytes(data@, pos as int);
            match s {
                Some((v, end)) => r matches Some(rr) && rr.0@ == v && rr.1 == end,
                None => r is None,
            }
        }),
{
    if pos >= data.len() || data.len() - pos < 4 {
        return Option::None;
    }
    let n: u64 = data[pos] as u64 + data[pos + 1] as u64 * 0x100 + data[pos + 2] as u64 * 0x10000
        + data[pos + 3] as u64 * 0x1000000;
    if n > (data.len() - pos - 4) as u64 {
        return Option::None;
    }
    let count = n as usize;
    let mut v: Vec<u8> = Vec::new();
    let mut i: usize = 0;
    while i < count
        invariant
            i <= count,
            pos + 4 + count <= data.len(),
            v@ =~= data@.subrange(pos + 4, pos + 4 + i),
        decreases count - i,
    {
        v.push(data[pos + 4 + i]);
        proof {
            assert(v@ =~= data@.subrange(pos + 4, pos + 4 + i + 1));
        }
        i = i + 1;
    }
    Option::Some((v, pos + 4 + count))
}

/// A little-endian u32 as four bytes.
pub open spec fn spec_u32le(x: u32) -> Seq<u8> {
    seq![
        (x % 0x100) as u8,
        ((x / 0x100) % 0x100) as u8,
        ((x / 0x10000) % 0x100) as u8,
        ((x / 0x1000000) % 0x100) as u8,
    ]
}

/// The u32 encoded little-endian at `pos`.
pub open spec fn spec_read_u32le(data: Seq<u8>, pos: int) -> u32 {
    (data[pos] + data[pos + 1] * 0x100 + data[pos + 2] * 0x10000 + data[pos + 3]
        * 0x1000000) as u32
}

/// Reassembling the four little-endian bytes of a u32 gives it back.
pub proof fn lemma_u32le_roundtrip(x: u32)
    ensures
        spec_read_u32le(spec_u32le(x), 0) == x,
{
    assert((x % 0x100) + ((x / 0x100) % 0x100) * 0x100 + ((x / 0x10000) % 0x100) * 0x10000 + ((x
        / 0x1000000) % 0x100) * 0x1000000 == x) by (bit_vector);
}

/// A region as its encoded byte.
pub open spec fn spec_region_byte(r: GenesisRegion) -> u8 {
    match r {
        GenesisRegion::Americas => 0u8,
        GenesisRegion::Japan => 1u8,
        GenesisRegion::Europe => 2u8,
    }
}

/// Any byte decodes to a region (values past 2 saturate).
pub open spec fn spec_byte_region(b: u8) -> GenesisRegion {
    if b == 0 {
        GenesisRegion::Americas
    } else if b == 1 {
        GenesisRegion::Japan
    } else {
        GenesisRegion::Europe
    }
}

/// The state a Genesis memory snapshot carries: both RAM images, the Z80
/// bank register, the control signals, and the cartridge's non-ROM state.
/// ROM bytes are deliberately not part of it.
pub struct MemoryImage {
    pub main_ram: Seq<u8>,
    pub audio_ram: Seq<u8>,
    pub bank_number: u32,
    pub current_bit: u8,
    pub z80_busreq: bool,
    pub z80_reset: bool,
    pub region: GenesisRegion,
    pub rom_address_mask: u32,
    pub ext_persistent: bool,
    pub ext_dirty: bool,
    pub ext_start: u32,
    pub ext_end: u32,
    pub ext_ram: Seq<u8>,
}

/// The snapshot-relevant state of a Genesis memory system.
pub open spec fn spec_image_of(m: Memory) -> MemoryImage {
    MemoryImage {
        main_ram: m.main_ram@,
        audio_ram: m.audio_ram@,
        bank_number: m.z80_bank_register.bank_number,
        current_bit: m.z80_bank_register.current_bit,
        z80_busreq: m.signals.z80_busreq,
        z80_reset: m.signals.z80_reset,
        region: m.cartridge.region,
        rom_address_mask: m.cartridge.rom_address_mask,
        ext_persistent: m.cartridge.external_memory.persistent,
        ext_dirty: m.cartridge.external_memory.dirty,
        ext_start: m.cartridge.external_memory.start_address,
        ext_end: m.cartridge.external_memory.end_address,
        ext_ram: m.cartridge.external_memory.ram@,
    }
}

/// A decoded image describes a machine that the rest of the library can
/// run: RAM sizes exact, the bank register in range, external RAM
/// consistent with its address range.
pub open spec fn spec_image_valid(img: MemoryImage) -> bool {
    &&& img.main_ram.len() == 0x10000
    &&& img.audio_ram.len() == 0x2000
    &&& img.bank_number < 0x200
    &&& (img.ext_ram.len() > 0 ==> img.ext_start <= img.ext_end && img.ext_ram.len()
        == img.ext_end - img.ext_start + 1)
}

/// The encoding of a memory snapshot: the two RAM blobs, a fixed 22-byte
/// register block, then the cartridge RAM blob.
pub open spec fn spec_encode_memory_image(img: MemoryImage) -> Seq<u8> {
    spec_encode_bytes(img.main_ram) + spec_encode_bytes(img.audio_ram) + spec_u32le(
        img.bank_number,
    ) + seq![
        img.current_bit,
        spec_bool_byte(img.z80_busreq),
        spec_bool_byte(img.z80_reset),
        spec_region_byte(img.region),
    ] + spec_u32le(img.rom_address_mask) + seq![
        spec_bool_byte(img.ext_persistent),
        spec_bool_byte(img.ext_dirty),
    ] + spec_u32le(img.ext_start) + spec_u32le(img.ext_end) + spec_encode_bytes(img.ext_ram)
}

/// Decode a memory snapshot at `pos`; images describing a machine the
/// library cannot run are rejected.
pub open spec fn spec_decode_memory_image(data: Seq<u8>, pos: int) -> Option<(MemoryImage, int)> {
    match spec_decode_bytes(data, pos) {
        Some((main_ram, p1)) => match spec_decode_bytes(data, p1) {
            Some((audio_ram, p2)) => {
                if p2 + 22 <= data.len() {
                    let img = MemoryImage {
                        main_ram,
                        audio_ram,
                        bank_number: spec_read_u32le(data, p2),
                        current_bit: data[p2 + 4],
                        z80_busreq: data[p2 + 5] != 0,
                        z80_reset: data[p2 + 6] != 0,
                        region: spec_byte_region(data[p2 + 7]),
                        rom_address_mask: spec_read_u32le(data, p2 + 8),
                        ext_persistent: data[p2 + 12] != 0,
                        ext_dirty: data[p2 + 13] != 0,
                        ext_start: spec_read_u32le(data, p2 + 14),
                        ext_end: spec_read_u32le(data, p2 + 18),
                        ext_ram: Seq::empty(),
                    };
                    match spec_decode_bytes(data, p2 + 22) {
                        Some((ext_ram, p3)) => {
                            let img = MemoryImage { ext_ram, ..img };
                            if spec_image_valid(img) {
                                Some((img, p3))
                            } else {
                                None::<(MemoryImage, int)>
                            }
                        }
                        None => None::<(MemoryImage, int)>,
                    }
                } else {
                    None::<(MemoryImage, int)>
                }
            }
            None => None::<(MemoryImage, int)>,
        },
        None => None::<(MemoryImage, int)>,
    }
}

/// Decoding an encoded blob embedded in a longer stream returns exactly
/// the blob and the position after it.
pub proof fn lemma_decode_bytes_at(data: Seq<u8>, pos: int, v: Seq<u8>)
    requires
        0 <= pos,
        pos + 4 + v.len() <= data.len(),
        data.subrange(pos, pos + 4 + v.len() as int) == spec_encode_bytes(v),
        v.len() < 0x1_0000_0000,
    ensures
        spec_decode_bytes(data, pos) == Some((v, pos + 4 + v.len() as int)),
{
    let e = spec_encode_bytes(v);
    let sub = data.subrange(pos, pos + 4 + v.len() as int);
    assert forall|i: int| 0 <= i < 4 + v.len() implies data[pos + i] == e[i] by {
        assert(sub[i] == data[pos + i]);
    }
    lemma_u32le_roundtrip(v.len() as u32);
    assert(spec_read_u32le(data, pos) == spec_read_u32le(e, 0));
    assert forall|j: int| 0 <= j < v.len() implies data[pos + 4 + j] == v[j] by {
        assert(data[pos + (4 + j)] == e[4 + j]);
    }
    assert(data.subrange(pos + 4, pos + 4 + v.len() as int) =~= v);
}

/// Round-trip: decoding an encoded memory snapshot returns exactly the
/// image that was encoded.
#[verifier::rlimit(100)]
pub proof fn lemma_memory_image_roundtrip(img: MemoryImage)
    requires
        spec_image_valid(img),
        img.ext_ram.len() < 0x1_0000_0000,
    ensures
        spec_decode_memory_image(spec_encode_memory_image(img), 0) == Some(
            (img, spec_encode_memory_image(img).len() as int),
        ),
{
    let e = spec_encode_memory_image(img);
    let a = spec_encode_bytes(img.main_ram);
    let b = spec_encode_bytes(img.audio_ram);
    let c = spec_encode_bytes(img.ext_ram);
    let p1 = a.len() as int;
    let p2 = p1 + b.len() as int;
    let p3 = p2 + 22;

    assert(e.subrange(0, p1) =~= a);
    lemma_decode_bytes_at(e, 0, img.main_ram);
    assert(e.subrange(p1, p2) =~= b);
    lemma_decode_bytes_at(e, p1, img.audio_ram);

    lemma_u32le_roundtrip(img.bank_number);
    lemma_u32le_roundtrip(img.rom_address_mask);
    lemma_u32le_roundtrip(img.ext_start);
    lemma_u32le_roundtrip(img.ext_end);
    assert(e.subrange(p2, p2 + 4) =~= spec_u32le(img.bank_number));
    assert forall|i: int| 0 <= i < 4 implies e[p2 + i] == spec_u32le(img.bank_number)[i] by {
        assert(e.subrange(p2, p2 + 4)[i] == e[p2 + i]);
    }
    assert(e.subrange(p2 + 8, p2 + 12) =~= spec_u32le(img.rom_address_mask));
    assert forall|i: int| 0 <= i < 4 implies e[p2 + 8 + i] == spec_u32le(img.rom_address_mask)[i] by {
        assert(e.subrange(p2 + 8, p2 + 12)[i] == e[p2 + 8 + i]);
    }
    assert(e.subrange(p2 + 14, p2 + 18) =~= spec_u32le(img.ext_start));
    assert forall|i: int| 0 <= i < 4 implies e[p2 + 14 + i] == spec_u32le(img.ext_start)[i] by {
        assert(e.subrange(p2 + 14, p2 + 18)[i] == e[p2 + 14 + i]);
    }
    assert(e.subrange(p2 + 18, p2 + 22) =~= spec_u32le(img.ext_end));
    assert forall|i: int| 0 <= i < 4 implies e[p2 + 18 + i] == spec_u32le(img.ext_end)[i] by {
        assert(e.subrange(p2 + 18, p2 + 22)[i] == e[p2 + 18 + i]);
    }

    assert(e.subrange(p3, e.len() as int) =~= c);
    lemma_decode_bytes_at(e, p3, img.ext_ram);
}

/// Append a u32, little-endian.
fn put_u32le(out: &mut Vec<u8>, x: u32)
    ensures
        final(out)@ == old(out)@ + spec_u32le(x),
{
    out.push((x % 0x100) as u8);
    out.push(((x / 0x100) % 0x100) as u8);
    out.push(((x / 0x10000) % 0x100) as u8);
    out.push(((x / 0x1000000) % 0x100) as u8);
    proof {
        assert(final(out)@ =~= old(out)@ + spec_u32le(x));
    }
}

/// Read a little-endian u32.
fn read_u32le(data: &Vec<u8>, pos: usize) -> (r: u32)
    requires
        pos + 4 <= data.len(),
    ensures
        r == spec_read_u32le(data@, pos as int),
{
    data[pos] as u32 + data[pos + 1] as u32 * 0x100 + data[pos + 2] as u32 * 0x10000 + data[pos
        + 3] as u32 * 0x1000000
}

/// Encode a Genesis memory snapshot (ROM excluded); see
/// [`spec_encode_memory_image`].
#[verifier::rlimit(100)]
pub fn encode_genesis_memory(m: &Memory, out: &mut Vec<u8>)
    requires
        m.main_ram.len() < 0x1_0000_0000,
        m.audio_ram.len() < 0x1_0000_0000,
        m.cartridge.external_memory.ram.len() < 0x1_0000_0000,
    ensures
        final(out)@ == old(out)@ + spec_encode_memory_image(spec_image_of(*m)),
{
    encode_bytes(&m.main_ram, out);
    encode_bytes(&m.audio_ram, out);
    put_u32le(out, m.z80_bank_register.bank_number);
    put_u8(out, m.z80_bank_register.current_bit);
    put_bool(out, m.signals.z80_busreq);
    put_bool(out, m.signals.z80_reset);
    let region_byte: u8 = match m.cartridge.region {
        GenesisRegion::Americas => 0,
        GenesisRegion::Japan => 1,
        GenesisRegion::Europe => 2,
    };
    put_u8(out, region_byte);
    put_u32le(out, m.cartridge.rom_address_mask);
    put_bool(out, m.cartridge.external_memory.persistent);
    put_bool(out, m.cartridge.external_memory.dirty);
    put_u32le(out, m.cartridge.external_memory.start_address);
    put_u32le(out, m.cartridge.external_memory.end_address);
    encode_bytes(&m.cartridge.external_memory.ram, out);
    proof {
        assert(final(out)@ =~= old(out)@ + spec_encode_memory_image(spec_image_of(*m)));
    }
}

/// Decode a Genesis memory snapshot; see [`spec_decode_memory_image`].
/// The returned memory carries no ROM: re-attach one with
/// [`Memory::take_rom_from`] before running.
pub fn decode_genesis_memory(data: &Vec<u8>, pos: usize) -> (r: Option<(Memory, usize)>)
    ensures
        ({
            let s = spec_decode_memory_image(data@, pos as int);
            match s {
                Some((img, end)) => {
                    &&& r matches Some(rr) && spec_image_of(rr.0) == img && rr.1 == end
                        && rr.0.cartridge.rom.0.len() == 0
                        && rr.0.cartridge.external_memory.wf()
                }
                None => r is None,
            }
        }),
{
    let (main_ram, p1) = match decode_bytes(data, pos) {
        Option::Some(x) => x,
        Option::None => {
            return Option::None;
        }
    };
    let (audio_ram, p2) = match decode_bytes(data, p1) {
        Option::Some(x) => x,
        Option::None => {
            return Option::None;
        }
    };
    if p2 >= data.len() || data.len() - p2 < 22 {
        return Option::None;
    }
    let bank_number = read_u32le(data, p2);
    let current_bit = data[p2 + 4];
    let z80_busreq = data[p2 + 5] != 0;
    let z80_reset = data[p2 + 6] != 0;
    let region = if data[p2 + 7] == 0 {
        GenesisRegion::Americas
    } else if data[p2 + 7] == 1 {
        GenesisRegion::Japan
    } else {
        GenesisRegion::Europe
    };
    let rom_address_mask = read_u32le(data, p2 + 8);
    let ext_persistent = data[p2 + 12] != 0;
    let ext_dirty = data[p2 + 13] != 0;
    let ext_start = read_u32le(data, p2 + 14);
    let ext_end = read_u32le(data, p2 + 18);
    let (ext_ram, p3) = match decode_bytes(data, p2 + 22) {
        Option::Some(x) => x,
        Option::None => {
            return Option::None;
        }
    };
    let ext_consistent = ext_ram.len() == 0 || (ext_start <= ext_end && ext_ram.len() as u64
        == (ext_end - ext_start) as u64 + 1);
    if !(main_ram.len() == 0x10000 && audio_ram.len() == 0x2000 && bank_number < 0x200
        && ext_consistent) {
        return Option::None;
    }
    let memory = Memory {
        cartridge: Cartridge {
            rom: Rom(Vec::new()),
            external_memory: ExternalMemory {
                ram: ext_ram,
                persistent: ext_persistent,
                dirty: ext_dirty,
                start_address: ext_start,
                end_address: ext_end,
            },
            rom_address_mask,
            region,
        },
        main_ram,
        audio_ram,
        z80_bank_register: Z80BankRegister { bank_number, current_bit },
        signals: Signals { z80_busreq, z80_reset },
    };
    Option::Some((memory, p3))
}

} // verus!
