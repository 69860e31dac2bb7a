//! Pulse (square-wave) channel: duty-cycle generator, frequency sweep,
//! length counter, and envelope, wired together exactly as the hardware's
//! register interface exposes them.

use vstd::prelude::*;
use crate::bits::{bit8, spec_bit8};
use crate::gb::apu::components::{
    Envelope, MAX_FREQUENCY, PulseTimer, StandardLengthCounter, spec_envelope_clock,
    spec_envelope_trigger, spec_length_clock, spec_length_set_enabled, spec_length_trigger,
    spec_timer_tick, spec_timer_trigger,
};

verus! {

/// Fraction of each 8-step waveform period during which a pulse channel
/// outputs its envelope volume.
#[derive(Debug, Clone, Copy, PartialEq, Eq, Structural)]
pub enum DutyCycle {
    OneEighth,
    OneFourth,
    OneHalf,
    ThreeFourths,
}

impl DutyCycle {
    /// The 8-step waveform, one bit per phase (bit `n` is phase `n`).
    pub open spec fn spec_pattern(self) -> u8 {
        match self {
            DutyCycle::OneEighth => 0x80,
            DutyCycle::OneFourth => 0x81,
            DutyCycle::OneHalf => 0xE1,
            DutyCycle::ThreeFourths => 0x7E,
        }
    }

    /// Whether the waveform is high at the given phase.
    pub fn waveform_step(self, phase: u8) -> (r: bool)
        requires
            phase < 8,
        ensures
            r == spec_bit8(self.spec_pattern(), phase),
    {
        let pattern: u8 = match self {
            DutyCycle::OneEighth => 0x80,
            DutyCycle::OneFourth => 0x81,
            DutyCycle::OneHalf => 0xE1,
            DutyCycle::ThreeFourths => 0x7E,
        };
        bit8(pattern, phase)
    }

    /// Decode bits 6-7 of an NRx1 write.
    pub fn from_byte(byte: u8) -> (r: Self)
        ensures
            r == Self::spec_from_byte(byte),
    {
        proof {
            crate::bits::lemma_and_bound_u8(byte >> 6, 0x03);
        }
        match (byte >> 6) & 0x03 {
            0x00 => Self::OneEighth,
            0x01 => Self::OneFourth,
            0x02 => Self::OneHalf,
            _ => Self::ThreeFourths,
        }
    }

    pub open spec fn spec_from_byte(byte: u8) -> Self {
        if (byte >> 6) & 0x03 == 0 {
            DutyCycle::OneEighth
        } else if (byte >> 6) & 0x03 == 1 {
            DutyCycle::OneFourth
        } else if (byte >> 6) & 0x03 == 2 {
            DutyCycle::OneHalf
        } else {
            DutyCycle::ThreeFourths
        }
    }

    /// Re-encode into bits 6-7 for register read-back.
    pub fn to_bits(self) -> (r: u8)
        ensures
            r == self.spec_to_bits(),
    {
        match self {
            Self::OneEighth => 0x00,
            Self::OneFourth => 0x40,
            Self::OneHalf => 0x80,
            Self::ThreeFourths => 0xC0,
        }
    }

    pub open spec fn spec_to_bits(self) -> u8 {
        match self {
            DutyCycle::OneEighth => 0x00,
            DutyCycle::OneFourth => 0x40,
            DutyCycle::OneHalf => 0x80,
            DutyCycle::ThreeFourths => 0xC0,
        }
    }
}

/// Frequency sweep unit: periodically recomputes the channel frequency as
/// `shadow ± (shadow >> shift)` and disables the channel when the candidate
/// overflows the 11-bit range.
#[derive(Debug, Clone, Copy, PartialEq, Eq, Structural)]
pub struct SweepUnit {
    pub enabled: bool,
    pub shadow_frequency: u16,
    pub counter: u8,
    pub period: u8,
    pub shift: u8,
    pub negate: bool,
    pub calculated_with_negate_since_trigger: bool,
}

/// The sweep's candidate next frequency: `shadow ± (shadow >> shift)`,
/// subtracting when the negate flag is set.
pub open spec fn spec_next_frequency(shadow: u16, shift: u16, negate: bool) -> int {
    if negate {
        shadow - (shadow >> shift)
    } else {
        shadow + (shadow >> shift)
    }
}

/// The counter reload value: a period of 0 counts as 8.
pub open spec fn spec_counter_reload(period: u8) -> u8 {
    if period == 0 { 8u8 } else { period }
}

/// One frame-sequencer sweep clock, as a transition on
/// `(sweep, timer, channel_enabled)`.
///
/// When the counter expires with a non-zero period, a candidate frequency is
/// computed; a candidate in range with a non-zero shift is written back to
/// both the shadow register and the live timer, and a second, immediately
/// recomputed candidate can still disable the channel even though it is
/// never written. An out-of-range first candidate disables the channel.
pub open spec fn spec_sweep_clock(s: SweepUnit, t: PulseTimer, ch: bool) -> (SweepUnit, PulseTimer, bool) {
    if !s.enabled {
        (s, t, ch)
    } else if s.counter > 1 {
        (SweepUnit { counter: (s.counter - 1) as u8, ..s }, t, ch)
    } else {
        let reloaded = SweepUnit { counter: spec_counter_reload(s.period), ..s };
        if s.period == 0 {
            (reloaded, t, ch)
        } else {
            let n1 = spec_next_frequency(s.shadow_frequency, s.shift as u16, s.negate);
            let flagged = SweepUnit {
                calculated_with_negate_since_trigger: reloaded.calculated_with_negate_since_trigger
                    || s.negate,
                ..reloaded
            };
            if n1 <= MAX_FREQUENCY && s.shift != 0 {
                let updated = SweepUnit { shadow_frequency: n1 as u16, ..flagged };
                let t2 = PulseTimer { frequency: n1 as u16, ..t };
                let n2 = spec_next_frequency(n1 as u16, s.shift as u16, s.negate);
                (updated, t2, if n2 > MAX_FREQUENCY { false } else { ch })
            } else if n1 > MAX_FREQUENCY {
                (flagged, t, false)
            } else {
                (flagged, t, ch)
            }
        }
    }
}

/// Channel trigger, as a transition on `(sweep, channel_enabled)` given the
/// just-reloaded timer: the shadow frequency reloads, the counter reloads,
/// the unit arms itself when period or shift is non-zero, and a non-zero
/// shift runs one immediate overflow check that can disable the channel.
pub open spec fn spec_sweep_trigger(s: SweepUnit, t: PulseTimer, ch: bool) -> (SweepUnit, bool) {
    let armed = SweepUnit {
        shadow_frequency: t.frequency,
        counter: spec_counter_reload(s.period),
        enabled: s.period != 0 || s.shift != 0,
        calculated_with_negate_since_trigger: s.shift != 0 && s.negate,
        ..s
    };
    if s.shift != 0 && spec_next_frequency(t.frequency, s.shift as u16, s.negate) > MAX_FREQUENCY {
        (armed, false)
    } else {
        (armed, ch)
    }
}

proof fn lemma_shift_le(x: u16, s: u16)
    by (bit_vector)
    ensures
        x >> s <= x,
{
}

impl SweepUnit {
    pub open spec fn wf(self) -> bool {
        &&& self.shadow_frequency <= MAX_FREQUENCY
        &&& self.period <= 7
        &&& self.shift <= 7
        &&& self.counter <= 8
        &&& (self.enabled ==> self.counter >= 1)
    }

    pub fn new() -> (r: Self)
        ensures
            r.wf(),
            r == (SweepUnit {
                enabled: false,
                shadow_frequency: 0,
                counter: 0,
                period: 0,
                shift: 0,
                negate: false,
                calculated_with_negate_since_trigger: false,
            }),
    {
        SweepUnit {
            enabled: false,
            shadow_frequency: 0,
            counter: 0,
            period: 0,
            shift: 0,
            negate: false,
            calculated_with_negate_since_trigger: false,
        }
    }

    /// Compute the candidate next frequency, recording a negate-mode
    /// calculation in the quirk latch.
    fn calculate_next_frequency(&mut self) -> (r: u16)
        requires
            old(self).wf(),
        ensures
            final(self).wf(),
            r == spec_next_frequency(old(self).shadow_frequency, old(self).shift as u16, old(self).negate),
            *final(self) == (SweepUnit {
                calculated_with_negate_since_trigger:
                    old(self).calculated_with_negate_since_trigger || old(self).negate,
                ..*old(self)
            }),
    {
        let delta = self.shadow_frequency >> (self.shift as u16);
        proof {
            lemma_shift_le(self.shadow_frequency, self.shift as u16);
        }
        if self.negate {
            self.calculated_with_negate_since_trigger = true;
            self.shadow_frequency - delta
        } else {
            self.shadow_frequency + delta
        }
    }

    /// Periodic sweep clock; see [`spec_sweep_clock`].
    pub fn clock(&mut self, timer: &mut PulseTimer, channel_enabled: &mut bool)
        requires
            old(self).wf(),
            old(timer).wf(),
        ensures
            final(self).wf(),
            final(timer).wf(),
            (*final(self), *final(timer), *final(channel_enabled)) == spec_sweep_clock(
                *old(self),
                *old(timer),
                *old(channel_enabled),
            ),
    {
        if !self.enabled {
            return;
        }

        self.counter = self.counter - 1;
        if self.counter == 0 {
            self.counter = self.counter_reload_value();

            if self.period == 0 {
                // A period of 0 disables sweep updates, but the counter still
                // reloads (a period of 0 counts as 8 for the counter).
                return;
            }

            let next_frequency = self.calculate_next_frequency();
            if next_frequency <= MAX_FREQUENCY && self.shift != 0 {
                self.shadow_frequency = next_frequency;
                timer.write_frequency(next_frequency);

                // After an applied update the unit immediately recomputes,
                // and disables the channel if that second candidate
                // overflows, even though it is never written.
                if self.calculate_next_frequency() > MAX_FREQUENCY {
                    *channel_enabled = false;
                }
            } else if next_frequency > MAX_FREQUENCY {
                *channel_enabled = false;
            }
        }
    }

    /// Channel trigger; see [`spec_sweep_trigger`].
    pub fn trigger(&mut self, timer: PulseTimer, channel_enabled: &mut bool)
        requires
            old(self).wf(),
            timer.wf(),
        ensures
            final(self).wf(),
            (*final(self), *final(channel_enabled)) == spec_sweep_trigger(
                *old(self),
                timer,
                *old(channel_enabled),
            ),
    {
        self.shadow_frequency = timer.frequency();
        self.counter = self.counter_reload_value();

        self.enabled = self.period != 0 || self.shift != 0;

        self.calculated_with_negate_since_trigger = false;

        // A non-zero shift runs one immediate overflow check on trigger,
        // which can disable the channel before any audio is produced.
        if self.shift != 0 && self.calculate_next_frequency() > MAX_FREQUENCY {
            *channel_enabled = false;
        }
    }

    pub fn counter_reload_value(&self) -> (r: u8)
        ensures
            r == spec_counter_reload(self.period),
    {
        if self.period == 0 { 8 } else { self.period }
    }

    /// NR10 read-back: `0x80 | period << 4 | negate << 3 | shift`.
    pub fn read_register(&self) -> (r: u8)
        requires
            self.wf(),
        ensures
            r == 0x80 + self.period * 16 + (if self.negate { 8u8 } else { 0u8 }) + self.shift,
    {
        0x80 + self.period * 16 + (if self.negate { 8u8 } else { 0u8 }) + self.shift
    }

    /// NR10 write. Clearing the negate flag after any negate-mode
    /// calculation since the last trigger immediately disables the channel.
    pub fn write_register(&mut self, value: u8, channel_enabled: &mut bool)
        requires
            old(self).wf(),
        ensures
            final(self).wf(),
            *final(self) == (SweepUnit {
                period: (value >> 4) & 0x07,
                negate: spec_bit8(value, 3),
                shift: value & 0x07,
                counter: if old(self).counter == 0 { (value >> 4) & 0x07 } else { old(self).counter },
                ..*old(self)
            }),
            *final(channel_enabled) == (
                if old(self).calculated_with_negate_since_trigger && !spec_bit8(value, 3) {
                    false
                } else {
                    *old(channel_enabled)
                }
            ),
    {
        self.period = (value >> 4) & 0x07;
        self.negate = bit8(value, 3);
        self.shift = value & 0x07;
        proof {
            crate::bits::lemma_and_bound_u8(value >> 4, 0x07);
            crate::bits::lemma_and_bound_u8(value, 0x07);
        }

        if self.counter == 0 {
            self.counter = self.period;
        }

        if self.calculated_with_negate_since_trigger && !self.negate {
            *channel_enabled = false;
        }
    }
}

/// A sweep clock whose first candidate frequency overflows the 11-bit range
/// disables the channel (the negate flag clear, so the candidate is
/// `F + (F >> S)`).
pub proof fn lemma_sweep_overflow_disables(s: SweepUnit, t: PulseTimer, ch: bool)
    requires
        s.wf(),
        s.enabled,
        s.counter == 1,
        s.period != 0,
        !s.negate,
        spec_next_frequency(s.shadow_frequency, s.shift as u16, false) > MAX_FREQUENCY,
    ensures
        !spec_sweep_clock(s, t, ch).2,
{
}

/// In negate mode the candidate is `F - (F >> S)`, which never exceeds the
/// shadow frequency, so a sweep clock in negate mode can never disable the
/// channel by overflow: the channel-enabled flag is left unchanged.
pub proof fn lemma_sweep_negate_never_disables(s: SweepUnit, t: PulseTimer, ch: bool)
    requires
        s.wf(),
        s.negate,
    ensures
        spec_sweep_clock(s, t, ch).2 == ch,
{
    lemma_shift_le(s.shadow_frequency, s.shift as u16);
    let n1 = spec_next_frequency(s.shadow_frequency, s.shift as u16, true);
    if s.enabled && s.counter == 1 && s.period != 0 && n1 <= MAX_FREQUENCY && s.shift != 0 {
        lemma_shift_le(n1 as u16, s.shift as u16);
    }
}

/// One of the two pulse channels: duty generator plus length counter,
/// envelope, sweep, and frequency timer, exposed through the NRx0-NRx4
/// register interface.
#[derive(Debug, Clone, Copy, PartialEq, Eq, Structural)]
pub struct PulseChannel {
    pub duty_cycle: DutyCycle,
    pub length_counter: StandardLengthCounter,
    pub envelope: Envelope,
    pub sweep: SweepUnit,
    pub timer: PulseTimer,
    pub channel_enabled: bool,
    pub dac_enabled: bool,
}

impl PulseChannel {
    pub open spec fn wf(self) -> bool {
        &&& self.length_counter.wf()
        &&& self.envelope.wf()
        &&& self.sweep.wf()
        &&& self.timer.wf()
    }

    pub fn new() -> (r: Self)
        ensures
            r.wf(),
            r.duty_cycle == DutyCycle::OneEighth,
            r.length_counter.counter == 0 && !r.length_counter.enabled,
            r.envelope == (Envelope {
                volume: 0,
                initial_volume: 0,
                increase: false,
                period: 0,
                counter: 0,
            }),
            r.sweep == (SweepUnit {
                enabled: false,
                shadow_frequency: 0,
                counter: 0,
                period: 0,
                shift: 0,
                negate: false,
                calculated_with_negate_since_trigger: false,
            }),
            r.timer == (PulseTimer { frequency: 0, counter: 2048, phase: 0 }),
            !r.channel_enabled,
            !r.dac_enabled,
    {
        Self {
            duty_cycle: DutyCycle::OneEighth,
            length_counter: StandardLengthCounter::new(),
            envelope: Envelope::new(),
            sweep: SweepUnit::new(),
            timer: PulseTimer::new(),
            channel_enabled: false,
            dac_enabled: false,
        }
    }

    /// Periodic sweep clock; see [`spec_sweep_clock`].
    pub fn clock_sweep(&mut self)
        requires
            old(self).wf(),
        ensures
            final(self).wf(),
            (final(self).sweep, final(self).timer, final(self).channel_enabled) == spec_sweep_clock(
                old(self).sweep,
                old(self).timer,
                old(self).channel_enabled,
            ),
            final(self).duty_cycle == old(self).duty_cycle,
            final(self).length_counter == old(self).length_counter,
            final(self).envelope == old(self).envelope,
            final(self).dac_enabled == old(self).dac_enabled,
    {
        let mut timer = self.timer;
        let mut enabled = self.channel_enabled;
        self.sweep.clock(&mut timer, &mut enabled);
        self.timer = timer;
        self.channel_enabled = enabled;
    }

    /// Periodic length clock; see [`spec_length_clock`].
    pub fn clock_length_counter(&mut self)
        requires
            old(self).wf(),
        ensures
            final(self).wf(),
            (final(self).length_counter, final(self).channel_enabled) == spec_length_clock(
                old(self).length_counter,
                old(self).channel_enabled,
            ),
            final(self).duty_cycle == old(self).duty_cycle,
            final(self).envelope == old(self).envelope,
            final(self).sweep == old(self).sweep,
            final(self).timer == old(self).timer,
            final(self).dac_enabled == old(self).dac_enabled,
    {
        let mut enabled = self.channel_enabled;
        self.length_counter.clock(&mut enabled);
        self.channel_enabled = enabled;
    }

    /// Periodic envelope clock; see [`spec_envelope_clock`].
    pub fn clock_envelope(&mut self)
        requires
            old(self).wf(),
        ensures
            final(self).wf(),
            final(self).envelope == spec_envelope_clock(old(self).envelope),
            *final(self) == (PulseChannel { envelope: final(self).envelope, ..*old(self) }),
    {
        self.envelope.clock();
    }

    /// One M-cycle of the frequency timer; see [`spec_timer_tick`].
    pub fn tick_m_cycle(&mut self)
        requires
            old(self).wf(),
        ensures
            final(self).wf(),
            final(self).timer == spec_timer_tick(old(self).timer),
            *final(self) == (PulseChannel { timer: final(self).timer, ..*old(self) }),
    {
        self.timer.tick_m_cycle();
    }

    /// The channel's current digital amplitude: `None` when the DAC is off
    /// (no signal at all, distinct from silence), `Some(0)` when the channel
    /// is disabled, else the envelope volume gated by the duty waveform.
    pub fn sample(&self) -> (r: Option<u8>)
        requires
            self.wf(),
        ensures
            !self.dac_enabled ==> r is None,
            self.dac_enabled && !self.channel_enabled ==> r == Some(0u8),
            self.dac_enabled && self.channel_enabled ==> r == Some(
                if spec_bit8(self.duty_cycle.spec_pattern(), self.timer.phase) {
                    self.envelope.volume
                } else {
                    0u8
                },
            ),
    {
        if !self.dac_enabled {
            return Option::None;
        }

        if !self.channel_enabled {
            return Option::Some(0);
        }

        let waveform_step = self.duty_cycle.waveform_step(self.timer.phase);
        Option::Some(if waveform_step { self.envelope.volume } else { 0 })
    }

    /// NR10 read; see [`SweepUnit::read_register`].
    pub fn read_register_0(&self) -> (r: u8)
        requires
            self.wf(),
        ensures
            r == 0x80 + self.sweep.period * 16 + (if self.sweep.negate { 8u8 } else { 0u8 })
                + self.sweep.shift,
    {
        self.sweep.read_register()
    }

    /// NR10 write (pulse 1 sweep control); see [`SweepUnit::write_register`].
    pub fn write_register_0(&mut self, value: u8)
        requires
            old(self).wf(),
        ensures
            final(self).wf(),
            final(self).sweep == (SweepUnit {
                period: (value >> 4) & 0x07,
                negate: spec_bit8(value, 3),
                shift: value & 0x07,
                counter: if old(self).sweep.counter == 0 {
                    (value >> 4) & 0x07
                } else {
                    old(self).sweep.counter
                },
                ..old(self).sweep
            }),
            final(self).channel_enabled == (
                if old(self).sweep.calculated_with_negate_since_trigger && !spec_bit8(value, 3) {
                    false
                } else {
                    old(self).channel_enabled
                }
            ),
            final(self).duty_cycle == old(self).duty_cycle,
            final(self).length_counter == old(self).length_counter,
            final(self).envelope == old(self).envelope,
            final(self).timer == old(self).timer,
            final(self).dac_enabled == old(self).dac_enabled,
    {
        let mut enabled = self.channel_enabled;
        self.sweep.write_register(value, &mut enabled);
        self.channel_enabled = enabled;
    }

    /// NRx1 read: duty bits in 6-7, the rest reads back as set.
    pub fn read_register_1(&self) -> (r: u8)
        ensures
            r == 0x3F | self.duty_cycle.spec_to_bits(),
    {
        0x3F | self.duty_cycle.to_bits()
    }

    /// NRx1 write: duty cycle and length-counter reload.
    pub fn write_register_1(&mut self, value: u8)
        requires
            old(self).wf(),
        ensures
            final(self).wf(),
            final(self).duty_cycle == DutyCycle::spec_from_byte(value),
            final(self).length_counter.counter == 64 - (value & 0x3F),
            final(self).length_counter.enabled == old(self).length_counter.enabled,
            final(self).envelope == old(self).envelope,
            final(self).sweep == old(self).sweep,
            final(self).timer == old(self).timer,
            final(self).channel_enabled == old(self).channel_enabled,
            final(self).dac_enabled == old(self).dac_enabled,
    {
        self.duty_cycle = DutyCycle::from_byte(value);
        self.length_counter.load(value);
    }

    /// NRx2 read; see [`Envelope::read_register`].
    pub fn read_register_2(&self) -> (r: u8)
        requires
            self.wf(),
        ensures
            r == self.envelope.initial_volume * 16 + (if self.envelope.increase { 8u8 } else { 0u8 })
                + self.envelope.period,
    {
        self.envelope.read_register()
    }

    /// NRx2 write: envelope control; bits 3-7 also gate the DAC, and
    /// disabling the DAC always disables the channel.
    pub fn write_register_2(&mut self, value: u8)
        requires
            old(self).wf(),
        ensures
            final(self).wf(),
            final(self).envelope.initial_volume == value >> 4,
            final(self).envelope.increase == spec_bit8(value, 3),
            final(self).envelope.period == (value & 0x07),
            final(self).envelope.volume == old(self).envelope.volume,
            final(self).envelope.counter == old(self).envelope.counter,
            final(self).dac_enabled == (value & 0xF8 != 0),
            final(self).channel_enabled == (
                if value & 0xF8 == 0 { false } else { old(self).channel_enabled }
            ),
            final(self).duty_cycle == old(self).duty_cycle,
            final(self).length_counter == old(self).length_counter,
            final(self).sweep == old(self).sweep,
            final(self).timer == old(self).timer,
    {
        self.envelope.write_register(value);
        self.dac_enabled = value & 0xF8 != 0;

        if !self.dac_enabled {
            // Disabling the DAC always disables the channel.
            self.channel_enabled = false;
        }
    }

    /// NRx3 write: low 8 bits of the frequency.
    pub fn write_register_3(&mut self, value: u8)
        requires
            old(self).wf(),
        ensures
            final(self).wf(),
            final(self).timer == (PulseTimer {
                frequency: (old(self).timer.frequency & 0x700) | (value as u16),
                ..old(self).timer
            }),
            *final(self) == (PulseChannel { timer: final(self).timer, ..*old(self) }),
    {
        self.timer.write_frequency_low(value);
    }

    /// NRx4 read: only the length-enable bit is readable.
    pub fn read_register_4(&self) -> (r: u8)
        ensures
            r == 0xBF + (if self.length_counter.enabled { 0x40u8 } else { 0u8 }),
    {
        if self.length_counter.enabled { 0xFFu8 } else { 0xBFu8 }
    }

    /// NRx4 write: high frequency bits, length enable, and trigger.
    ///
    /// A trigger atomically enables the channel, reloads an expired length
    /// counter, restarts the envelope and timer, reloads the sweep's shadow
    /// frequency with one immediate overflow check, and finally gates the
    /// channel on the DAC.
    pub fn write_register_4(&mut self, value: u8, frame_sequencer_step: u8)
        requires
            old(self).wf(),
            frame_sequencer_step < 8,
        ensures
            final(self).wf(),
            *final(self) == spec_write_register_4(*old(self), value, frame_sequencer_step),
    {
        self.timer.write_frequency_high(value);
        let mut enabled = self.channel_enabled;
        self.length_counter.set_enabled(bit8(value, 6), frame_sequencer_step, &mut enabled);
        self.channel_enabled = enabled;

        if bit8(value, 7) {
            // Channel triggered.
            self.channel_enabled = true;

            self.length_counter.trigger(frame_sequencer_step);
            self.envelope.trigger();
            self.timer.trigger();
            let mut ch = self.channel_enabled;
            self.sweep.trigger(self.timer, &mut ch);
            self.channel_enabled = ch;

            self.channel_enabled = self.channel_enabled && self.dac_enabled;
        }
    }

    /// Whether the channel is currently producing its waveform.
    pub fn enabled(&self) -> (r: bool)
        ensures
            r == self.channel_enabled,
    {
        self.channel_enabled
    }
}

/// The complete NRx4 write transition; see [`PulseChannel::write_register_4`].
pub open spec fn spec_write_register_4(c: PulseChannel, value: u8, step: u8) -> PulseChannel {
    let t1 = PulseTimer {
        frequency: (c.timer.frequency & 0xFF) | (((value & 0x07) as u16) << 8),
        ..c.timer
    };
    let (lc1, ch1) = spec_length_set_enabled(c.length_counter, spec_bit8(value, 6), step, c.channel_enabled);
    if spec_bit8(value, 7) {
        let lc2 = spec_length_trigger(lc1, step);
        let e2 = spec_envelope_trigger(c.envelope);
        let t2 = spec_timer_trigger(t1);
        let (s2, ch2) = spec_sweep_trigger(c.sweep, t2, true);
        PulseChannel {
            duty_cycle: c.duty_cycle,
            length_counter: lc2,
            envelope: e2,
            sweep: s2,
            timer: t2,
            channel_enabled: ch2 && c.dac_enabled,
            dac_enabled: c.dac_enabled,
        }
    } else {
        PulseChannel {
            duty_cycle: c.duty_cycle,
            length_counter: lc1,
            envelope: c.envelope,
            sweep: c.sweep,
            timer: t1,
            channel_enabled: ch1,
            dac_enabled: c.dac_enabled,
        }
    }
}

} // verus!
