//! Shared sub-units of the audio channels: length counter, volume
//! envelope, and the pulse frequency timer.
//!
//! Each unit is a small state machine mutated only by register writes and
//! periodic frame-sequencer clocks. Every transition is described by a spec
//! function, and each executable method is proved equal to its spec
//! transition, including the documented enable/trigger quirks.

use vstd::prelude::*;

verus! {

/// Maximum length-counter load for the standard (64-step) channels.
pub const LENGTH_COUNTER_MAX: u16 = 64;

/// Length counter: optionally auto-disables its channel after N
/// frame-sequencer length clocks.
///
/// The frame sequencer clocks length on even steps (0, 2, 4, 6). When the
/// current step is even, the *next* step will not clock length; enabling the
/// counter or reloading it by trigger inside that window has an immediate
/// extra-clock side effect, reproduced here exactly.
#[derive(Debug, Clone, Copy, PartialEq, Eq, Structural)]
pub struct StandardLengthCounter {
    pub counter: u16,
    pub enabled: bool,
}

/// One frame-sequencer length clock: decrement when counting is enabled and
/// the counter has not expired; disable the channel when it reaches zero.
pub open spec fn spec_length_clock(lc: StandardLengthCounter, ch: bool) -> (StandardLengthCounter, bool) {
    if lc.enabled && lc.counter > 0 {
        let c = (lc.counter - 1) as u16;
        (StandardLengthCounter { counter: c, enabled: lc.enabled }, if c == 0 { false } else { ch })
    } else {
        (lc, ch)
    }
}

/// NRx4 length-enable write. Enabling length while the frame sequencer sits
/// on an even step (so the next step will not clock length) clocks the
/// counter once immediately; that extra clock can disable the channel.
pub open spec fn spec_length_set_enabled(
    lc: StandardLengthCounter,
    enabled: bool,
    step: u8,
    ch: bool,
) -> (StandardLengthCounter, bool) {
    if !lc.enabled && enabled && step % 2 == 0 && lc.counter > 0 {
        let c = (lc.counter - 1) as u16;
        (StandardLengthCounter { counter: c, enabled }, if c == 0 { false } else { ch })
    } else {
        (StandardLengthCounter { counter: lc.counter, enabled }, ch)
    }
}

/// Channel trigger: an expired counter reloads to the maximum, one short
/// when length counting is enabled during the even-step window.
pub open spec fn spec_length_trigger(lc: StandardLengthCounter, step: u8) -> StandardLengthCounter {
    if lc.counter == 0 {
        if lc.enabled && step % 2 == 0 {
            StandardLengthCounter { counter: (LENGTH_COUNTER_MAX - 1) as u16, enabled: lc.enabled }
        } else {
            StandardLengthCounter { counter: LENGTH_COUNTER_MAX, enabled: lc.enabled }
        }
    } else {
        lc
    }
}

impl StandardLengthCounter {
    pub open spec fn wf(self) -> bool {
        self.counter <= LENGTH_COUNTER_MAX
    }

    pub fn new() -> (r: Self)
        ensures
            r.wf(),
            r.counter == 0,
            !r.enabled,
    {
        Self { counter: 0, enabled: false }
    }

    /// Reload from an NRx1 write: the counter becomes `64 - (value & 0x3F)`.
    pub fn load(&mut self, value: u8)
        requires
            old(self).wf(),
        ensures
            final(self).wf(),
            final(self).counter == LENGTH_COUNTER_MAX - (value & 0x3F),
            final(self).enabled == old(self).enabled,
    {
        proof {
            crate::bits::lemma_and_bound_u8(value, 0x3F);
        }
        self.counter = LENGTH_COUNTER_MAX - (value & 0x3F) as u16;
    }

    /// Periodic length clock; see [`spec_length_clock`].
    pub fn clock(&mut self, channel_enabled: &mut bool)
        requires
            old(self).wf(),
        ensures
            final(self).wf(),
            (*final(self), *final(channel_enabled)) == spec_length_clock(
                *old(self),
                *old(channel_enabled),
            ),
    {
        if self.enabled && self.counter > 0 {
            self.counter = self.counter - 1;
            if self.counter == 0 {
                *channel_enabled = false;
            }
        }
    }

    /// Length-enable write; see [`spec_length_set_enabled`].
    pub fn set_enabled(&mut self, enabled: bool, frame_sequencer_step: u8, channel_enabled: &mut bool)
        requires
            old(self).wf(),
            frame_sequencer_step < 8,
        ensures
            final(self).wf(),
            (*final(self), *final(channel_enabled)) == spec_length_set_enabled(
                *old(self),
                enabled,
                frame_sequencer_step,
                *old(channel_enabled),
            ),
    {
        let extra_clock = !self.enabled && enabled && frame_sequencer_step % 2 == 0
            && self.counter > 0;
        self.enabled = enabled;
        if extra_clock {
            self.counter = self.counter - 1;
            if self.counter == 0 {
                *channel_enabled = false;
            }
        }
    }

    /// Channel trigger; see [`spec_length_trigger`].
    pub fn trigger(&mut self, frame_sequencer_step: u8)
        requires
            old(self).wf(),
            frame_sequencer_step < 8,
        ensures
            final(self).wf(),
            *final(self) == spec_length_trigger(*old(self), frame_sequencer_step),
    {
        if self.counter == 0 {
            self.counter = LENGTH_COUNTER_MAX;
            if self.enabled && frame_sequencer_step % 2 == 0 {
                self.counter = LENGTH_COUNTER_MAX - 1;
            }
        }
    }
}

/// Maximum envelope volume.
pub const ENVELOPE_MAX_VOLUME: u8 = 15;

/// Volume envelope: steps the channel volume toward 0 or 15 once per
/// envelope clock, every `period` clocks; a period of zero freezes it.
#[derive(Debug, Clone, Copy, PartialEq, Eq, Structural)]
pub struct Envelope {
    pub volume: u8,
    pub initial_volume: u8,
    pub increase: bool,
    pub period: u8,
    pub counter: u8,
}

/// One envelope clock; the volume is clamped to `[0, 15]`.
pub open spec fn spec_envelope_clock(e: Envelope) -> Envelope {
    if e.period == 0 {
        e
    } else if e.counter > 1 {
        Envelope { counter: (e.counter - 1) as u8, ..e }
    } else {
        let volume = if e.increase && e.volume < ENVELOPE_MAX_VOLUME {
            (e.volume + 1) as u8
        } else if !e.increase && e.volume > 0 {
            (e.volume - 1) as u8
        } else {
            e.volume
        };
        Envelope { volume, counter: e.period, ..e }
    }
}

/// Channel trigger: the live volume restarts from the configured initial
/// volume and the period counter reloads (period 0 counts as 8).
pub open spec fn spec_envelope_trigger(e: Envelope) -> Envelope {
    Envelope {
        volume: e.initial_volume,
        counter: if e.period == 0 { 8u8 } else { e.period },
        ..e
    }
}

impl Envelope {
    pub open spec fn wf(self) -> bool {
        &&& self.volume <= ENVELOPE_MAX_VOLUME
        &&& self.initial_volume <= ENVELOPE_MAX_VOLUME
        &&& self.period <= 7
        &&& self.counter <= 8
    }

    pub fn new() -> (r: Self)
        ensures
            r.wf(),
            r == (Envelope { volume: 0, initial_volume: 0, increase: false, period: 0, counter: 0 }),
    {
        Envelope { volume: 0, initial_volume: 0, increase: false, period: 0, counter: 0 }
    }

    /// NRx2 read-back: initial volume, direction, and period.
    pub fn read_register(&self) -> (r: u8)
        requires
            self.wf(),
        ensures
            r == self.initial_volume * 16 + (if self.increase { 8u8 } else { 0u8 }) + self.period,
    {
        self.initial_volume * 16 + (if self.increase { 8u8 } else { 0u8 }) + self.period
    }

    /// NRx2 write: sets the configuration; the live volume changes only at
    /// the next trigger.
    pub fn write_register(&mut self, value: u8)
        requires
            old(self).wf(),
        ensures
            final(self).wf(),
            final(self).initial_volume == value >> 4,
            final(self).increase == crate::bits::spec_bit8(value, 3),
            final(self).period == (value & 0x07),
            final(self).volume == old(self).volume,
            final(self).counter == old(self).counter,
    {
        self.initial_volume = value >> 4;
        self.increase = crate::bits::bit8(value, 3);
        self.period = value & 0x07;
        proof {
            crate::bits::lemma_nibbles_u8(value);
            crate::bits::lemma_and_bound_u8(value, 0x07);
        }
    }

    /// Channel trigger; see [`spec_envelope_trigger`].
    pub fn trigger(&mut self)
        requires
            old(self).wf(),
        ensures
            final(self).wf(),
            *final(self) == spec_envelope_trigger(*old(self)),
    {
        self.volume = self.initial_volume;
        self.counter = if self.period == 0 { 8 } else { self.period };
    }

    /// Periodic envelope clock; see [`spec_envelope_clock`].
    pub fn clock(&mut self)
        requires
            old(self).wf(),
        ensures
            final(self).wf(),
            *final(self) == spec_envelope_clock(*old(self)),
    {
        if self.period == 0 {
            return;
        }
        if self.counter > 1 {
            self.counter = self.counter - 1;
            return;
        }
        self.counter = self.period;
        if self.increase && self.volume < ENVELOPE_MAX_VOLUME {
            self.volume = self.volume + 1;
        } else if !self.increase && self.volume > 0 {
            self.volume = self.volume - 1;
        }
    }
}

/// Largest representable channel frequency (11 bits).
pub const MAX_FREQUENCY: u16 = 2047;

/// Pulse frequency timer: counts down once per M-cycle and advances the
/// 8-step waveform phase on underflow. The countdown period is
/// `2048 - frequency` M-cycles.
#[derive(Debug, Clone, Copy, PartialEq, Eq, Structural)]
pub struct PulseTimer {
    pub frequency: u16,
    pub counter: u16,
    pub phase: u8,
}

/// One M-cycle of the timer: count down; on underflow reload from the
/// frequency register and step the waveform phase.
pub open spec fn spec_timer_tick(t: PulseTimer) -> PulseTimer {
    if t.counter > 1 {
        PulseTimer { counter: (t.counter - 1) as u16, ..t }
    } else {
        PulseTimer {
            counter: (2048 - t.frequency) as u16,
            phase: ((t.phase + 1) % 8) as u8,
            ..t
        }
    }
}

/// Channel trigger: reload the countdown from the current frequency; the
/// waveform phase is deliberately not reset.
pub open spec fn spec_timer_trigger(t: PulseTimer) -> PulseTimer {
    PulseTimer { counter: (2048 - t.frequency) as u16, ..t }
}

impl PulseTimer {
    pub open spec fn wf(self) -> bool {
        &&& self.frequency <= MAX_FREQUENCY
        &&& 1 <= self.counter <= 2048
        &&& self.phase < 8
    }

    pub fn new() -> (r: Self)
        ensures
            r.wf(),
            r == (PulseTimer { frequency: 0, counter: 2048, phase: 0 }),
    {
        PulseTimer { frequency: 0, counter: 2048, phase: 0 }
    }

    pub fn frequency(&self) -> (r: u16)
        ensures
            r == self.frequency,
    {
        self.frequency
    }

    /// Sweep-driven frequency update (the sweep writes the live register).
    pub fn write_frequency(&mut self, frequency: u16)
        requires
            old(self).wf(),
            frequency <= MAX_FREQUENCY,
        ensures
            final(self).wf(),
            *final(self) == (PulseTimer { frequency, ..*old(self) }),
    {
        self.frequency = frequency;
    }

    /// NRx3 write: replaces the low 8 frequency bits.
    pub fn write_frequency_low(&mut self, value: u8)
        requires
            old(self).wf(),
        ensures
            final(self).wf(),
            *final(self) == (PulseTimer {
                frequency: (old(self).frequency & 0x700) | (value as u16),
                ..*old(self)
            }),
    {
        let f: u16 = (self.frequency & 0x700) | (value as u16);
        proof {
            let of = self.frequency;
            assert((of & 0x700) | (value as u16) <= 2047) by (bit_vector)
                requires
                    of <= 2047,
            ;
        }
        self.frequency = f;
    }

    /// NRx4 write: replaces the high 3 frequency bits.
    pub fn write_frequency_high(&mut self, value: u8)
        requires
            old(self).wf(),
        ensures
            final(self).wf(),
            *final(self) == (PulseTimer {
                frequency: (old(self).frequency & 0xFF) | (((value & 0x07) as u16) << 8),
                ..*old(self)
            }),
    {
        let f: u16 = (self.frequency & 0xFF) | (((value & 0x07) as u16) << 8);
        proof {
            let of = self.frequency;
            assert((of & 0xFF) | (((value & 0x07) as u16) << 8) <= 2047) by (bit_vector);
        }
        self.frequency = f;
    }

    /// Channel trigger; see [`spec_timer_trigger`].
    pub fn trigger(&mut self)
        requires
            old(self).wf(),
        ensures
            final(self).wf(),
            *final(self) == spec_timer_trigger(*old(self)),
    {
        self.counter = 2048 - self.frequency;
    }

    /// One M-cycle; see [`spec_timer_tick`].
    pub fn tick_m_cycle(&mut self)
        requires
            old(self).wf(),
        ensures
            final(self).wf(),
            *final(self) == spec_timer_tick(*old(self)),
    {
        self.counter = self.counter - 1;
        if self.counter == 0 {
            self.counter = 2048 - self.frequency;
            self.phase = (self.phase + 1) % 8;
        }
    }
}

} // verus!
