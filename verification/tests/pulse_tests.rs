use retrocore::gb::apu::pulse::PulseChannel;

fn fresh_channel() -> PulseChannel {
    PulseChannel::new()
}

#[test]
fn duty_half_period_four_alternates_with_volume_15() {
    let mut ch = fresh_channel();
    // Envelope: initial volume 15, no sweep of volume (period 0); DAC on.
    ch.write_register_2(0xF0);
    // Duty 50% (bits 6-7 = 10), length load 0.
    ch.write_register_1(0x80);
    // Frequency 2044 -> period 2048 - 2044 = 4 M-cycles.
    ch.write_register_3(0xFC);
    // Trigger with frequency high bits 0b111.
    ch.write_register_4(0x87, 1);

    assert!(ch.enabled());
    // Duty 50% waveform is high at phase 0.
    assert_eq!(ch.sample(), Some(15));

    // Four timer clocks advance one phase; the waveform is low at
    // phases 1-4 and high again at phases 5-7.
    for _ in 0..4 {
        ch.tick_m_cycle();
    }
    assert_eq!(ch.sample(), Some(0));

    for _ in 0..16 {
        ch.tick_m_cycle();
    }
    // Now at phase 5.
    assert_eq!(ch.sample(), Some(15));
}

#[test]
fn sample_is_none_with_dac_disabled() {
    let mut ch = fresh_channel();
    assert_eq!(ch.sample(), None);
    ch.write_register_2(0xF0);
    ch.write_register_4(0x80, 1);
    assert!(ch.enabled());
    // Clearing the volume/direction bits disables the DAC and the channel.
    ch.write_register_2(0x00);
    assert_eq!(ch.sample(), None);
    assert!(!ch.enabled());
}

#[test]
fn disabled_channel_samples_zero() {
    let mut ch = fresh_channel();
    ch.write_register_2(0xF0);
    // DAC on but never triggered: channel disabled, sample is Some(0).
    assert_eq!(ch.sample(), Some(0));
}

#[test]
fn length_counter_of_one_disables_on_exactly_the_next_clock() {
    let mut ch = fresh_channel();
    ch.write_register_2(0xF0);
    // Length load 63 -> counter = 64 - 63 = 1.
    ch.write_register_1(0xBF);
    // Trigger with length enable (bit 6), on an odd frame-sequencer step
    // so no extra length clock fires.
    ch.write_register_4(0xC7, 1);

    assert!(ch.enabled());
    // Not disabled before the length clock...
    assert_eq!(ch.sample(), Some(15));
    // ...but exactly on the next length clock.
    ch.clock_length_counter();
    assert!(!ch.enabled());
}

#[test]
fn sweep_overflow_disables_after_next_sweep_clock() {
    let mut ch = fresh_channel();
    ch.write_register_2(0xF0);
    // Sweep: period 1, negate clear, shift 1.
    ch.write_register_0(0x11);
    // Frequency 1300: the trigger check passes (1300 + 650 <= 2047).
    ch.write_register_3(0x14);
    ch.write_register_4(0x85, 1);
    assert!(ch.enabled());

    // One sweep clock: the update to 1950 is applied, and the immediate
    // second calculation 1950 + 975 overflows, disabling the channel.
    ch.clock_sweep();
    assert!(!ch.enabled());
    // The first, in-range update was still written to the timer.
    assert_eq!(ch.timer.frequency, 1950);
}

#[test]
fn sweep_overflow_on_trigger_disables_immediately() {
    let mut ch = fresh_channel();
    ch.write_register_2(0xF0);
    // Sweep: period 1, shift 1; frequency 1366: 1366 + 683 > 2047.
    ch.write_register_0(0x11);
    ch.write_register_3(0x56);
    ch.write_register_4(0x85, 1);
    assert!(!ch.enabled());
}

#[test]
fn sweep_negate_mode_never_overflows() {
    let mut ch = fresh_channel();
    ch.write_register_2(0xF0);
    // Sweep: period 1, negate set (bit 3), shift 1.
    ch.write_register_0(0x19);
    // Frequency 2000; in negate mode the candidate is 2000 - 1000.
    ch.write_register_3(0xD0);
    ch.write_register_4(0x87, 1);
    assert!(ch.enabled());
    ch.clock_sweep();
    assert!(ch.enabled());
    assert_eq!(ch.timer.frequency, 1000);
}

#[test]
fn clearing_negate_after_negate_calculation_disables_channel() {
    let mut ch = fresh_channel();
    ch.write_register_2(0xF0);
    // Negate set, shift 1: the trigger calculation runs in negate mode.
    ch.write_register_0(0x19);
    ch.write_register_3(0x40);
    ch.write_register_4(0x80, 1);
    assert!(ch.enabled());
    // Clearing negate now disables the channel immediately.
    ch.write_register_0(0x11);
    assert!(!ch.enabled());
}

#[test]
fn register_read_back_values() {
    let mut ch = fresh_channel();
    ch.write_register_0(0x19);
    // NR10 reads back with bit 7 set.
    assert_eq!(ch.read_register_0(), 0x99);
    ch.write_register_1(0x45);
    // NRx1: only the duty bits read back, the rest reads as ones.
    assert_eq!(ch.read_register_1(), 0x7F);
    ch.write_register_2(0xA3);
    assert_eq!(ch.read_register_2(), 0xA3);
    // NRx4: only the length-enable bit reads back.
    assert_eq!(ch.read_register_4(), 0xBF);
    ch.write_register_4(0x40, 1);
    assert_eq!(ch.read_register_4(), 0xFF);
}

#[test]
fn envelope_steps_down_and_clamps_at_zero() {
    let mut ch = fresh_channel();
    // Duty 50%: the waveform is high at phase 0, so the sample is the
    // envelope volume.
    ch.write_register_1(0x80);
    // Initial volume 2, decrease, period 1.
    ch.write_register_2(0x21);
    ch.write_register_4(0x80, 1);
    assert_eq!(ch.sample(), Some(2));
    ch.clock_envelope();
    assert_eq!(ch.sample(), Some(1));
    ch.clock_envelope();
    assert_eq!(ch.sample(), Some(0));
    // Clamped: further clocks stay at zero.
    ch.clock_envelope();
    assert_eq!(ch.sample(), Some(0));
}

#[test]
fn envelope_constant_with_period_zero() {
    let mut ch = fresh_channel();
    ch.write_register_1(0x80);
    ch.write_register_2(0xF0);
    ch.write_register_4(0x80, 1);
    for _ in 0..10 {
        ch.clock_envelope();
    }
    assert_eq!(ch.sample(), Some(15));
}

#[test]
fn length_enable_in_even_step_window_clocks_immediately() {
    let mut ch = fresh_channel();
    ch.write_register_2(0xF0);
    // Counter = 1.
    ch.write_register_1(0xBF);
    ch.write_register_4(0x80, 1);
    assert!(ch.enabled());
    // Enabling length (no trigger) on an even step clocks the counter
    // once immediately, which disables the channel.
    ch.write_register_4(0x40, 2);
    assert!(!ch.enabled());
}
