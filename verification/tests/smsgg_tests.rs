use retrocore::smsgg::api::{
    next_reset_frames, should_persist_save, vdp_cycle_budget, SmsGgError, SmsRegion, VdpVersion,
};
use retrocore::smsgg::input::InputState;

#[test]
fn idle_ports_read_all_released() {
    let input = InputState::new();
    // All buttons released read high; TR pins follow the (released)
    // button-2 lines.
    assert_eq!(input.port_dc(), 0xFF);
    assert_eq!(input.port_dd(), 0xFF);
}

#[test]
fn pressed_buttons_pull_lines_low() {
    let mut input = InputState::new();
    {
        let p1 = input.p1();
        p1.up = true;
        p1.button_1 = true;
    }
    // Bit 0 (P1 up) and bit 4 (P1 button 1) read low.
    assert_eq!(input.port_dc(), 0xFF & !0x01 & !0x10);
}

#[test]
fn control_register_drives_output_pins() {
    let mut input = InputState::new();
    // Port B TH as output driving 0 (bit 3 clear selects output, bit 7 is
    // the level), everything else input.
    input.write_control(0x07);
    assert_eq!(input.port_dd() & 0x80, 0x00);
    // Now drive it high.
    input.write_control(0x87);
    assert_eq!(input.port_dd() & 0x80, 0x80);
}

#[test]
fn port_a_tr_output_overrides_button() {
    let mut input = InputState::new();
    {
        let p1 = input.p1();
        p1.button_2 = true; // would read low as an input
    }
    assert_eq!(input.port_dc() & 0x20, 0x00);
    // Output mode driving 1 masks the pressed button.
    input.write_control(0x1E | 0x10);
    assert_eq!(input.port_dc() & 0x20, 0x20);
}

#[test]
fn pause_button_latch() {
    let mut input = InputState::new();
    assert!(!input.pause_pressed());
    input.set_pause(true);
    assert!(input.pause_pressed());
    input.set_pause(false);
    assert!(!input.pause_pressed());
}

#[test]
fn vdp_cycle_budget_carries_the_remainder() {
    // 11 Z80 cycles, no leftover: 5 pairs -> 15 VDP cycles, 1 left.
    assert_eq!(vdp_cycle_budget(11, 0), (15, 1));
    // Next tick: 11 + 1 leftover = 6 pairs -> 18 VDP cycles, 0 left.
    assert_eq!(vdp_cycle_budget(11, 1), (18, 0));
    // Over both ticks no cycle drifted: 22 Z80 cycles = 11 pairs = 33.
    assert_eq!(15 + 18, 33);
}

#[test]
fn save_persists_at_every_dirty_frame_boundary() {
    assert!(should_persist_save(true, true));
    assert!(!should_persist_save(false, true));
    assert!(!should_persist_save(true, false));
    assert!(!should_persist_save(false, false));
}

#[test]
fn reset_frames_count_down_and_stop_at_zero() {
    assert_eq!(next_reset_frames(5), 4);
    assert_eq!(next_reset_frames(1), 0);
    assert_eq!(next_reset_frames(0), 0);
}

#[test]
fn error_categories_name_the_collaborator() {
    let e: SmsGgError<&str, &str, &str> = SmsGgError::Render("boom");
    assert_eq!(e.category(), "rendering error");
    let e: SmsGgError<&str, &str, &str> = SmsGgError::Audio("boom");
    assert_eq!(e.category(), "audio error");
    let e: SmsGgError<&str, &str, &str> = SmsGgError::SaveWrite("boom");
    assert_eq!(e.category(), "error writing save file");
}

#[test]
fn vdp_versions_and_default_region() {
    assert!(VdpVersion::NtscMasterSystem2.is_master_system());
    assert!(VdpVersion::PalMasterSystem2.is_master_system());
    assert!(!VdpVersion::GameGear.is_master_system());
    assert_eq!(SmsRegion::default(), SmsRegion::International);
}
