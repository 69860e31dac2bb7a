//! Console-level types for the Master System / Game Gear driver, and the
//! exact cycle bookkeeping its tick loop relies on.
//!
//! The driver executes one Z80 instruction per tick and then runs the VDP
//! for 3 cycles per 2 Z80 cycles. The division remainder is carried forward
//! so that no cycle is ever lost or invented over a long run.

use vstd::prelude::*;

verus! {

/// Which collaborator failed during a tick.
#[derive(Debug)]
pub enum SmsGgError<RErr, AErr, SErr> {
    Render(RErr),
    Audio(AErr),
    SaveWrite(SErr),
}

impl<RErr, AErr, SErr> SmsGgError<RErr, AErr, SErr> {
    /// A short description of which collaborator failed.
    pub fn category(&self) -> (r: &'static str)
        ensures
            self is Render ==> r@ == "rendering error"@,
            self is Audio ==> r@ == "audio error"@,
            self is SaveWrite ==> r@ == "error writing save file"@,
    {
        match self {
            Self::Render(_) => "rendering error",
            Self::Audio(_) => "audio error",
            Self::SaveWrite(_) => "error writing save file",
        }
    }
}

/// SMS console region.
#[derive(Debug, Clone, Copy, PartialEq, Eq, Structural)]
pub enum SmsRegion {
    International,
    Domestic,
}

impl Default for SmsRegion {
    /// The default region is International (export hardware).
    fn default() -> (r: Self)
        ensures
            r == SmsRegion::International,
    {
        SmsRegion::International
    }
}

/// The VDP revision a console was built with.
#[derive(Debug, Clone, Copy, PartialEq, Eq, Structural)]
pub enum VdpVersion {
    NtscMasterSystem2,
    PalMasterSystem2,
    GameGear,
}

impl VdpVersion {
    pub fn is_master_system(self) -> (r: bool)
        ensures
            r == (self != VdpVersion::GameGear),
    {
        match self {
            Self::NtscMasterSystem2 | Self::PalMasterSystem2 => true,
            Self::GameGear => false,
        }
    }
}

/// VDP cycle budget for one tick: the Z80 ran `t_cycles`; together with the
/// cycles left over from the previous tick, every 2 Z80 cycles buy 3 VDP
/// cycles, and the remainder (0 or 1) is carried forward.
///
/// The pair returned is `(vdp_cycles, new_leftover)`. No cycles drift: twice
/// the whole 2-cycle groups plus the new leftover is exactly the cycle total.
pub fn vdp_cycle_budget(t_cycles: u32, leftover_vdp_cycles: u32) -> (r: (u32, u32))
    requires
        t_cycles < 0x1000_0000,
        leftover_vdp_cycles < 2,
    ensures
        r.0 == 3 * ((t_cycles + leftover_vdp_cycles) / 2),
        r.1 == (t_cycles + leftover_vdp_cycles) % 2,
        2 * ((t_cycles + leftover_vdp_cycles) / 2) + r.1 == t_cycles + leftover_vdp_cycles,
{
    let total = t_cycles + leftover_vdp_cycles;
    (total / 2 * 3, total % 2)
}

/// Whether this frame boundary must persist cartridge RAM: exactly when the
/// cartridge has a battery and RAM was written since the last persist. The
/// save-writer is invoked once per frame boundary, never per write.
pub fn should_persist_save(has_battery: bool, ram_dirty: bool) -> (r: bool)
    ensures
        r == (has_battery && ram_dirty),
{
    has_battery && ram_dirty
}

/// How many soft-reset frames remain after this frame: the SMS RESET button
/// is held virtually for several frames and released one frame at a time.
pub fn next_reset_frames(reset_frames_remaining: u32) -> (r: u32)
    ensures
        r == (if reset_frames_remaining > 0 { reset_frames_remaining - 1 } else { 0int }),
{
    if reset_frames_remaining > 0 {
        reset_frames_remaining - 1
    } else {
        0
    }
}

} // verus!
