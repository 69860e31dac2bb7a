//! Cycle-level console-hardware emulation cores: CPU instruction engines,
//! bus/memory routing, and audio channel units, with machine-checked
//! contracts for their register-level behaviour.

pub mod bits;
pub mod gb;
pub mod genesis;
pub mod m68k;
pub mod savestate;
pub mod smsgg;
pub mod snes;
pub mod text;

use vstd::prelude::*;

verus! {

/// The master timing standard a console runs at.
#[derive(Debug, Clone, Copy, PartialEq, Eq, Structural)]
pub enum TimingMode {
    Ntsc,
    Pal,
}

/// What a driver tick produced for the frontend.
#[derive(Debug, Clone, Copy, PartialEq, Eq, Structural)]
pub enum TickEffect {
    NoEffect,
    FrameRendered,
}

} // verus!
