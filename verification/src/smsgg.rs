//! Master System / Game Gear core: joypad ports and the console driver's
//! decision kernels.

pub mod api;
pub mod input;
