//! Sega Genesis / Mega Drive core: cartridge and region handling, the
//! 68000 main bus with its Z80 bank window, and the console driver's
//! cycle bookkeeping.

pub mod api;
pub mod memory;
pub mod ports;
