//! Super NES core: cartridge mapping, work RAM, and the 5A22 CPU's
//! internal register block.

pub mod memory;
