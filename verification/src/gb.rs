//! Game Boy core: the Sharp SM83 CPU and the APU's pulse channel.

pub mod apu;
pub mod sm83;
