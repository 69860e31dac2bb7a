//! Register-level models of the chips the main bus routes to.
//!
//! Video and sound generation are outside this library's scope; what the
//! bus needs from those chips is their register interface. Each port here
//! is a latch model with an exact contract: writes store, reads return the
//! stored value, so every routing decision of the bus can be verified
//! against it.

use vstd::prelude::*;

verus! {

/// A Z80 interrupt line level.
#[derive(Debug, Clone, Copy, PartialEq, Eq, Structural)]
pub enum InterruptLine {
    High,
    Low,
}

/// The VDP's bus-facing ports: data, control/status, and the HV counter,
/// plus its interrupt outputs.
#[derive(Debug, Clone, Copy, PartialEq, Eq, Structural)]
pub struct VdpPort {
    pub data: u16,
    pub status: u16,
    pub hv: u16,
    pub control: u16,
    pub m68k_interrupt: u8,
    pub z80_interrupt: InterruptLine,
}

impl VdpPort {
    pub fn new() -> (r: Self)
        ensures
            r == (VdpPort {
                data: 0,
                status: 0,
                hv: 0,
                control: 0,
                m68k_interrupt: 0,
                z80_interrupt: InterruptLine::High,
            }),
    {
        VdpPort {
            data: 0,
            status: 0,
            hv: 0,
            control: 0,
            m68k_interrupt: 0,
            z80_interrupt: InterruptLine::High,
        }
    }

    pub fn read_data(&self) -> (r: u16)
        ensures
            r == self.data,
    {
        self.data
    }

    pub fn read_status(&self) -> (r: u16)
        ensures
            r == self.status,
    {
        self.status
    }

    pub fn hv_counter(&self) -> (r: u16)
        ensures
            r == self.hv,
    {
        self.hv
    }

    pub fn write_data(&mut self, value: u16)
        ensures
            *final(self) == (VdpPort { data: value, ..*old(self) }),
    {
        self.data = value;
    }

    pub fn write_control(&mut self, value: u16)
        ensures
            *final(self) == (VdpPort { control: value, ..*old(self) }),
    {
        self.control = value;
    }

    pub fn m68k_interrupt_level(&self) -> (r: u8)
        ensures
            r == self.m68k_interrupt,
    {
        self.m68k_interrupt
    }

    pub fn acknowledge_m68k_interrupt(&mut self)
        ensures
            *final(self) == (VdpPort { m68k_interrupt: 0u8, ..*old(self) }),
    {
        self.m68k_interrupt = 0;
    }

    pub fn z80_interrupt_line(&self) -> (r: InterruptLine)
        ensures
            r == self.z80_interrupt,
    {
        self.z80_interrupt
    }
}

/// The PSG's single write-only port.
#[derive(Debug, Clone, Copy, PartialEq, Eq, Structural)]
pub struct PsgPort {
    pub last_write: u8,
}

impl PsgPort {
    pub fn new() -> (r: Self)
        ensures
            r == (PsgPort { last_write: 0u8 }),
    {
        PsgPort { last_write: 0 }
    }

    pub fn write(&mut self, value: u8)
        ensures
            *final(self) == (PsgPort { last_write: value }),
    {
        self.last_write = value;
    }
}

/// The YM2612's two address/data port pairs and its status byte (all
/// reads return the status, whichever port is read).
#[derive(Debug, Clone, Copy, PartialEq, Eq, Structural)]
pub struct YmPort {
    pub address_1: u8,
    pub data_1: u8,
    pub address_2: u8,
    pub data_2: u8,
    pub status: u8,
}

impl YmPort {
    pub fn new() -> (r: Self)
        ensures
            r == (YmPort { address_1: 0, data_1: 0, address_2: 0, data_2: 0, status: 0 }),
    {
        YmPort { address_1: 0, data_1: 0, address_2: 0, data_2: 0, status: 0 }
    }

    pub fn read_register(&self) -> (r: u8)
        ensures
            r == self.status,
    {
        self.status
    }

    pub fn write_address_1(&mut self, value: u8)
        ensures
            *final(self) == (YmPort { address_1: value, ..*old(self) }),
    {
        self.address_1 = value;
    }

    pub fn write_data_1(&mut self, value: u8)
        ensures
            *final(self) == (YmPort { data_1: value, ..*old(self) }),
    {
        self.data_1 = value;
    }

    pub fn write_address_2(&mut self, value: u8)
        ensures
            *final(self) == (YmPort { address_2: value, ..*old(self) }),
    {
        self.address_2 = value;
    }

    pub fn write_data_2(&mut self, value: u8)
        ensures
            *final(self) == (YmPort { data_2: value, ..*old(self) }),
    {
        self.data_2 = value;
    }
}

/// The controller ports' data and control registers.
#[derive(Debug, Clone, Copy, PartialEq, Eq, Structural)]
pub struct InputState {
    pub p1_data: u8,
    pub p1_ctrl: u8,
    pub p2_data: u8,
    pub p2_ctrl: u8,
}

impl InputState {
    pub fn new() -> (r: Self)
        ensures
            r == (InputState { p1_data: 0, p1_ctrl: 0, p2_data: 0, p2_ctrl: 0 }),
    {
        InputState { p1_data: 0, p1_ctrl: 0, p2_data: 0, p2_ctrl: 0 }
    }

    pub fn read_p1_data(&self) -> (r: u8)
        ensures
            r == self.p1_data,
    {
        self.p1_data
    }

    pub fn read_p2_data(&self) -> (r: u8)
        ensures
            r == self.p2_data,
    {
        self.p2_data
    }

    pub fn read_p1_ctrl(&self) -> (r: u8)
        ensures
            r == self.p1_ctrl,
    {
        self.p1_ctrl
    }

    pub fn read_p2_ctrl(&self) -> (r: u8)
        ensures
            r == self.p2_ctrl,
    {
        self.p2_ctrl
    }

    pub fn write_p1_data(&mut self, value: u8)
        ensures
            *final(self) == (InputState { p1_data: value, ..*old(self) }),
    {
        self.p1_data = value;
    }

    pub fn write_p2_data(&mut self, value: u8)
        ensures
            *final(self) == (InputState { p2_data: value, ..*old(self) }),
    {
        self.p2_data = value;
    }

    pub fn write_p1_ctrl(&mut self, value: u8)
        ensures
            *final(self) == (InputState { p1_ctrl: value, ..*old(self) }),
    {
        self.p1_ctrl = value;
    }

    pub fn write_p2_ctrl(&mut self, value: u8)
        ensures
            *final(self) == (InputState { p2_ctrl: value, ..*old(self) }),
    {
        self.p2_ctrl = value;
    }
}

} // verus!
