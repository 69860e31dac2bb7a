//! SMS/Game Gear joypad ports: two joypads, the pause button, and the
//! four programmable I/O pins of the control register.

use vstd::prelude::*;
use crate::bits::{bit8, spec_bit8};

verus! {

/// One joypad's button state.
#[derive(Debug, Clone, Copy, PartialEq, Eq, Structural)]
pub struct JoypadState {
    pub up: bool,
    pub left: bool,
    pub right: bool,
    pub down: bool,
    pub button_1: bool,
    pub button_2: bool,
}

impl JoypadState {
    pub fn new() -> (r: Self)
        ensures
            r == (JoypadState {
                up: false,
                left: false,
                right: false,
                down: false,
                button_1: false,
                button_2: false,
            }),
    {
        JoypadState {
            up: false,
            left: false,
            right: false,
            down: false,
            button_1: false,
            button_2: false,
        }
    }
}

/// A controller-port pin: either an input (reading the joypad) or an output
/// driven to a fixed level by the control register.
#[derive(Debug, Clone, Copy, PartialEq, Eq, Structural)]
pub enum PinDirection {
    Input,
    Output(bool),
}

impl PinDirection {
    /// The level seen on the pin given the joypad's value.
    pub open spec fn spec_bit(self, joypad_value: bool) -> bool {
        match self {
            PinDirection::Input => joypad_value,
            PinDirection::Output(output_value) => output_value,
        }
    }

    pub fn bit(self, joypad_value: bool) -> (r: bool)
        ensures
            r == self.spec_bit(joypad_value),
    {
        match self {
            Self::Input => joypad_value,
            Self::Output(output_value) => output_value,
        }
    }
}

/// The console's input block: joypads, pause, and the port control pins.
#[derive(Debug, Clone, Copy, PartialEq, Eq, Structural)]
pub struct InputState {
    pub p1: JoypadState,
    pub p2: JoypadState,
    pub pause: bool,
    pub port_a_tr: PinDirection,
    pub port_a_th: PinDirection,
    pub port_b_tr: PinDirection,
    pub port_b_th: PinDirection,
}

/// The $DC port value: P1 d-pad and button 1, P2 up/down, and the port A TR
/// pin. Button lines read low when pressed.
pub open spec fn spec_port_dc(s: InputState) -> int {
    (if !s.p2.down { 0x80int } else { 0int })
        + (if !s.p2.up { 0x40int } else { 0int })
        + (if s.port_a_tr.spec_bit(!s.p1.button_2) { 0x20int } else { 0int })
        + (if !s.p1.button_1 { 0x10int } else { 0int })
        + (if !s.p1.right { 0x08int } else { 0int })
        + (if !s.p1.left { 0x04int } else { 0int })
        + (if !s.p1.down { 0x02int } else { 0int })
        + (if !s.p1.up { 0x01int } else { 0int })
}

/// The $DD port value: the TH pins, P2 button 1 / right / left, and the
/// port B TR pin; bits 4-5 read high.
pub open spec fn spec_port_dd(s: InputState) -> int {
    (if s.port_b_th.spec_bit(true) { 0x80int } else { 0int })
        + (if s.port_a_th.spec_bit(true) { 0x40int } else { 0int })
        + 0x30
        + (if s.port_b_tr.spec_bit(!s.p2.button_2) { 0x08int } else { 0int })
        + (if !s.p2.button_1 { 0x04int } else { 0int })
        + (if !s.p2.right { 0x02int } else { 0int })
        + (if !s.p2.left { 0x01int } else { 0int })
}

impl InputState {
    /// All buttons released, all pins set to inputs.
    pub fn new() -> (r: Self)
        ensures
            r.p1 == JoypadState::new_spec(),
            r.p2 == JoypadState::new_spec(),
            !r.pause,
            r.port_a_tr == PinDirection::Input,
            r.port_a_th == PinDirection::Input,
            r.port_b_tr == PinDirection::Input,
            r.port_b_th == PinDirection::Input,
    {
        Self {
            p1: JoypadState::new(),
            p2: JoypadState::new(),
            pause: false,
            port_a_tr: PinDirection::Input,
            port_a_th: PinDirection::Input,
            port_b_tr: PinDirection::Input,
            port_b_th: PinDirection::Input,
        }
    }

    /// Mutable access to player 1's joypad.
    pub fn p1(&mut self) -> (r: &mut JoypadState)
        ensures
            *r == old(self).p1,
            *final(self) == (InputState { p1: *final(r), ..*old(self) }),
    {
        &mut self.p1
    }

    pub fn pause_pressed(&self) -> (r: bool)
        ensures
            r == self.pause,
    {
        self.pause
    }

    pub fn set_pause(&mut self, pause: bool)
        ensures
            *final(self) == (InputState { pause, ..*old(self) }),
    {
        self.pause = pause;
    }

    /// $3F control-register write: for each pin, bit set means input, bit
    /// clear means output driven from the corresponding high bit.
    pub fn write_control(&mut self, value: u8)
        ensures
            *final(self) == (InputState {
                port_b_th: if spec_bit8(value, 3) {
                    PinDirection::Input
                } else {
                    PinDirection::Output(spec_bit8(value, 7))
                },
                port_b_tr: if spec_bit8(value, 2) {
                    PinDirection::Input
                } else {
                    PinDirection::Output(spec_bit8(value, 6))
                },
                port_a_th: if spec_bit8(value, 1) {
                    PinDirection::Input
                } else {
                    PinDirection::Output(spec_bit8(value, 5))
                },
                port_a_tr: if spec_bit8(value, 0) {
                    PinDirection::Input
                } else {
                    PinDirection::Output(spec_bit8(value, 4))
                },
                ..*old(self)
            }),
    {
        self.port_b_th = if bit8(value, 3) {
            PinDirection::Input
        } else {
            PinDirection::Output(bit8(value, 7))
        };
        self.port_b_tr = if bit8(value, 2) {
            PinDirection::Input
        } else {
            PinDirection::Output(bit8(value, 6))
        };
        self.port_a_th = if bit8(value, 1) {
            PinDirection::Input
        } else {
            PinDirection::Output(bit8(value, 5))
        };
        self.port_a_tr = if bit8(value, 0) {
            PinDirection::Input
        } else {
            PinDirection::Output(bit8(value, 4))
        };
    }

    /// Read port $DC; see [`spec_port_dc`].
    pub fn port_dc(&self) -> (r: u8)
        ensures
            r == spec_port_dc(*self),
    {
        let port_a_tr_bit: u8 = if self.port_a_tr.bit(!self.p1.button_2) { 0x20 } else { 0 };

        (if !self.p2.down { 0x80u8 } else { 0u8 })
            + (if !self.p2.up { 0x40u8 } else { 0u8 })
            + port_a_tr_bit
            + (if !self.p1.button_1 { 0x10u8 } else { 0u8 })
            + (if !self.p1.right { 0x08u8 } else { 0u8 })
            + (if !self.p1.left { 0x04u8 } else { 0u8 })
            + (if !self.p1.down { 0x02u8 } else { 0u8 })
            + (if !self.p1.up { 0x01u8 } else { 0u8 })
    }

    /// Read port $DD; see [`spec_port_dd`].
    pub fn port_dd(&self) -> (r: u8)
        ensures
            r == spec_port_dd(*self),
    {
        let port_b_th_bit: u8 = if self.port_b_th.bit(true) { 0x80 } else { 0 };
        let port_a_th_bit: u8 = if self.port_a_th.bit(true) { 0x40 } else { 0 };
        let port_b_tr_bit: u8 = if self.port_b_tr.bit(!self.p2.button_2) { 0x08 } else { 0 };

        port_b_th_bit
            + port_a_th_bit
            + 0x30
            + port_b_tr_bit
            + (if !self.p2.button_1 { 0x04u8 } else { 0u8 })
            + (if !self.p2.right { 0x02u8 } else { 0u8 })
            + (if !self.p2.left { 0x01u8 } else { 0u8 })
    }
}

impl JoypadState {
    /// Spec-level view of [`JoypadState::new`].
    pub open spec fn new_spec() -> JoypadState {
        JoypadState {
            up: false,
            left: false,
            right: false,
            down: false,
            button_1: false,
            button_2: false,
        }
    }
}

} // verus!
