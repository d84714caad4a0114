//! The joypad register: a write selects which button group the next read
//! reports; the byte read back encodes that group's buttons.
use vstd::prelude::*;

verus! {

/// Which button group a read of the joypad register reports.
#[derive(Debug, Clone, Copy, PartialEq, Eq, Structural)]
pub enum JoypadRead {
    Buttons,
    Directions,
    Idle,
}

/// The state of the eight buttons, as the host reports them.
#[derive(Debug, Clone, Copy, PartialEq, Eq, Structural)]
pub struct JoypadButtons {
    pub a: bool,
    pub b: bool,
    pub select: bool,
    pub start: bool,
    pub right: bool,
    pub left: bool,
    pub up: bool,
    pub down: bool,
}

impl JoypadButtons {
    pub fn new() -> (r: Self)
        ensures
            r == (JoypadButtons {
                a: false,
                b: false,
                select: false,
                start: false,
                right: false,
                left: false,
                up: false,
                down: false,
            }),
    {
        Self {
            a: false,
            b: false,
            select: false,
            start: false,
            right: false,
            left: false,
            up: false,
            down: false,
        }
    }
}

/// The joypad register: the selected group and the button state.
#[derive(Debug, Clone, Copy, PartialEq, Eq, Structural)]
pub struct JoypadRegister {
    pub read: JoypadRead,
    pub buttons: JoypadButtons,
}

impl JoypadRegister {
    pub fn new() -> (r: Self)
        ensures
            r.read == JoypadRead::Idle,
            r.buttons == (JoypadButtons {
                a: false,
                b: false,
                select: false,
                start: false,
                right: false,
                left: false,
                up: false,
                down: false,
            }),
    {
        Self { read: JoypadRead::Idle, buttons: JoypadButtons::new() }
    }

    /// The group that a byte written to the register selects: bit 5 clear
    /// picks the buttons, bit 4 clear picks the directions, both set picks
    /// neither.
    pub open spec fn spec_select(value: u8) -> JoypadRead {
        if value & 0b0011_0000 == 0b0010_0000 {
            JoypadRead::Buttons
        } else if value & 0b0011_0000 == 0b0001_0000 {
            JoypadRead::Directions
        } else {
            JoypadRead::Idle
        }
    }

    /// A write keeps the button state and only changes the selected group.
    pub fn write_byte(&mut self, value: u8)
        ensures
            *final(self) == (JoypadRegister {
                read: JoypadRegister::spec_select(value),
                ..*old(self)
            }),
    {
        if value & 0b0011_0000 == 0b0010_0000 {
            self.read = JoypadRead::Buttons;
        } else if value & 0b0011_0000 == 0b0001_0000 {
            self.read = JoypadRead::Directions;
        } else {
            self.read = JoypadRead::Idle;
        }
    }

    /// The byte a read reports: the selected group's buttons in the low
    /// nibble, the group select bit above them, or all six low bits set when
    /// no group is selected.
    pub open spec fn spec_to_byte(self) -> u8 {
        match self.read {
            JoypadRead::Idle => 0b0011_1111u8,
            JoypadRead::Buttons => 0b0010_0000u8 | (if self.buttons.a { 1u8 } else { 0u8 }) | (
            (if self.buttons.b { 1u8 } else { 0u8 }) << 1) | ((if self.buttons.select { 1u8 } else { 0u8 })
                << 2) | ((if self.buttons.start { 1u8 } else { 0u8 }) << 3),
            JoypadRead::Directions => 0b0001_0000u8 | (if self.buttons.right { 1u8 } else { 0u8 })
                | ((if self.buttons.left { 1u8 } else { 0u8 }) << 1) | ((if self.buttons.up { 1u8 } else { 0u8 })
                << 2) | ((if self.buttons.down { 1u8 } else { 0u8 }) << 3),
        }
    }

    pub fn to_byte(self) -> (r: u8)
        ensures
            r == self.spec_to_byte(),
    {
        match self.read {
            JoypadRead::Idle => 0b0011_1111u8,
            JoypadRead::Buttons => 0b0010_0000u8 | (if self.buttons.a { 1u8 } else { 0u8 }) | (
            (if self.buttons.b { 1u8 } else { 0u8 }) << 1) | ((if self.buttons.select { 1u8 } else { 0u8 })
                << 2) | ((if self.buttons.start { 1u8 } else { 0u8 }) << 3),
            JoypadRead::Directions => 0b0001_0000u8 | (if self.buttons.right { 1u8 } else { 0u8 })
                | ((if self.buttons.left { 1u8 } else { 0u8 }) << 1) | ((if self.buttons.up { 1u8 } else { 0u8 })
                << 2) | ((if self.buttons.down { 1u8 } else { 0u8 }) << 3),
        }
    }
}

} // verus!
