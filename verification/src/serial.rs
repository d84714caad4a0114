//! The serial port registers: a data byte and a control byte, kept as a
//! passive store.
use vstd::prelude::*;

verus! {

#[derive(Debug, Clone, Copy, PartialEq, Eq, Structural)]
pub enum SerialClockSpeed {
    Normal,
    Double,
}

#[derive(Debug, Clone, Copy, PartialEq, Eq, Structural)]
pub enum SerialClockSelect {
    ExternalClock,
    InternalClock,
}

/// The serial control register's three meaningful bits.
#[derive(Debug, Clone, Copy, PartialEq, Eq, Structural)]
pub struct SerialControl {
    pub transfer_enable: bool,
    pub clock_speed: SerialClockSpeed,
    pub clock_select: SerialClockSelect,
}

impl SerialControl {
    pub fn new() -> (r: Self)
        ensures
            r == (SerialControl {
                transfer_enable: false,
                clock_speed: SerialClockSpeed::Normal,
                clock_select: SerialClockSelect::ExternalClock,
            }),
    {
        Self {
            transfer_enable: false,
            clock_speed: SerialClockSpeed::Normal,
            clock_select: SerialClockSelect::ExternalClock,
        }
    }

    /// The byte the register shows: transfer enable in bit 7, clock speed in
    /// bit 1, clock select in bit 0.
    pub open spec fn spec_to_byte(self) -> u8 {
        (if self.transfer_enable { 0b1000_0000u8 } else { 0u8 }) | (if self.clock_speed
            == SerialClockSpeed::Double { 0b0000_0010u8 } else { 0u8 }) | (if self.clock_select
            == SerialClockSelect::InternalClock { 0b0000_0001u8 } else { 0u8 })
    }

    /// The control state a byte write selects; the other bits are ignored.
    pub open spec fn spec_from_byte(value: u8) -> SerialControl {
        SerialControl {
            transfer_enable: value & 0b1000_0000 != 0,
            clock_speed: if value & 0b0000_0010 != 0 {
                SerialClockSpeed::Double
            } else {
                SerialClockSpeed::Normal
            },
            clock_select: if value & 0b0000_0001 != 0 {
                SerialClockSelect::InternalClock
            } else {
                SerialClockSelect::ExternalClock
            },
        }
    }

    pub fn to_byte(self) -> (r: u8)
        ensures
            r == self.spec_to_byte(),
    {
        (if self.transfer_enable { 0b1000_0000u8 } else { 0u8 }) | (if self.clock_speed
            == SerialClockSpeed::Double { 0b0000_0010u8 } else { 0u8 }) | (if self.clock_select
            == SerialClockSelect::InternalClock { 0b0000_0001u8 } else { 0u8 })
    }

    pub fn from_byte(value: u8) -> (r: Self)
        ensures
            r == SerialControl::spec_from_byte(value),
    {
        SerialControl {
            transfer_enable: value & 0b1000_0000 != 0,
            clock_speed: if value & 0b0000_0010 != 0 {
                SerialClockSpeed::Double
            } else {
                SerialClockSpeed::Normal
            },
            clock_select: if value & 0b0000_0001 != 0 {
                SerialClockSelect::InternalClock
            } else {
                SerialClockSelect::ExternalClock
            },
        }
    }
}

/// The serial port: the transfer data byte and the control register.
#[derive(Debug, Clone, Copy, PartialEq, Eq, Structural)]
pub struct SerialRegister {
    pub data: u8,
    pub control: SerialControl,
}

impl SerialRegister {
    pub fn new() -> (r: Self)
        ensures
            r == (SerialRegister {
                data: 0u8,
                control: SerialControl {
                    transfer_enable: false,
                    clock_speed: SerialClockSpeed::Normal,
                    clock_select: SerialClockSelect::ExternalClock,
                },
            }),
    {
        Self { data: 0, control: SerialControl::new() }
    }

    /// What a read at one of the two serial addresses returns; any other
    /// address reads the neutral value zero.
    pub open spec fn spec_read_byte(self, address: u16) -> u8 {
        if address == 0xFF01 {
            self.data
        } else if address == 0xFF02 {
            self.control.spec_to_byte()
        } else {
            0u8
        }
    }

    pub fn read_byte(&self, address: u16) -> (r: u8)
        ensures
            r == self.spec_read_byte(address),
    {
        match address {
            0xFF01 => self.data,
            0xFF02 => self.control.to_byte(),
            _ => 0,
        }
    }

    /// The register state after a byte write; writes elsewhere change nothing.
    pub open spec fn spec_write_byte(self, address: u16, value: u8) -> SerialRegister {
        if address == 0xFF01 {
            SerialRegister { data: value, ..self }
        } else if address == 0xFF02 {
            SerialRegister { control: SerialControl::spec_from_byte(value), ..self }
        } else {
            self
        }
    }

    pub fn write_byte(&mut self, address: u16, value: u8)
        ensures
            *final(self) == old(self).spec_write_byte(address, value),
    {
        match address {
            0xFF01 => self.data = value,
            0xFF02 => self.control = SerialControl::from_byte(value),
            _ => (),
        }
    }
}

} // verus!
