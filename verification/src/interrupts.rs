//! The five interrupt flag bits shared by the enable register (IE) and the
//! pending register (IF), with their byte encoding and the fixed dispatch
//! priority.
use vstd::prelude::*;

verus! {

/// One set of the five interrupt bits. Priority is fixed:
/// v_blank > lcd_stat > timer > serial > joypad.
#[derive(Debug, Clone, Copy, PartialEq, Eq, Structural)]
pub struct InteruptFlags {
    pub v_blank: bool,
    pub lcd_stat: bool,
    pub timer: bool,
    pub serial: bool,
    pub joypad: bool,
}

impl InteruptFlags {
    /// The byte the register shows: v_blank in bit 0 up to joypad in bit 4.
    pub open spec fn spec_to_byte(self) -> u8 {
        ((if self.v_blank { 1u8 } else { 0u8 }) << 0) | ((if self.lcd_stat { 1u8 } else { 0u8 })
            << 1) | ((if self.timer { 1u8 } else { 0u8 }) << 2) | ((if self.serial { 1u8 } else { 0u8 })
            << 3) | ((if self.joypad { 1u8 } else { 0u8 }) << 4)
    }

    /// The flag set a byte write selects; bits 5 to 7 are ignored.
    pub open spec fn spec_from_byte(byte: u8) -> InteruptFlags {
        InteruptFlags {
            v_blank: (byte >> 0) & 1 != 0,
            lcd_stat: (byte >> 1) & 1 != 0,
            timer: (byte >> 2) & 1 != 0,
            serial: (byte >> 3) & 1 != 0,
            joypad: (byte >> 4) & 1 != 0,
        }
    }

    pub fn new() -> (r: Self)
        ensures
            r == InteruptFlags::spec_clear(),
    {
        Self { v_blank: false, lcd_stat: false, timer: false, serial: false, joypad: false }
    }

    /// The flag set with every bit clear.
    pub open spec fn spec_clear() -> InteruptFlags {
        InteruptFlags { v_blank: false, lcd_stat: false, timer: false, serial: false, joypad: false }
    }

    pub fn to_byte(self) -> (r: u8)
        ensures
            r == self.spec_to_byte(),
    {
        ((if self.v_blank { 1u8 } else { 0u8 }) << 0) | ((if self.lcd_stat { 1u8 } else { 0u8 })
            << 1) | ((if self.timer { 1u8 } else { 0u8 }) << 2) | ((if self.serial { 1u8 } else { 0u8 })
            << 3) | ((if self.joypad { 1u8 } else { 0u8 }) << 4)
    }

    pub fn from_byte(byte: u8) -> (r: Self)
        ensures
            r == InteruptFlags::spec_from_byte(byte),
    {
        InteruptFlags {
            v_blank: (byte >> 0) & 1 != 0,
            lcd_stat: (byte >> 1) & 1 != 0,
            timer: (byte >> 2) & 1 != 0,
            serial: (byte >> 3) & 1 != 0,
            joypad: (byte >> 4) & 1 != 0,
        }
    }

    /// Whether any source is both enabled and pending; this is what releases
    /// a halted processor, whatever the master enable says.
    pub open spec fn spec_any_pending(enable: InteruptFlags, flags: InteruptFlags) -> bool {
        ||| enable.v_blank && flags.v_blank
        ||| enable.lcd_stat && flags.lcd_stat
        ||| enable.timer && flags.timer
        ||| enable.serial && flags.serial
        ||| enable.joypad && flags.joypad
    }

    pub fn any_pending(enable: &InteruptFlags, flags: &InteruptFlags) -> (r: bool)
        ensures
            r == InteruptFlags::spec_any_pending(*enable, *flags),
    {
        (enable.v_blank && flags.v_blank) || (enable.lcd_stat && flags.lcd_stat) || (enable.timer
            && flags.timer) || (enable.serial && flags.serial) || (enable.joypad && flags.joypad)
    }
}

/// Decoding the byte a flag set encodes to gives the flag set back, and the
/// encoded byte uses only the low five bits.
pub proof fn lemma_interupt_flags_roundtrip(f: InteruptFlags)
    ensures
        InteruptFlags::spec_from_byte(f.spec_to_byte()) == f,
        f.spec_to_byte() & 0xE0 == 0,
{
    lemma_interupt_bits(f.v_blank, f.lcd_stat, f.timer, f.serial, f.joypad);
}

proof fn lemma_interupt_bits(v: bool, l: bool, t: bool, s: bool, j: bool)
    by (bit_vector)
    ensures
        ({
            let b = ((if v { 1u8 } else { 0u8 }) << 0) | ((if l { 1u8 } else { 0u8 }) << 1) | (
            (if t { 1u8 } else { 0u8 }) << 2) | ((if s { 1u8 } else { 0u8 }) << 3) | ((if j {
                1u8
            } else {
                0u8
            }) << 4);
            &&& ((b >> 0) & 1 != 0) == v
            &&& ((b >> 1) & 1 != 0) == l
            &&& ((b >> 2) & 1 != 0) == t
            &&& ((b >> 3) & 1 != 0) == s
            &&& ((b >> 4) & 1 != 0) == j
            &&& b & 0xE0 == 0
        }),
{
}

} // verus!
