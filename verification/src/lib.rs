//! Cycle-level model of an 8-bit handheld game console: the CPU register
//! file and instruction engine, the shared memory bus with its region
//! locking, the interrupt controller, the timer/divider, and the pixel
//! pipeline's scanline timing state machine.
use vstd::prelude::*;

pub mod audio;
pub mod bus;
pub mod cpu;
pub mod decode;
pub mod interrupts;
pub mod joypad;
pub mod lcd;
pub mod oam;
pub mod opcodes;
pub mod ppu;
pub mod serial;
pub mod time_divider;

verus! {

/// The address one past the given one, wrapping at the top of the space.
pub open spec fn wrapping_inc(address: u16) -> u16 {
    if address == 0xFFFF {
        0u16
    } else {
        (address + 1) as u16
    }
}

/// A fatal condition that halts emulation: decoding a byte with no table
/// entry, a store aimed at read-only memory, or an instruction whose operand
/// encoding no decoder ever produces.
#[derive(Debug, Clone, Copy, PartialEq, Eq, Structural)]
pub enum EmuError {
    /// The opcode byte at the program counter has no table entry.
    IllegalOpcode(u8),
    /// A write reached the read-only region at this address.
    ReadOnlyWrite(u16),
    /// An instruction carried an operand kind its handler cannot accept.
    InvalidOperand,
}

} // verus!
