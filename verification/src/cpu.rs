//! The processor: the register file with its paired accessors, the machine
//! state that owns the bus and the pixel pipeline, the stack primitives,
//! the interrupt controller, and the fetch-execute step.
use vstd::prelude::*;

use crate::bus::Bus;
use crate::ppu::PPU;
use crate::EmuError;
use vstd::wrapping::u16_specs;

verus! {

/// The four flag bits. On the wire they occupy the top nibble of the F
/// register; the low nibble always reads zero.
#[derive(Debug, Clone, Copy, PartialEq, Eq, Structural)]
pub struct FlagsRegister {
    pub zero: bool,
    pub subtract: bool,
    pub half_carry: bool,
    pub carry: bool,
}

impl FlagsRegister {
    /// The byte the F register shows: flags packed into the top nibble.
    pub open spec fn spec_to_byte(self) -> u8 {
        ((if self.zero { 1u8 } else { 0u8 }) << 7) | ((if self.subtract { 1u8 } else { 0u8 }) << 6)
            | ((if self.half_carry { 1u8 } else { 0u8 }) << 5) | ((if self.carry { 1u8 } else { 0u8 }) << 4)
    }

    /// The flags a byte written to F selects: one bit each, low nibble ignored.
    pub open spec fn spec_from_byte(byte: u8) -> FlagsRegister {
        FlagsRegister {
            zero: (byte >> 7) & 1 != 0,
            subtract: (byte >> 6) & 1 != 0,
            half_carry: (byte >> 5) & 1 != 0,
            carry: (byte >> 4) & 1 != 0,
        }
    }

    pub fn new() -> (r: Self)
        ensures
            r == (FlagsRegister { zero: false, subtract: false, half_carry: false, carry: false }),
    {
        Self { zero: false, subtract: false, half_carry: false, carry: false }
    }

    pub fn to_byte(self) -> (r: u8)
        ensures
            r == self.spec_to_byte(),
    {
        ((if self.zero { 1u8 } else { 0u8 }) << 7) | ((if self.subtract { 1u8 } else { 0u8 }) << 6)
            | ((if self.half_carry { 1u8 } else { 0u8 }) << 5) | ((if self.carry { 1u8 } else { 0u8 }) << 4)
    }

    pub fn from_byte(byte: u8) -> (r: Self)
        ensures
            r == FlagsRegister::spec_from_byte(byte),
    {
        FlagsRegister {
            zero: (byte >> 7) & 1 != 0,
            subtract: (byte >> 6) & 1 != 0,
            half_carry: (byte >> 5) & 1 != 0,
            carry: (byte >> 4) & 1 != 0,
        }
    }
}

/// Decoding the byte a flag set encodes to gives the flag set back, and the
/// encoded byte keeps its low nibble clear.
pub proof fn lemma_flags_roundtrip(f: FlagsRegister)
    ensures
        FlagsRegister::spec_from_byte(f.spec_to_byte()) == f,
        f.spec_to_byte() & 0x0F == 0,
{
    lemma_flag_bits(f.zero, f.subtract, f.half_carry, f.carry);
}

proof fn lemma_flag_bits(z: bool, n: bool, h: bool, c: bool)
    by (bit_vector)
    ensures
        ({
            let b = ((if z { 1u8 } else { 0u8 }) << 7) | ((if n { 1u8 } else { 0u8 }) << 6) | (
            (if h { 1u8 } else { 0u8 }) << 5) | ((if c { 1u8 } else { 0u8 }) << 4);
            &&& ((b >> 7) & 1 != 0) == z
            &&& ((b >> 6) & 1 != 0) == n
            &&& ((b >> 5) & 1 != 0) == h
            &&& ((b >> 4) & 1 != 0) == c
            &&& b & 0x0F == 0
        }),
{
}

/// The register file: the eight byte registers with the flag set standing in
/// for F. The stack pointer and program counter live on the machine itself.
#[derive(Debug, Clone, Copy, PartialEq, Eq, Structural)]
pub struct Register {
    pub a: u8,
    pub b: u8,
    pub c: u8,
    pub d: u8,
    pub e: u8,
    pub f: FlagsRegister,
    pub h: u8,
    pub l: u8,
}

/// Two byte registers read as one word: the first forms the high byte.
pub open spec fn spec_pair(hi: u8, lo: u8) -> u16 {
    (hi as u16) << 8 | (lo as u16)
}

/// The high byte a word write stores into the first register of a pair.
pub open spec fn spec_hi(value: u16) -> u8 {
    (value >> 8) as u8
}

/// The low byte a word write stores into the second register of a pair.
pub open spec fn spec_lo(value: u16) -> u8 {
    value as u8
}

/// Composing a word from its split halves gives the word back, and splitting
/// a composed word gives the halves back.
pub proof fn lemma_pair_roundtrip(value: u16, hi: u8, lo: u8)
    ensures
        spec_pair(spec_hi(value), spec_lo(value)) == value,
        spec_hi(spec_pair(hi, lo)) == hi,
        spec_lo(spec_pair(hi, lo)) == lo,
{
    assert(((value >> 8) as u8 as u16) << 8 | (value as u8 as u16) == value) by (bit_vector);
    assert((((hi as u16) << 8 | (lo as u16)) >> 8) as u8 == hi) by (bit_vector);
    assert(((hi as u16) << 8 | (lo as u16)) as u8 == lo) by (bit_vector);
}

impl Register {
    pub fn new() -> (r: Self)
        ensures
            r == (Register {
                a: 0u8,
                b: 0u8,
                c: 0u8,
                d: 0u8,
                e: 0u8,
                f: FlagsRegister { zero: false, subtract: false, half_carry: false, carry: false },
                h: 0u8,
                l: 0u8,
            }),
    {
        Self { a: 0, b: 0, c: 0, d: 0, e: 0, f: FlagsRegister::new(), h: 0, l: 0 }
    }

    pub fn get_af(&self) -> (r: u16)
        ensures
            r == spec_pair(self.a, self.f.spec_to_byte()),
    {
        (self.a as u16) << 8 | (self.f.to_byte() as u16)
    }

    pub fn set_af(&mut self, value: u16)
        ensures
            *final(self) == (Register {
                a: spec_hi(value),
                f: FlagsRegister::spec_from_byte(spec_lo(value)),
                ..*old(self)
            }),
    {
        self.a = (value >> 8) as u8;
        self.f = FlagsRegister::from_byte(value as u8);
    }

    pub fn get_bc(&self) -> (r: u16)
        ensures
            r == spec_pair(self.b, self.c),
    {
        (self.b as u16) << 8 | (self.c as u16)
    }

    pub fn set_bc(&mut self, value: u16)
        ensures
            *final(self) == (Register { b: spec_hi(value), c: spec_lo(value), ..*old(self) }),
    {
        self.b = (value >> 8) as u8;
        self.c = value as u8;
    }

    pub fn get_de(&self) -> (r: u16)
        ensures
            r == spec_pair(self.d, self.e),
    {
        (self.d as u16) << 8 | (self.e as u16)
    }

    pub fn set_de(&mut self, value: u16)
        ensures
            *final(self) == (Register { d: spec_hi(value), e: spec_lo(value), ..*old(self) }),
    {
        self.d = (value >> 8) as u8;
        self.e = value as u8;
    }

    pub fn get_hl(&self) -> (r: u16)
        ensures
            r == spec_pair(self.h, self.l),
    {
        (self.h as u16) << 8 | (self.l as u16)
    }

    pub fn set_hl(&mut self, value: u16)
        ensures
            *final(self) == (Register { h: spec_hi(value), l: spec_lo(value), ..*old(self) }),
    {
        self.h = (value >> 8) as u8;
        self.l = value as u8;
    }
}

/// The processor and the machine it drives: registers, the two pointers,
/// the interrupt master enable, the halted latch, and the bus and pixel
/// pipeline it owns.
pub struct CPU {
    pub registers: Register,
    pub program_counter: u16,
    pub stack_pointer: u16,
    pub interupt_master_enable: bool,
    pub memory_bus: Bus,
    pub ppu: PPU,
    pub is_halted: bool,
}

impl CPU {
    /// The machine keeps its bus shape and the pipeline stays in lockstep
    /// with the mode and locks the bus publishes.
    pub open spec fn wf(self) -> bool {
        &&& self.memory_bus.wf()
        &&& self.ppu.wf()
        &&& crate::ppu::ppu_sync(self.ppu@, self.memory_bus@)
    }

    /// The machine at power-on: cleared registers, the stack pointer at
    /// the top of the space, interrupts masked, the pipeline on the first
    /// dot of the first scanline's sprite scan.
    pub fn new() -> (r: Self)
        ensures
            r.wf(),
            r.registers == (Register {
                a: 0u8,
                b: 0u8,
                c: 0u8,
                d: 0u8,
                e: 0u8,
                f: FlagsRegister { zero: false, subtract: false, half_carry: false, carry: false },
                h: 0u8,
                l: 0u8,
            }),
            r.program_counter == 0,
            r.stack_pointer == 0xFFFF,
            r.interupt_master_enable == false,
            r.is_halted == false,
            r.ppu@.dot_counter == 0,
            r.memory_bus@.io.lcd.status.ly == 0,
            r.memory_bus@.io.lcd.status.stat.ppu_mode == 2,
            r.memory_bus@.interupt_flags == crate::interrupts::InteruptFlags::spec_clear(),
            r.memory_bus@.interupt_enable == crate::interrupts::InteruptFlags::spec_clear(),
            r.memory_bus@.io.timer_divider
                == crate::time_divider::TimeDividerRegister::spec_power_on(),
    {
        CPU {
            registers: Register::new(),
            program_counter: 0,
            stack_pointer: 0xFFFF,
            interupt_master_enable: false,
            memory_bus: Bus::new(),
            ppu: PPU::new(),
            is_halted: false,
        }
    }

    /// Push a word: the stack pointer drops by two, then the word lands
    /// there low byte first. A stack that has wandered into ROM makes the
    /// store fatal; the pointer still moves, as the hardware's would.
    pub fn push_word(&mut self, value: u16) -> (r: Result<(), EmuError>)
        requires
            old(self).memory_bus.wf(),
        ensures
            final(self).memory_bus.wf(),
            spec_same_but_stack(*old(self), *final(self)),
            final(self).program_counter == old(self).program_counter,
            final(self).stack_pointer == u16_specs::wrapping_sub(old(self).stack_pointer, 2),
            spec_word_store_post(
                old(self).memory_bus@,
                final(self).memory_bus@,
                u16_specs::wrapping_sub(old(self).stack_pointer, 2),
                value,
                r,
            ),
    {
        self.stack_pointer = self.stack_pointer.wrapping_sub(2);
        self.memory_bus.write_word(self.stack_pointer, value)
    }

    /// Pop a word: the word at the stack pointer, read low byte first,
    /// and the pointer rises by two.
    pub fn pop_word(&mut self) -> (r: u16)
        requires
            old(self).memory_bus.wf(),
        ensures
            final(self).memory_bus.wf(),
            spec_same_but_stack(*old(self), *final(self)),
            final(self).program_counter == old(self).program_counter,
            final(self).memory_bus == old(self).memory_bus,
            r == Bus::spec_read_word(old(self).memory_bus@, old(self).stack_pointer),
            final(self).stack_pointer == u16_specs::wrapping_add(old(self).stack_pointer, 2),
    {
        let value = self.memory_bus.read_word(self.stack_pointer);
        self.stack_pointer = self.stack_pointer.wrapping_add(2);
        value
    }

    /// Jump to a subroutine: the return address — the program counter as
    /// it stands — is pushed, then the counter takes the target.
    pub fn call(&mut self, address: u16) -> (r: Result<(), EmuError>)
        requires
            old(self).memory_bus.wf(),
        ensures
            final(self).memory_bus.wf(),
            spec_same_but_stack(*old(self), *final(self)),
            final(self).stack_pointer == u16_specs::wrapping_sub(old(self).stack_pointer, 2),
            spec_word_store_post(
                old(self).memory_bus@,
                final(self).memory_bus@,
                u16_specs::wrapping_sub(old(self).stack_pointer, 2),
                old(self).program_counter,
                r,
            ),
            r is Ok ==> final(self).program_counter == address,
            r is Err ==> final(self).program_counter == old(self).program_counter,
    {
        self.push_word(self.program_counter)?;
        self.program_counter = address;
        Ok(())
    }

    /// Return from a subroutine when asked to: the counter takes the word
    /// at the stack pointer and the pointer rises by two. The counter as
    /// it then stands is handed back either way.
    pub fn ret(&mut self, should_return: bool) -> (r: u16)
        requires
            old(self).memory_bus.wf(),
        ensures
            final(self).memory_bus.wf(),
            spec_same_but_stack(*old(self), *final(self)),
            final(self).memory_bus == old(self).memory_bus,
            should_return ==> final(self).program_counter == Bus::spec_read_word(
                old(self).memory_bus@,
                old(self).stack_pointer,
            ) && final(self).stack_pointer == u16_specs::wrapping_add(
                old(self).stack_pointer,
                2,
            ),
            !should_return ==> final(self).program_counter == old(self).program_counter
                && final(self).stack_pointer == old(self).stack_pointer,
            r == final(self).program_counter,
    {
        if should_return {
            self.program_counter = self.pop_word();
        }
        self.program_counter
    }
}

/// Everything of the machine except the counter, pointer and bus contents
/// is unchanged: what the stack primitives may touch.
pub open spec fn spec_same_but_stack(c0: CPU, c1: CPU) -> bool {
    &&& c1.registers == c0.registers
    &&& c1.interupt_master_enable == c0.interupt_master_enable
    &&& c1.is_halted == c0.is_halted
    &&& c1.ppu == c0.ppu
}

/// How a word store at an address ends: the low byte lands first, either
/// half aimed at ROM is fatal, and a locked cell swallows its byte.
pub open spec fn spec_word_store_post(
    b0: crate::bus::BusView,
    b1: crate::bus::BusView,
    address: u16,
    value: u16,
    r: Result<(), EmuError>,
) -> bool {
    let next = crate::wrapping_inc(address);
    &&& (crate::bus::spec_is_rom(address) ==> r == Err::<(), EmuError>(
        EmuError::ReadOnlyWrite(address),
    ) && b1 == b0)
    &&& (!crate::bus::spec_is_rom(address) && crate::bus::spec_is_rom(next) ==> r == Err::<
        (),
        EmuError,
    >(EmuError::ReadOnlyWrite(next)) && b1 == crate::bus::spec_write(b0, address, spec_lo(value)))
    &&& (!crate::bus::spec_is_rom(address) && !crate::bus::spec_is_rom(next) ==> r == Ok::<
        (),
        EmuError,
    >(()) && b1 == crate::bus::spec_write(
        crate::bus::spec_write(b0, address, spec_lo(value)),
        next,
        spec_hi(value),
    ))
}

/// The bus after a word is pushed at the dropped stack pointer: the low
/// byte lands two below the old pointer, the high byte one below.
pub open spec fn spec_pushed_bus(b: crate::bus::BusView, sp: u16, value: u16) -> crate::bus::BusView {
    let a = u16_specs::wrapping_sub(sp, 2);
    crate::bus::spec_write(
        crate::bus::spec_write(b, a, spec_lo(value)),
        crate::wrapping_inc(a),
        spec_hi(value),
    )
}

/// How one poll of the interrupt controller ends: with the master
/// enable clear, or nothing both enabled and pending, the machine is
/// untouched; otherwise the highest-priority pending source is
/// dispatched and exactly its pending bit cleared.
pub open spec fn spec_interrupt_rel(c0: CPU, c1: CPU, r: Result<(), EmuError>) -> bool {
            let ie = c0.memory_bus.interupt_enable;
            let pending = c0.memory_bus.interupt_flags;
            let pushed = spec_pushed_bus(
                c0.memory_bus@,
                c0.stack_pointer,
                c0.program_counter,
            );
            if !c0.interupt_master_enable {
                r == Ok::<(), EmuError>(()) && crate::opcodes::spec_same_cpu(
                    c0,
                    c1,
                )
            } else if ie.v_blank && pending.v_blank {
                spec_dispatch_case(
                    c0,
                    c1,
                    r,
                    0x40,
                    crate::interrupts::InteruptFlags {
                        v_blank: false,
                        ..pushed.interupt_flags
                    },
                )
            } else if ie.lcd_stat && pending.lcd_stat {
                spec_dispatch_case(
                    c0,
                    c1,
                    r,
                    0x48,
                    crate::interrupts::InteruptFlags {
                        lcd_stat: false,
                        ..pushed.interupt_flags
                    },
                )
            } else if ie.timer && pending.timer {
                spec_dispatch_case(
                    c0,
                    c1,
                    r,
                    0x50,
                    crate::interrupts::InteruptFlags { timer: false, ..pushed.interupt_flags },
                )
            } else if ie.serial && pending.serial {
                spec_dispatch_case(
                    c0,
                    c1,
                    r,
                    0x58,
                    crate::interrupts::InteruptFlags { serial: false, ..pushed.interupt_flags },
                )
            } else if ie.joypad && pending.joypad {
                spec_dispatch_case(
                    c0,
                    c1,
                    r,
                    0x60,
                    crate::interrupts::InteruptFlags { joypad: false, ..pushed.interupt_flags },
                )
            } else {
                r == Ok::<(), EmuError>(()) && crate::opcodes::spec_same_cpu(
                    c0,
                    c1,
                )
            }
}

/// How one interrupt dispatch ends: the return address is pushed, the
/// counter takes the vector, and the pending register becomes the given
/// set; a stack that has wandered into ROM makes the push fatal, and the
/// pending bit then stays.
pub open spec fn spec_dispatch_case(
    c0: CPU,
    c1: CPU,
    r: Result<(), EmuError>,
    vector: u16,
    cleared: crate::interrupts::InteruptFlags,
) -> bool {
    let sp2 = u16_specs::wrapping_sub(c0.stack_pointer, 2);
    let pushed = spec_pushed_bus(c0.memory_bus@, c0.stack_pointer, c0.program_counter);
    &&& c1.registers == c0.registers
    &&& c1.interupt_master_enable == c0.interupt_master_enable
    &&& c1.is_halted == c0.is_halted
    &&& c1.ppu == c0.ppu
    &&& c1.stack_pointer == sp2
    &&& (r is Ok ==> c1.program_counter == vector && c1.memory_bus@ == (crate::bus::BusView {
        interupt_flags: cleared,
        ..pushed
    }))
    &&& (r is Err ==> c1.program_counter == c0.program_counter && spec_word_store_post(
        c0.memory_bus@,
        c1.memory_bus@,
        sp2,
        c0.program_counter,
        if r is Ok {
            Ok::<(), EmuError>(())
        } else {
            Err::<(), EmuError>(r->Err_0)
        },
    ))
}

impl CPU {
    /// Move the program counter past the bytes an instruction occupies.
    pub fn advance_pc(&mut self, nb_bytes: u8)
        ensures
            *final(self) == (CPU {
                program_counter: u16_specs::wrapping_add(
                    old(self).program_counter,
                    nb_bytes as u16,
                ),
                ..*old(self)
            }),
    {
        self.program_counter = self.program_counter.wrapping_add(nb_bytes as u16);
    }

    /// Poll the interrupt controller: with the master enable set, the
    /// highest-priority source that is both enabled and pending — in the
    /// fixed order V-blank, LCD status, timer, serial, joypad — is
    /// dispatched: an implicit call to its vector, and exactly that one
    /// pending bit is cleared. Lower sources wait for a later step; with
    /// the master enable clear nothing moves, though pending bits keep
    /// accumulating.
    #[verifier::rlimit(100)]
    #[verifier::spinoff_prover]
    pub fn handle_interupt(&mut self) -> (r: Result<(), EmuError>)
        requires
            old(self).memory_bus.wf(),
        ensures
            final(self).memory_bus.wf(),
            final(self).ppu == old(self).ppu,
            crate::bus::spec_ppu_regs_same(old(self).memory_bus@, final(self).memory_bus@),
            spec_interrupt_rel(*old(self), *final(self), r),
    {
        if !self.interupt_master_enable {
            return Ok(());
        }
        if self.memory_bus.interupt_enable.v_blank && self.memory_bus.interupt_flags.v_blank {
            self.serve_v_blank()?;
        } else if self.memory_bus.interupt_enable.lcd_stat
            && self.memory_bus.interupt_flags.lcd_stat {
            self.serve_lcd_stat()?;
        } else if self.memory_bus.interupt_enable.timer && self.memory_bus.interupt_flags.timer {
            self.serve_timer()?;
        } else if self.memory_bus.interupt_enable.serial && self.memory_bus.interupt_flags.serial {
            self.serve_serial()?;
        } else if self.memory_bus.interupt_enable.joypad && self.memory_bus.interupt_flags.joypad {
            self.serve_joypad()?;
        }
        Ok(())
    }


    /// Dispatch the v blank source: call its vector and clear
    /// exactly its pending bit.
    #[verifier::rlimit(100)]
    #[verifier::spinoff_prover]
    fn serve_v_blank(&mut self) -> (r: Result<(), EmuError>)
        requires
            old(self).memory_bus.wf(),
        ensures
            final(self).memory_bus.wf(),
            final(self).ppu == old(self).ppu,
            crate::bus::spec_ppu_regs_same(old(self).memory_bus@, final(self).memory_bus@),
            spec_dispatch_case(
                *old(self),
                *final(self),
                r,
                0x40,
                crate::interrupts::InteruptFlags {
                    v_blank: false,
                    ..spec_pushed_bus(
                        old(self).memory_bus@,
                        old(self).stack_pointer,
                        old(self).program_counter,
                    ).interupt_flags
                },
            ),
    {
        self.dispatch(0x40)?;
        self.memory_bus.interupt_flags.v_blank = false;
        proof {
            let pushed = spec_pushed_bus(
                old(self).memory_bus@,
                old(self).stack_pointer,
                old(self).program_counter,
            );
            assert(self.memory_bus@ =~~= (crate::bus::BusView {
                interupt_flags: crate::interrupts::InteruptFlags {
                    v_blank: false,
                    ..pushed.interupt_flags
                },
                ..pushed
            }));
        }
        Ok(())
    }

    /// Dispatch the lcd stat source: call its vector and clear
    /// exactly its pending bit.
    #[verifier::rlimit(100)]
    #[verifier::spinoff_prover]
    fn serve_lcd_stat(&mut self) -> (r: Result<(), EmuError>)
        requires
            old(self).memory_bus.wf(),
        ensures
            final(self).memory_bus.wf(),
            final(self).ppu == old(self).ppu,
            crate::bus::spec_ppu_regs_same(old(self).memory_bus@, final(self).memory_bus@),
            spec_dispatch_case(
                *old(self),
                *final(self),
                r,
                0x48,
                crate::interrupts::InteruptFlags {
                    lcd_stat: false,
                    ..spec_pushed_bus(
                        old(self).memory_bus@,
                        old(self).stack_pointer,
                        old(self).program_counter,
                    ).interupt_flags
                },
            ),
    {
        self.dispatch(0x48)?;
        self.memory_bus.interupt_flags.lcd_stat = false;
        proof {
            let pushed = spec_pushed_bus(
                old(self).memory_bus@,
                old(self).stack_pointer,
                old(self).program_counter,
            );
            assert(self.memory_bus@ =~~= (crate::bus::BusView {
                interupt_flags: crate::interrupts::InteruptFlags {
                    lcd_stat: false,
                    ..pushed.interupt_flags
                },
                ..pushed
            }));
        }
        Ok(())
    }

    /// Dispatch the timer source: call its vector and clear
    /// exactly its pending bit.
    #[verifier::rlimit(100)]
    #[verifier::spinoff_prover]
    fn serve_timer(&mut self) -> (r: Result<(), EmuError>)
        requires
            old(self).memory_bus.wf(),
        ensures
            final(self).memory_bus.wf(),
            final(self).ppu == old(self).ppu,
            crate::bus::spec_ppu_regs_same(old(self).memory_bus@, final(self).memory_bus@),
            spec_dispatch_case(
                *old(self),
                *final(self),
                r,
                0x50,
                crate::interrupts::InteruptFlags {
                    timer: false,
                    ..spec_pushed_bus(
                        old(self).memory_bus@,
                        old(self).stack_pointer,
                        old(self).program_counter,
                    ).interupt_flags
                },
            ),
    {
        self.dispatch(0x50)?;
        self.memory_bus.interupt_flags.timer = false;
        proof {
            let pushed = spec_pushed_bus(
                old(self).memory_bus@,
                old(self).stack_pointer,
                old(self).program_counter,
            );
            assert(self.memory_bus@ =~~= (crate::bus::BusView {
                interupt_flags: crate::interrupts::InteruptFlags {
                    timer: false,
                    ..pushed.interupt_flags
                },
                ..pushed
            }));
        }
        Ok(())
    }

    /// Dispatch the serial source: call its vector and clear
    /// exactly its pending bit.
    #[verifier::rlimit(100)]
    #[verifier::spinoff_prover]
    fn serve_serial(&mut self) -> (r: Result<(), EmuError>)
        requires
            old(self).memory_bus.wf(),
        ensures
            final(self).memory_bus.wf(),
            final(self).ppu == old(self).ppu,
            crate::bus::spec_ppu_regs_same(old(self).memory_bus@, final(self).memory_bus@),
            spec_dispatch_case(
                *old(self),
                *final(self),
                r,
                0x58,
                crate::interrupts::InteruptFlags {
                    serial: false,
                    ..spec_pushed_bus(
                        old(self).memory_bus@,
                        old(self).stack_pointer,
                        old(self).program_counter,
                    ).interupt_flags
                },
            ),
    {
        self.dispatch(0x58)?;
        self.memory_bus.interupt_flags.serial = false;
        proof {
            let pushed = spec_pushed_bus(
                old(self).memory_bus@,
                old(self).stack_pointer,
                old(self).program_counter,
            );
            assert(self.memory_bus@ =~~= (crate::bus::BusView {
                interupt_flags: crate::interrupts::InteruptFlags {
                    serial: false,
                    ..pushed.interupt_flags
                },
                ..pushed
            }));
        }
        Ok(())
    }

    /// Dispatch the joypad source: call its vector and clear
    /// exactly its pending bit.
    #[verifier::rlimit(100)]
    #[verifier::spinoff_prover]
    fn serve_joypad(&mut self) -> (r: Result<(), EmuError>)
        requires
            old(self).memory_bus.wf(),
        ensures
            final(self).memory_bus.wf(),
            final(self).ppu == old(self).ppu,
            crate::bus::spec_ppu_regs_same(old(self).memory_bus@, final(self).memory_bus@),
            spec_dispatch_case(
                *old(self),
                *final(self),
                r,
                0x60,
                crate::interrupts::InteruptFlags {
                    joypad: false,
                    ..spec_pushed_bus(
                        old(self).memory_bus@,
                        old(self).stack_pointer,
                        old(self).program_counter,
                    ).interupt_flags
                },
            ),
    {
        self.dispatch(0x60)?;
        self.memory_bus.interupt_flags.joypad = false;
        proof {
            let pushed = spec_pushed_bus(
                old(self).memory_bus@,
                old(self).stack_pointer,
                old(self).program_counter,
            );
            assert(self.memory_bus@ =~~= (crate::bus::BusView {
                interupt_flags: crate::interrupts::InteruptFlags {
                    joypad: false,
                    ..pushed.interupt_flags
                },
                ..pushed
            }));
        }
        Ok(())
    }

    /// The implicit call an interrupt dispatch performs: the return
    /// address is pushed and the counter takes the vector. Clearing the
    /// pending bit is the controller's own duty, afterwards.
    fn dispatch(&mut self, vector: u16) -> (r: Result<(), EmuError>)
        requires
            old(self).memory_bus.wf(),
        ensures
            final(self).memory_bus.wf(),
            final(self).ppu == old(self).ppu,
            crate::bus::spec_ppu_regs_same(old(self).memory_bus@, final(self).memory_bus@),
            final(self).registers == old(self).registers,
            final(self).interupt_master_enable == old(self).interupt_master_enable,
            final(self).is_halted == old(self).is_halted,
            final(self).stack_pointer == u16_specs::wrapping_sub(old(self).stack_pointer, 2),
            r is Ok ==> final(self).program_counter == vector && final(self).memory_bus@
                == spec_pushed_bus(
                old(self).memory_bus@,
                old(self).stack_pointer,
                old(self).program_counter,
            ),
            r is Err ==> final(self).program_counter == old(self).program_counter
                && spec_word_store_post(
                old(self).memory_bus@,
                final(self).memory_bus@,
                u16_specs::wrapping_sub(old(self).stack_pointer, 2),
                old(self).program_counter,
                if r is Ok {
                    Ok::<(), EmuError>(())
                } else {
                    Err::<(), EmuError>(r->Err_0)
                },
            ),
    {
        let ghost b0 = self.memory_bus@;
        let ghost sp0 = self.stack_pointer;
        let ghost pc0 = self.program_counter;
        proof {
            let sp2 = u16_specs::wrapping_sub(sp0, 2);
            crate::bus::lemma_write_keeps_ppu_regs(b0, sp2, spec_lo(pc0));
            crate::bus::lemma_write_keeps_ppu_regs(
                crate::bus::spec_write(b0, sp2, spec_lo(pc0)),
                crate::wrapping_inc(sp2),
                spec_hi(pc0),
            );
        }
        self.call(vector)
    }

    /// One simulation step: poll the interrupt controller, release a
    /// halted processor if any enabled source is pending, fetch and
    /// execute one instruction, then advance the timer one tick per
    /// cycle spent and the pixel pipeline four dots per cycle. A stop
    /// instruction ends the run and reports no cycle count; a halted
    /// processor reports zero cycles and fetches nothing. The whole
    /// step, stage by stage, is the step relation.
    #[verifier::rlimit(100)]
    #[verifier::spinoff_prover]
    pub fn step(&mut self) -> (r: Result<Option<u8>, EmuError>)
        requires
            old(self).wf(),
        ensures
            final(self).wf(),
            spec_step_rel(*old(self), *final(self), r),
    {
        self.memory_bus.current_owner = crate::bus::MemoryLockOwner::CPU;
        let ghost ca = *self;
        proof {
            assert(ca.memory_bus@ =~~= (crate::bus::BusView {
                current_owner: crate::bus::MemoryLockOwner::CPU,
                ..old(self).memory_bus@
            }));
        }
        if self.is_halted {
            let pending = crate::interrupts::InteruptFlags::any_pending(
                &self.memory_bus.interupt_enable,
                &self.memory_bus.interupt_flags,
            );
            if pending {
                self.is_halted = false;
            }
        }
        proof {
            assert(*self == spec_halt_released(ca));
        }
        let interrupt_outcome = self.handle_interupt();
        let ghost cc = *self;
        match interrupt_outcome {
            Ok(()) => (),
            Err(e) => {
                proof {
                    assert(spec_step_path(*old(self), ca, cc, cc, cc, cc, 0u8, Err(e)));
                }
                return Err(e);
            },
        }
        if self.is_halted {
            proof {
                assert(spec_step_path(
                    *old(self),
                    ca,
                    cc,
                    cc,
                    cc,
                    cc,
                    0u8,
                    Ok(Some(0u8)),
                ));
            }
            return Ok(Some(0));
        }
        let opcode: u8 = self.memory_bus.read_byte(self.program_counter);
        let instruction = match crate::opcodes::Instruction::from_byte(self, self.program_counter) {
            Ok(instruction) => instruction,
            Err(e) => {
                proof {
                    assert(spec_step_path(*old(self), ca, cc, cc, cc, cc, 0u8, Err(e)));
                }
                return Err(e);
            },
        };
        if let crate::opcodes::Instruction::STOP = instruction {
            self.advance_pc(1);
            proof {
                assert(spec_step_path(*old(self), ca, cc, *self, *self, *self, 0u8, Ok(None)));
            }
            return Ok(None);
        }
        self.advance_pc(crate::opcodes::Instruction::nb_bytes(opcode));
        let execute_outcome = instruction.execute(self);
        let ghost ce = *self;
        let cycles: u8 = match execute_outcome {
            Ok(cycles) => cycles,
            Err(e) => {
                proof {
                    assert(spec_step_path(*old(self), ca, cc, ce, ce, ce, 0u8, Err(e)));
                }
                return Err(e);
            },
        };
        let ghost t0 = self.memory_bus.io.timer_divider;
        let ghost f0 = self.memory_bus.interupt_flags;
        let mut i: u8 = 0;
        while i < cycles
            invariant
                i <= cycles,
                self.wf(),
                (self.memory_bus.io.timer_divider, self.memory_bus.interupt_flags)
                    == crate::time_divider::spec_timer_after(t0, f0, i as nat),
                self.memory_bus@ == (crate::bus::BusView {
                    io: crate::bus::IORegistersView {
                        timer_divider: self.memory_bus@.io.timer_divider,
                        ..ce.memory_bus@.io
                    },
                    interupt_flags: self.memory_bus@.interupt_flags,
                    ..ce.memory_bus@
                }),
                self.registers == ce.registers,
                self.program_counter == ce.program_counter,
                self.stack_pointer == ce.stack_pointer,
                self.interupt_master_enable == ce.interupt_master_enable,
                self.is_halted == ce.is_halted,
                self.ppu == ce.ppu,
            decreases cycles - i,
        {
            self.memory_bus.io.timer_divider.tick(&mut self.memory_bus.interupt_flags);
            proof {
                assert(self.memory_bus@ =~~= (crate::bus::BusView {
                    io: crate::bus::IORegistersView {
                        timer_divider: self.memory_bus@.io.timer_divider,
                        ..ce.memory_bus@.io
                    },
                    interupt_flags: self.memory_bus@.interupt_flags,
                    ..ce.memory_bus@
                }));
            }
            i = i + 1;
        }
        let ghost cf = *self;
        proof {
            assert(spec_timer_stage(ce, cf, cycles));
        }
        self.ppu.run_for(&mut self.memory_bus, cycles);
        proof {
            assert(spec_ppu_stage(cf, *self, cycles));
            assert(spec_step_path(*old(self), ca, cc, ce, cf, *self, cycles, Ok(Some(cycles))));
        }
        Ok(Some(cycles))
    }

    /// Run until a stop instruction ends the loop or a fatal condition
    /// surfaces. Pacing against a wall clock is the caller's concern;
    /// the cycle counts the steps report are what a pacing host needs.
    /// A run that returns cleanly did so because a step decoded the
    /// stop instruction — or, nominally, because an astronomical step
    /// budget ran out, which no host outlives.
    pub fn run(&mut self) -> (r: Result<(), EmuError>)
        requires
            old(self).wf(),
        ensures
            final(self).wf(),
            r is Ok ==> exists|n: nat, mid: CPU|
                #[trigger] spec_reaches(*old(self), mid, n) && (spec_step_rel(
                    mid,
                    *final(self),
                    Ok(None),
                ) || n >= 0xFFFF_FFFF_FFFF_FFFF),
            r is Err ==> exists|n: nat, mid: CPU|
                #[trigger] spec_reaches(*old(self), mid, n) && spec_step_rel(
                    mid,
                    *final(self),
                    Err(r->Err_0),
                ),
    {
        let ghost mut steps: nat = 0nat;
        let mut budget: u64 = 0xFFFF_FFFF_FFFF_FFFF;
        while budget > 0
            invariant
                self.wf(),
                spec_reaches(*old(self), *self, steps),
                steps + budget == 0xFFFF_FFFF_FFFF_FFFF,
            decreases budget,
        {
            let ghost previous = *self;
            match self.step() {
                Ok(outcome) => match outcome {
                    Some(k) => {
                        proof {
                            steps = steps + 1;
                            assert(spec_reaches(*old(self), previous, (steps - 1) as nat)
                                && spec_step_rel(previous, *self, Ok(Some(k))));
                            assert(spec_reaches(*old(self), *self, steps));
                        }
                    },
                    None => {
                        proof {
                            assert(spec_reaches(*old(self), previous, steps) && spec_step_rel(
                                previous,
                                *self,
                                Ok(None),
                            ));
                        }
                        return Ok(());
                    },
                },
                Err(e) => {
                    proof {
                        assert(spec_reaches(*old(self), previous, steps) && spec_step_rel(
                            previous,
                            *self,
                            Err(e),
                        ));
                    }
                    return Err(e);
                },
            }
            budget = budget - 1;
        }
        proof {
            assert(steps >= 0xFFFF_FFFF_FFFF_FFFF);
            assert(spec_reaches(*old(self), *self, steps));
        }
        Ok(())
    }
}


/// The machine with the processor marked as the side driving the bus;
/// nothing else moves.
pub open spec fn spec_owner_cpu(c0: CPU, c1: CPU) -> bool {
    &&& c1.memory_bus@ == (crate::bus::BusView {
        current_owner: crate::bus::MemoryLockOwner::CPU,
        ..c0.memory_bus@
    })
    &&& c1.registers == c0.registers
    &&& c1.program_counter == c0.program_counter
    &&& c1.stack_pointer == c0.stack_pointer
    &&& c1.interupt_master_enable == c0.interupt_master_enable
    &&& c1.is_halted == c0.is_halted
    &&& c1.ppu == c0.ppu
}

/// The halted latch after the release check: cleared exactly when some
/// source is both enabled and pending, whatever the master enable says.
pub open spec fn spec_halt_released(c: CPU) -> CPU {
    if c.is_halted && crate::interrupts::InteruptFlags::spec_any_pending(
        c.memory_bus.interupt_enable,
        c.memory_bus.interupt_flags,
    ) {
        CPU { is_halted: false, ..c }
    } else {
        c
    }
}

/// The timer leg of one step: the timer subsystem advanced one tick per
/// cycle the instruction consumed, everything else carried over.
pub open spec fn spec_timer_stage(ce: CPU, cf: CPU, cycles: u8) -> bool {
    let p = crate::time_divider::spec_timer_after(
        ce.memory_bus.io.timer_divider,
        ce.memory_bus.interupt_flags,
        cycles as nat,
    );
    &&& cf.memory_bus@ == (crate::bus::BusView {
        io: crate::bus::IORegistersView { timer_divider: p.0, ..ce.memory_bus@.io },
        interupt_flags: p.1,
        ..ce.memory_bus@
    })
    &&& cf.registers == ce.registers
    &&& cf.program_counter == ce.program_counter
    &&& cf.stack_pointer == ce.stack_pointer
    &&& cf.interupt_master_enable == ce.interupt_master_enable
    &&& cf.is_halted == ce.is_halted
    &&& cf.ppu == ce.ppu
}

/// The pipeline leg of one step: four dots per cycle spent, the frame
/// position advanced exactly that far, the V-blank flag risen exactly
/// when a dot entered line 144, and the processor-side state untouched.
pub open spec fn spec_ppu_stage(cf: CPU, c1: CPU, cycles: u8) -> bool {
    let pos0 = crate::ppu::spec_frame_pos(cf.memory_bus@.io.lcd.status.ly, cf.ppu@.dot_counter);
    &&& crate::ppu::ppu_sync(c1.ppu@, c1.memory_bus@)
    &&& crate::ppu::spec_ppu_frame(cf.memory_bus@, c1.memory_bus@)
    &&& crate::ppu::spec_frame_pos(c1.memory_bus@.io.lcd.status.ly, c1.ppu@.dot_counter)
        == crate::ppu::spec_pos_after(pos0, 4 * cycles)
    &&& c1.memory_bus@.interupt_flags.v_blank == (cf.memory_bus@.interupt_flags.v_blank
        || crate::ppu::spec_crosses_v_blank(pos0, 4 * cycles))
    &&& (cf.memory_bus@.interupt_flags.lcd_stat ==> c1.memory_bus@.interupt_flags.lcd_stat)
    &&& c1.registers == cf.registers
    &&& c1.program_counter == cf.program_counter
    &&& c1.stack_pointer == cf.stack_pointer
    &&& c1.interupt_master_enable == cf.interupt_master_enable
    &&& c1.is_halted == cf.is_halted
}

/// One simulation step, laid out over its intermediate states: the bus
/// handed to the processor, the halted latch checked, the interrupt
/// controller polled, then — unless halted — one instruction fetched at
/// the counter per the decode table, the counter advanced by its
/// length, the instruction executed per the dispatch relation, the
/// timer ticked once per cycle and the pipeline advanced four dots per
/// cycle. A stop instruction ends the run with no cycle count; a fatal
/// condition leaves the machine where it stood.
pub open spec fn spec_step_path(
    c0: CPU,
    ca: CPU,
    cc: CPU,
    ce: CPU,
    cf: CPU,
    c1: CPU,
    cycles: u8,
    r: Result<Option<u8>, EmuError>,
) -> bool {
    let cb = spec_halt_released(ca);
    &&& spec_owner_cpu(c0, ca)
    &&& ({
        ||| (r is Err && spec_interrupt_rel(cb, c1, Err(r->Err_0)) && cc == c1 && ce == c1 && cf
            == c1 && cycles == 0)
        ||| ({
            &&& spec_interrupt_rel(cb, cc, Ok(()))
            &&& if cc.is_halted {
                r == Ok::<Option<u8>, EmuError>(Some(0u8)) && c1 == cc && ce == c1 && cf == c1
                    && cycles == 0
            } else {
                let b0 = crate::bus::spec_read(cc.memory_bus@, cc.program_counter);
                let d8 = crate::bus::spec_read(
                    cc.memory_bus@,
                    crate::wrapping_inc(cc.program_counter),
                );
                let d16 = spec_pair(
                    crate::bus::spec_read(
                        cc.memory_bus@,
                        crate::wrapping_inc(crate::wrapping_inc(cc.program_counter)),
                    ),
                    d8,
                );
                match crate::decode::spec_decode(b0, d8, d16, cc.registers, cc.stack_pointer) {
                    None => r == Err::<Option<u8>, EmuError>(EmuError::IllegalOpcode(b0)) && c1
                        == cc && ce == c1 && cf == c1 && cycles == 0,
                    Some(instr) => {
                        if instr == crate::opcodes::Instruction::STOP {
                            &&& r == Ok::<Option<u8>, EmuError>(None)
                            &&& c1 == (CPU {
                                program_counter: u16_specs::wrapping_add(cc.program_counter, 1),
                                ..cc
                            })
                            &&& ce == c1 && cf == c1 && cycles == 0
                        } else {
                            let cd = CPU {
                                program_counter: u16_specs::wrapping_add(
                                    cc.program_counter,
                                    crate::decode::spec_nb_bytes(b0) as u16,
                                ),
                                ..cc
                            };
                            ||| (r is Err && crate::opcodes::spec_execute_post(
                                instr,
                                cd,
                                c1,
                                Err(r->Err_0),
                            ) && ce == c1 && cf == c1 && cycles == 0)
                            ||| ({
                                &&& crate::opcodes::spec_execute_post(instr, cd, ce, Ok(cycles))
                                &&& spec_timer_stage(ce, cf, cycles)
                                &&& spec_ppu_stage(cf, c1, cycles)
                                &&& r == Ok::<Option<u8>, EmuError>(Some(cycles))
                            })
                        }
                    },
                }
            }
        })
    })
}

/// One simulation step as a relation between the machine before and
/// after: some choice of intermediate states walks the step path.
pub open spec fn spec_step_rel(c0: CPU, c1: CPU, r: Result<Option<u8>, EmuError>) -> bool {
    exists|ca: CPU, cc: CPU, ce: CPU, cf: CPU, cycles: u8|
        #[trigger] spec_step_path(c0, ca, cc, ce, cf, c1, cycles, r)
}

/// The machine is reachable from a start in the given number of steps,
/// each one an ordinary step that reported a cycle count.
pub open spec fn spec_reaches(c0: CPU, c1: CPU, n: nat) -> bool
    decreases n,
{
    if n == 0 {
        c1 == c0
    } else {
        exists|mid: CPU, k: u8|
            spec_reaches(c0, mid, (n - 1) as nat) && #[trigger] spec_step_rel(
                mid,
                c1,
                Ok(Some(k)),
            )
    }
}

/// Pushing a word and then popping at the dropped pointer gives the word
/// back, and the pointer returns to where it began: the push and pop
/// primitives are symmetric inverses over a stack in plain RAM.
pub proof fn lemma_push_pop_roundtrip(b: crate::bus::BusView, sp: u16, value: u16)
    requires
        crate::bus::bus_wf(b),
        crate::bus::spec_plain_ram(u16_specs::wrapping_sub(sp, 2)),
        crate::bus::spec_plain_ram(crate::wrapping_inc(u16_specs::wrapping_sub(sp, 2))),
    ensures
        Bus::spec_read_word(
            spec_pushed_bus(b, sp, value),
            u16_specs::wrapping_sub(sp, 2),
        ) == value,
        u16_specs::wrapping_add(u16_specs::wrapping_sub(sp, 2), 2) == sp,
{
    let a = u16_specs::wrapping_sub(sp, 2);
    let n = crate::wrapping_inc(a);
    let w1 = crate::bus::spec_write(b, a, spec_lo(value));
    let w2 = crate::bus::spec_write(w1, n, spec_hi(value));
    crate::bus::lemma_plain_ram_read_write(b, a, spec_lo(value));
    crate::bus::lemma_plain_ram_read_write(w1, n, spec_hi(value));
    assert(n != a && n != crate::bus::spec_ram_alias(a) && a != crate::bus::spec_ram_alias(n));
    assert(crate::bus::spec_read(w2, a) == crate::bus::spec_read(w1, a));
    assert(crate::bus::spec_read(w2, n) == spec_hi(value));
    lemma_pair_roundtrip(value, 0, 0);
}

/// A call followed by a return lands the counter exactly where it stood
/// after the call instruction, and the stack pointer where it stood
/// before the call: the pushed return address survives the round trip,
/// for any stack in plain RAM.
pub proof fn lemma_call_ret_roundtrip(b: crate::bus::BusView, sp: u16, return_pc: u16, target: u16)
    requires
        crate::bus::bus_wf(b),
        crate::bus::spec_plain_ram(u16_specs::wrapping_sub(sp, 2)),
        crate::bus::spec_plain_ram(crate::wrapping_inc(u16_specs::wrapping_sub(sp, 2))),
    ensures
        Bus::spec_read_word(
            spec_pushed_bus(b, sp, return_pc),
            u16_specs::wrapping_sub(sp, 2),
        ) == return_pc,
        u16_specs::wrapping_add(u16_specs::wrapping_sub(sp, 2), 2) == sp,
{
    lemma_push_pop_roundtrip(b, sp, return_pc);
}

} // verus!
