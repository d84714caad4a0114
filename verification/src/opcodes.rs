//! The instruction engine's vocabulary: operand kinds, the decoded
//! instruction type, and the execute handlers with their flag semantics.
use vstd::prelude::*;

use crate::bus::spec_read;
use crate::bus::spec_write;
use crate::bus::spec_is_rom;
use crate::cpu::spec_hi;
use crate::cpu::spec_lo;
use crate::cpu::spec_pair;
use crate::cpu::FlagsRegister;
use crate::cpu::Register;
use crate::cpu::CPU;
use crate::EmuError;

verus! {

/// One of the eight byte registers, as an instruction names it.
#[derive(Debug, Clone, Copy, PartialEq, Eq, Structural)]
pub enum RegisterName {
    A,
    B,
    C,
    D,
    E,
    F,
    H,
    L,
}

impl RegisterName {
    /// The byte the named register holds; F shows its packed flag byte.
    pub open spec fn spec_get(self, regs: Register) -> u8 {
        match self {
            RegisterName::A => regs.a,
            RegisterName::B => regs.b,
            RegisterName::C => regs.c,
            RegisterName::D => regs.d,
            RegisterName::E => regs.e,
            RegisterName::F => regs.f.spec_to_byte(),
            RegisterName::H => regs.h,
            RegisterName::L => regs.l,
        }
    }

    /// The register file after the named register takes a byte; a store
    /// into F keeps only the four flag bits.
    pub open spec fn spec_set(self, regs: Register, value: u8) -> Register {
        match self {
            RegisterName::A => Register { a: value, ..regs },
            RegisterName::B => Register { b: value, ..regs },
            RegisterName::C => Register { c: value, ..regs },
            RegisterName::D => Register { d: value, ..regs },
            RegisterName::E => Register { e: value, ..regs },
            RegisterName::F => Register { f: FlagsRegister::spec_from_byte(value), ..regs },
            RegisterName::H => Register { h: value, ..regs },
            RegisterName::L => Register { l: value, ..regs },
        }
    }

    pub fn get(&self, cpu: &CPU) -> (r: u8)
        ensures
            r == self.spec_get(cpu.registers),
    {
        match self {
            RegisterName::A => cpu.registers.a,
            RegisterName::B => cpu.registers.b,
            RegisterName::C => cpu.registers.c,
            RegisterName::D => cpu.registers.d,
            RegisterName::E => cpu.registers.e,
            RegisterName::F => cpu.registers.f.to_byte(),
            RegisterName::H => cpu.registers.h,
            RegisterName::L => cpu.registers.l,
        }
    }

    pub fn set(&self, cpu: &mut CPU, value: u8)
        ensures
            final(cpu).registers == self.spec_set(old(cpu).registers, value),
            spec_same_but_regs(*old(cpu), *final(cpu)),
    {
        match self {
            RegisterName::A => cpu.registers.a = value,
            RegisterName::B => cpu.registers.b = value,
            RegisterName::C => cpu.registers.c = value,
            RegisterName::D => cpu.registers.d = value,
            RegisterName::E => cpu.registers.e = value,
            RegisterName::F => cpu.registers.f = FlagsRegister::from_byte(value),
            RegisterName::H => cpu.registers.h = value,
            RegisterName::L => cpu.registers.l = value,
        }
    }
}

/// One of the word-sized register pairs, the stack pointer included.
#[derive(Debug, Clone, Copy, PartialEq, Eq, Structural)]
pub enum RegisterPair {
    AF,
    BC,
    DE,
    HL,
    SP,
}

impl RegisterPair {
    /// The word the pair holds.
    pub open spec fn spec_get(self, regs: Register, sp: u16) -> u16 {
        match self {
            RegisterPair::AF => spec_pair(regs.a, regs.f.spec_to_byte()),
            RegisterPair::BC => spec_pair(regs.b, regs.c),
            RegisterPair::DE => spec_pair(regs.d, regs.e),
            RegisterPair::HL => spec_pair(regs.h, regs.l),
            RegisterPair::SP => sp,
        }
    }

    /// The register file after the pair takes a word; the stack pointer
    /// variant leaves the file alone.
    pub open spec fn spec_set_regs(self, regs: Register, value: u16) -> Register {
        match self {
            RegisterPair::AF => Register {
                a: spec_hi(value),
                f: FlagsRegister::spec_from_byte(spec_lo(value)),
                ..regs
            },
            RegisterPair::BC => Register { b: spec_hi(value), c: spec_lo(value), ..regs },
            RegisterPair::DE => Register { d: spec_hi(value), e: spec_lo(value), ..regs },
            RegisterPair::HL => Register { h: spec_hi(value), l: spec_lo(value), ..regs },
            RegisterPair::SP => regs,
        }
    }

    /// The stack pointer after the pair takes a word; only its own
    /// variant changes it.
    pub open spec fn spec_set_sp(self, sp: u16, value: u16) -> u16 {
        match self {
            RegisterPair::SP => value,
            _ => sp,
        }
    }

    pub fn get(&self, cpu: &CPU) -> (r: u16)
        ensures
            r == self.spec_get(cpu.registers, cpu.stack_pointer),
    {
        match self {
            RegisterPair::AF => cpu.registers.get_af(),
            RegisterPair::BC => cpu.registers.get_bc(),
            RegisterPair::DE => cpu.registers.get_de(),
            RegisterPair::HL => cpu.registers.get_hl(),
            RegisterPair::SP => cpu.stack_pointer,
        }
    }

    pub fn set(&self, cpu: &mut CPU, value: u16)
        ensures
            final(cpu).registers == self.spec_set_regs(old(cpu).registers, value),
            final(cpu).stack_pointer == self.spec_set_sp(old(cpu).stack_pointer, value),
            final(cpu).program_counter == old(cpu).program_counter,
            final(cpu).interupt_master_enable == old(cpu).interupt_master_enable,
            final(cpu).is_halted == old(cpu).is_halted,
            final(cpu).memory_bus == old(cpu).memory_bus,
            final(cpu).ppu == old(cpu).ppu,
    {
        match self {
            RegisterPair::AF => cpu.registers.set_af(value),
            RegisterPair::BC => cpu.registers.set_bc(value),
            RegisterPair::DE => cpu.registers.set_de(value),
            RegisterPair::HL => cpu.registers.set_hl(value),
            RegisterPair::SP => cpu.stack_pointer = value,
        }
    }
}

/// A value in flight between an operand and a handler, tagged by width.
#[derive(Debug, Clone, Copy, PartialEq, Eq, Structural)]
pub enum TargetSize {
    Bit(bool),
    Byte(u8),
    SignedByte(i8),
    Word(u16),
}

/// A condition an instruction may be gated on, or a single flag named as
/// an operand.
#[derive(Debug, Clone, Copy, PartialEq, Eq, Structural)]
pub enum FlagOperand {
    Zero,
    Subtract,
    HalfCarry,
    Carry,
    NZ,
    NC,
}

impl FlagOperand {
    /// Whether the condition holds of the given flags.
    pub open spec fn spec_get(self, f: FlagsRegister) -> bool {
        match self {
            FlagOperand::Zero => f.zero,
            FlagOperand::Subtract => f.subtract,
            FlagOperand::HalfCarry => f.half_carry,
            FlagOperand::Carry => f.carry,
            FlagOperand::NZ => !f.zero,
            FlagOperand::NC => !f.carry,
        }
    }

    pub fn get(&self, cpu: &CPU) -> (r: bool)
        ensures
            r == self.spec_get(cpu.registers.f),
    {
        match self {
            FlagOperand::Zero => cpu.registers.f.zero,
            FlagOperand::Subtract => cpu.registers.f.subtract,
            FlagOperand::HalfCarry => cpu.registers.f.half_carry,
            FlagOperand::Carry => cpu.registers.f.carry,
            FlagOperand::NZ => !cpu.registers.f.zero,
            FlagOperand::NC => !cpu.registers.f.carry,
        }
    }
}

/// An instruction operand: a register or pair, an immediate of one of the
/// encodable kinds, or a memory cell whose address the decoder computed.
#[derive(Debug, Clone, Copy, PartialEq, Eq, Structural)]
pub enum OperandTypes {
    Flags(FlagOperand),
    Register(RegisterName),
    RegisterPair(RegisterPair),
    D8(u8),
    D16(u16),
    A8(u8),
    A16(u16),
    R8(i8),
    Memory(u16),
}

/// Everything of the machine except the register file is unchanged.
pub open spec fn spec_same_but_regs(c0: CPU, c1: CPU) -> bool {
    &&& c1.program_counter == c0.program_counter
    &&& c1.stack_pointer == c0.stack_pointer
    &&& c1.interupt_master_enable == c0.interupt_master_enable
    &&& c1.is_halted == c0.is_halted
    &&& c1.memory_bus == c0.memory_bus
    &&& c1.ppu == c0.ppu
}

/// Everything of the machine except the bus contents is unchanged.
pub open spec fn spec_same_but_bus(c0: CPU, c1: CPU) -> bool {
    &&& c1.registers == c0.registers
    &&& c1.program_counter == c0.program_counter
    &&& c1.stack_pointer == c0.stack_pointer
    &&& c1.interupt_master_enable == c0.interupt_master_enable
    &&& c1.is_halted == c0.is_halted
    &&& c1.ppu == c0.ppu
}

/// The whole machine is unchanged, the bus compared by its contents.
pub open spec fn spec_same_cpu(c0: CPU, c1: CPU) -> bool {
    &&& c1.registers == c0.registers
    &&& c1.program_counter == c0.program_counter
    &&& c1.stack_pointer == c0.stack_pointer
    &&& c1.interupt_master_enable == c0.interupt_master_enable
    &&& c1.is_halted == c0.is_halted
    &&& c1.memory_bus@ == c0.memory_bus@
    &&& c1.ppu == c0.ppu
}

impl OperandTypes {
    /// What reading the operand yields, and at what width; a flag operand
    /// cannot be read as a value.
    pub open spec fn spec_get(self, cpu: CPU) -> Option<TargetSize> {
        match self {
            OperandTypes::Flags(_) => None,
            OperandTypes::Register(reg) => Some(TargetSize::Byte(reg.spec_get(cpu.registers))),
            OperandTypes::RegisterPair(pair) => Some(
                TargetSize::Word(pair.spec_get(cpu.registers, cpu.stack_pointer)),
            ),
            OperandTypes::D8(value) => Some(TargetSize::Byte(value)),
            OperandTypes::D16(value) => Some(TargetSize::Word(value)),
            OperandTypes::A8(value) => Some(TargetSize::Word(0xFF00u16 | value as u16)),
            OperandTypes::A16(value) => Some(TargetSize::Word(value)),
            OperandTypes::R8(value) => Some(TargetSize::SignedByte(value)),
            OperandTypes::Memory(address) => Some(
                TargetSize::Byte(spec_read(cpu.memory_bus@, address)),
            ),
        }
    }

    /// What reading the operand as one byte yields.
    pub open spec fn spec_get_byte(self, cpu: CPU) -> Option<u8> {
        match self.spec_get(cpu) {
            Some(TargetSize::Byte(b)) => Some(b),
            _ => None,
        }
    }

    /// What reading the operand as one word yields.
    pub open spec fn spec_get_word(self, cpu: CPU) -> Option<u16> {
        match self.spec_get(cpu) {
            Some(TargetSize::Word(w)) => Some(w),
            _ => None,
        }
    }

    pub fn get(&self, cpu: &CPU) -> (r: Result<TargetSize, EmuError>)
        requires
            cpu.memory_bus.wf(),
        ensures
            r == match self.spec_get(*cpu) {
                Some(v) => Ok::<TargetSize, EmuError>(v),
                None => Err::<TargetSize, EmuError>(EmuError::InvalidOperand),
            },
    {
        match self {
            OperandTypes::Flags(_) => Err(EmuError::InvalidOperand),
            OperandTypes::Register(reg) => Ok(TargetSize::Byte(reg.get(cpu))),
            OperandTypes::RegisterPair(pair) => Ok(TargetSize::Word(pair.get(cpu))),
            OperandTypes::D8(value) => Ok(TargetSize::Byte(*value)),
            OperandTypes::D16(value) => Ok(TargetSize::Word(*value)),
            OperandTypes::A8(value) => Ok(TargetSize::Word(0xFF00u16 | *value as u16)),
            OperandTypes::A16(value) => Ok(TargetSize::Word(*value)),
            OperandTypes::R8(value) => Ok(TargetSize::SignedByte(*value)),
            OperandTypes::Memory(address) => Ok(
                TargetSize::Byte(cpu.memory_bus.read_byte(*address)),
            ),
        }
    }

    /// Store a value into the operand. A register or pair takes its
    /// width's value; a memory operand takes a byte, or a word laid out
    /// low byte first. Immediates and flags take nothing, and a store
    /// aimed at ROM is the fatal read-only error.
    #[verifier::rlimit(100)]
    #[verifier::spinoff_prover]
    pub fn set(&self, cpu: &mut CPU, value: TargetSize) -> (r: Result<(), EmuError>)
        requires
            old(cpu).memory_bus.wf(),
        ensures
            final(cpu).memory_bus.wf(),
            final(cpu).ppu == old(cpu).ppu,
            crate::bus::spec_ppu_regs_same(old(cpu).memory_bus@, final(cpu).memory_bus@),
            spec_store_post(*old(cpu), *final(cpu), r, *self, value),
    {
        match self {
            OperandTypes::Register(reg) => {
                match value {
                    TargetSize::Byte(b) => {
                        reg.set(cpu, b);
                        Ok(())
                    },
                    _ => Err(EmuError::InvalidOperand),
                }
            },
            OperandTypes::RegisterPair(pair) => {
                match value {
                    TargetSize::Word(w) => {
                        pair.set(cpu, w);
                        Ok(())
                    },
                    _ => Err(EmuError::InvalidOperand),
                }
            },
            OperandTypes::Memory(address) => {
                match value {
                    TargetSize::Byte(b) => {
                        let res = cpu.memory_bus.write_byte(*address, b);
                        proof {
                            crate::bus::lemma_write_keeps_ppu_regs(old(cpu).memory_bus@, *address, b);
                        }
                        res
                    },
                    TargetSize::SignedByte(s) => {
                        let res = cpu.memory_bus.write_byte(*address, s as u8);
                        proof {
                            crate::bus::lemma_write_keeps_ppu_regs(
                                old(cpu).memory_bus@,
                                *address,
                                s as u8,
                            );
                        }
                        res
                    },
                    TargetSize::Word(w) => {
                        let res = cpu.memory_bus.write_word(*address, w);
                        proof {
                            crate::bus::lemma_write_keeps_ppu_regs(
                                old(cpu).memory_bus@,
                                *address,
                                spec_lo(w),
                            );
                            crate::bus::lemma_write_keeps_ppu_regs(
                                spec_write(old(cpu).memory_bus@, *address, spec_lo(w)),
                                crate::wrapping_inc(*address),
                                spec_hi(w),
                            );
                        }
                        res
                    },
                    TargetSize::Bit(_) => Err(EmuError::InvalidOperand),
                }
            },
            _ => Err(EmuError::InvalidOperand),
        }
    }
}

/// How a store into any operand ends: a register or pair takes its
/// width's value, a memory operand takes bytes with the fatal read-only
/// case, and everything else reports the invalid operand, untouched.
pub open spec fn spec_store_post(
    c0: CPU,
    c1: CPU,
    r: Result<(), EmuError>,
    target: OperandTypes,
    value: TargetSize,
) -> bool {
    match (target, value) {
        (OperandTypes::Register(reg), TargetSize::Byte(b)) => r == Ok::<(), EmuError>(())
            && c1.registers == reg.spec_set(c0.registers, b) && spec_same_but_regs(c0, c1),
        (OperandTypes::RegisterPair(pair), TargetSize::Word(w)) => {
            &&& r == Ok::<(), EmuError>(())
            &&& c1.registers == pair.spec_set_regs(c0.registers, w)
            &&& c1.stack_pointer == pair.spec_set_sp(c0.stack_pointer, w)
            &&& c1.program_counter == c0.program_counter
            &&& c1.interupt_master_enable == c0.interupt_master_enable
            &&& c1.is_halted == c0.is_halted
            &&& c1.memory_bus == c0.memory_bus
            &&& c1.ppu == c0.ppu
        },
        (OperandTypes::Memory(address), TargetSize::Byte(b)) => spec_set_mem_byte_post(
            c0,
            c1,
            r,
            address,
            b,
        ),
        (OperandTypes::Memory(address), TargetSize::SignedByte(s)) => spec_set_mem_byte_post(
            c0,
            c1,
            r,
            address,
            s as u8,
        ),
        (OperandTypes::Memory(address), TargetSize::Word(w)) => spec_set_mem_word_post(
            c0,
            c1,
            r,
            address,
            w,
        ),
        _ => r == Err::<(), EmuError>(EmuError::InvalidOperand) && spec_same_cpu(c0, c1),
    }
}

/// How a byte store through a memory operand ends: fatal on ROM, and
/// otherwise landed on the bus, with the rest of the machine untouched.
pub open spec fn spec_set_mem_byte_post(
    c0: CPU,
    c1: CPU,
    r: Result<(), EmuError>,
    address: u16,
    value: u8,
) -> bool {
    &&& spec_same_but_bus(c0, c1)
    &&& (spec_is_rom(address) ==> r == Err::<(), EmuError>(EmuError::ReadOnlyWrite(address))
        && c1.memory_bus@ == c0.memory_bus@)
    &&& (!spec_is_rom(address) ==> r == Ok::<(), EmuError>(()) && c1.memory_bus@ == spec_write(
        c0.memory_bus@,
        address,
        value,
    ))
}

/// How a word store through a memory operand ends: the low byte lands
/// first, either half aimed at ROM is fatal.
pub open spec fn spec_set_mem_word_post(
    c0: CPU,
    c1: CPU,
    r: Result<(), EmuError>,
    address: u16,
    value: u16,
) -> bool {
    let next = crate::wrapping_inc(address);
    &&& spec_same_but_bus(c0, c1)
    &&& (spec_is_rom(address) ==> r == Err::<(), EmuError>(EmuError::ReadOnlyWrite(address))
        && c1.memory_bus@ == c0.memory_bus@)
    &&& (!spec_is_rom(address) && spec_is_rom(next) ==> r == Err::<(), EmuError>(
        EmuError::ReadOnlyWrite(next),
    ) && c1.memory_bus@ == spec_write(c0.memory_bus@, address, spec_lo(value)))
    &&& (!spec_is_rom(address) && !spec_is_rom(next) ==> r == Ok::<(), EmuError>(())
        && c1.memory_bus@ == spec_write(
        spec_write(c0.memory_bus@, address, spec_lo(value)),
        next,
        spec_hi(value),
    ))
}


/// A decoded instruction: one variant per opcode family, carrying its
/// typed operands. The auto-increment and auto-decrement loads and the
/// stack-relative load carry their own variants, since they move a pair
/// as a side effect of the transfer.
#[derive(Debug, Clone, Copy, PartialEq, Eq, Structural)]
pub enum Instruction {
    ADD(OperandTypes, OperandTypes),
    ADDSP(OperandTypes),
    ADC(OperandTypes, OperandTypes),
    AND(OperandTypes),
    BIT(u8, OperandTypes),
    CALL(Option<FlagOperand>, OperandTypes),
    CCF,
    CP(OperandTypes),
    CPL,
    DAA,
    DEC(OperandTypes),
    DI,
    EI,
    HALT,
    INC(OperandTypes),
    JR(Option<FlagOperand>, i8),
    JP(Option<FlagOperand>, OperandTypes),
    LD(OperandTypes, OperandTypes),
    LDI(OperandTypes, OperandTypes),
    LDD(OperandTypes, OperandTypes),
    LDHLSP(i8),
    NOP,
    OR(OperandTypes),
    POP(RegisterPair),
    PUSH(RegisterPair),
    RES(u8, OperandTypes),
    RET(Option<FlagOperand>),
    RETI,
    RL(OperandTypes),
    RLA,
    RLC(OperandTypes),
    RLCA,
    RR(OperandTypes),
    RRA,
    RRC(OperandTypes),
    RRCA,
    RST(OperandTypes),
    SBC(OperandTypes),
    SCF,
    SET(u8, OperandTypes),
    SLA(OperandTypes),
    SRA(OperandTypes),
    SRL(OperandTypes),
    STOP,
    SUB(OperandTypes),
    SWAP(OperandTypes),
    XOR(OperandTypes),
    PREFIX,
}

/// The clock cycles one instruction consumed.
pub type Cycles = u8;

/// How many bytes an instruction occupies.
pub type InstrLength = u8;

// --- the arithmetic core, stated over plain bytes and words ---

/// The sum of two bytes, wrapped to a byte.
pub open spec fn spec_add8(a: u8, b: u8) -> u8 {
    ((a + b) % 256) as u8
}

/// The flags a byte addition leaves: zero of the wrapped sum, no
/// subtract, half-carry out of bit 3, carry out of bit 7.
pub open spec fn spec_add_flags(a: u8, b: u8) -> FlagsRegister {
    FlagsRegister {
        zero: spec_add8(a, b) == 0,
        subtract: false,
        half_carry: (a & 0xF) + (b & 0xF) > 0xF,
        carry: a + b > 255,
    }
}

/// The sum of two bytes and a carry-in, wrapped to a byte.
pub open spec fn spec_adc8(a: u8, b: u8, carry_in: bool) -> u8 {
    ((a + b + (if carry_in { 1int } else { 0int })) % 256) as u8
}

/// The flags an add-with-carry leaves; the carry-in joins both the
/// half-carry and the carry computation.
pub open spec fn spec_adc_flags(a: u8, b: u8, carry_in: bool) -> FlagsRegister {
    let cin = if carry_in { 1int } else { 0int };
    FlagsRegister {
        zero: spec_adc8(a, b, carry_in) == 0,
        subtract: false,
        half_carry: (a & 0xF) + (b & 0xF) + cin > 0xF,
        carry: a + b + cin > 255,
    }
}

/// The difference of two bytes, wrapped to a byte.
pub open spec fn spec_sub8(a: u8, b: u8) -> u8 {
    ((256 + a - b) % 256) as u8
}

/// The flags a byte subtraction (or compare) leaves: zero on equality,
/// subtract set, half-borrow from bit 4, borrow from bit 8.
pub open spec fn spec_sub_flags(a: u8, b: u8) -> FlagsRegister {
    FlagsRegister {
        zero: a == b,
        subtract: true,
        half_carry: (a & 0xF) < (b & 0xF),
        carry: a < b,
    }
}

/// The difference with a borrow-in, wrapped to a byte.
pub open spec fn spec_sbc8(a: u8, b: u8, carry_in: bool) -> u8 {
    ((512 + a - b - (if carry_in { 1int } else { 0int })) % 256) as u8
}

/// The flags a subtract-with-borrow leaves; the borrow-in joins both the
/// half-borrow and the borrow computation.
pub open spec fn spec_sbc_flags(a: u8, b: u8, carry_in: bool) -> FlagsRegister {
    let cin = if carry_in { 1int } else { 0int };
    FlagsRegister {
        zero: spec_sbc8(a, b, carry_in) == 0,
        subtract: true,
        half_carry: (a & 0xF) < (b & 0xF) + cin,
        carry: a < b + cin,
    }
}

/// The sum of two words, wrapped to a word.
pub open spec fn spec_add16(a: u16, b: u16) -> u16 {
    ((a + b) % 0x10000) as u16
}

/// The flags a word addition leaves: zero of the wrapped sum, no
/// subtract, half-carry out of bit 11, carry out of bit 15.
pub open spec fn spec_add16_flags(a: u16, b: u16) -> FlagsRegister {
    FlagsRegister {
        zero: spec_add16(a, b) == 0,
        subtract: false,
        half_carry: (a & 0xFFF) + (b & 0xFFF) > 0xFFF,
        carry: a + b > 0xFFFF,
    }
}

/// The flags a stack-relative offset computation leaves: both carries
/// come from the low byte of the pointer, and zero never rises.
pub open spec fn spec_spoff_flags(sp: u16, offset: i8) -> FlagsRegister {
    let ob = offset as u8;
    FlagsRegister {
        zero: false,
        subtract: false,
        half_carry: (sp & 0xF) + (ob & 0xF) > 0xF,
        carry: (sp & 0xFF) + ob > 0xFF,
    }
}

/// A byte rotated left one bit, the top bit wrapping to the bottom.
pub open spec fn spec_rlc8(v: u8) -> u8 {
    (v << 1) | (v >> 7)
}

/// A byte rotated right one bit, the bottom bit wrapping to the top.
pub open spec fn spec_rrc8(v: u8) -> u8 {
    (v >> 1) | (v << 7)
}

/// A byte rotated left through the carry: the old carry fills bit 0.
pub open spec fn spec_rl8(v: u8, carry_in: bool) -> u8 {
    (v << 1) | (if carry_in { 1u8 } else { 0u8 })
}

/// A byte rotated right through the carry: the old carry fills bit 7.
pub open spec fn spec_rr8(v: u8, carry_in: bool) -> u8 {
    (v >> 1) | (if carry_in { 0x80u8 } else { 0u8 })
}

/// A byte shifted left, bit 0 filled with zero.
pub open spec fn spec_sla8(v: u8) -> u8 {
    v << 1
}

/// A byte shifted right arithmetically, bit 7 kept.
pub open spec fn spec_sra8(v: u8) -> u8 {
    (v >> 1) | (v & 0x80)
}

/// A byte shifted right, bit 7 filled with zero.
pub open spec fn spec_srl8(v: u8) -> u8 {
    v >> 1
}

/// A byte with its nibbles exchanged.
pub open spec fn spec_swap8(v: u8) -> u8 {
    (v >> 4) | (v << 4)
}

/// Whether the top bit feeds the carry, for the leftward forms.
pub open spec fn spec_top_bit(v: u8) -> bool {
    v & 0x80 != 0
}

/// Whether the bottom bit feeds the carry, for the rightward forms.
pub open spec fn spec_low_bit(v: u8) -> bool {
    v & 1 != 0
}

/// The flags a prefixed rotate or shift leaves: zero from the result,
/// carry from the ejected bit, the other two cleared.
pub open spec fn spec_cb_flags(res: u8, carry: bool) -> FlagsRegister {
    FlagsRegister { zero: res == 0, subtract: false, half_carry: false, carry }
}

/// The flags an accumulator rotate leaves: zero always cleared, carry
/// from the ejected bit.
pub open spec fn spec_acc_rotate_flags(carry: bool) -> FlagsRegister {
    FlagsRegister { zero: false, subtract: false, half_carry: false, carry }
}

/// The decimal adjustment of the accumulator after an addition or a
/// subtraction, driven by the subtract, half-carry and carry flags: the
/// standard two-nibble correction.
pub open spec fn spec_daa_result(a: u8, n: bool, h: bool, c: bool) -> u8 {
    let adjust = (if h || (!n && a % 16 > 9) { 0x06int } else { 0int }) + (if c || (!n && a
        > 0x99) { 0x60int } else { 0int });
    if n {
        ((256 + a - adjust) % 256) as u8
    } else {
        ((a + adjust) % 256) as u8
    }
}

/// Whether the decimal adjustment leaves the carry set: it never clears
/// an incoming carry, and an additive adjustment of the high nibble sets
/// it.
pub open spec fn spec_daa_carry(a: u8, n: bool, c: bool) -> bool {
    c || (!n && a > 0x99)
}

/// The byte a prefixed operand denotes in the given machine state: a
/// register's content, or the byte at a computed address.
pub open spec fn spec_target_byte(c: CPU, target: OperandTypes) -> u8 {
    match target {
        OperandTypes::Register(t) => t.spec_get(c.registers),
        OperandTypes::Memory(a) => spec_read(c.memory_bus@, a),
        _ => 0u8,
    }
}

/// How a handler that failed on an operand it cannot accept ends: the
/// machine untouched and the invalid-operand error reported.
pub open spec fn spec_invalid<T>(c0: CPU, c1: CPU, r: Result<T, EmuError>) -> bool {
    r == Err::<T, EmuError>(EmuError::InvalidOperand) && spec_same_cpu(c0, c1)
}

/// How a prefixed rotate, shift or swap ends: the rewritten byte lands
/// back in its register or memory cell and the flags take the given set;
/// a memory form aimed at ROM is fatal.
pub open spec fn spec_cb_post(
    c0: CPU,
    c1: CPU,
    r: Result<u8, EmuError>,
    target: OperandTypes,
    res: u8,
    f: FlagsRegister,
) -> bool {
    match target {
        OperandTypes::Register(t) => {
            &&& r == Ok::<u8, EmuError>(8u8)
            &&& c1.registers == (Register { f, ..t.spec_set(c0.registers, res) })
            &&& spec_same_but_regs(c0, c1)
        },
        OperandTypes::Memory(a) => {
            &&& (spec_is_rom(a) ==> r == Err::<u8, EmuError>(EmuError::ReadOnlyWrite(a))
                && spec_same_cpu(c0, c1))
            &&& (!spec_is_rom(a) ==> {
                &&& r == Ok::<u8, EmuError>(8u8)
                &&& c1.memory_bus@ == spec_write(c0.memory_bus@, a, res)
                &&& c1.registers == (Register { f, ..c0.registers })
                &&& spec_same_but_alu(c0, c1)
            })
        },
        _ => spec_invalid(c0, c1, r),
    }
}

/// Everything of the machine except the register file and the bus
/// contents is unchanged: what a memory-form arithmetic step may touch.
pub open spec fn spec_same_but_alu(c0: CPU, c1: CPU) -> bool {
    &&& c1.program_counter == c0.program_counter
    &&& c1.stack_pointer == c0.stack_pointer
    &&& c1.interupt_master_enable == c0.interupt_master_enable
    &&& c1.is_halted == c0.is_halted
    &&& c1.ppu == c0.ppu
    &&& crate::bus::spec_ppu_regs_same(c0.memory_bus@, c1.memory_bus@)
    &&& crate::bus::bus_wf(c1.memory_bus@)
}

impl Instruction {
    /// Add into a byte register or into a word pair. The byte form sets
    /// all four flags from the sum; the word form does the same over
    /// bits 11 and 15. One machine cycle for the byte form, two for the
    /// word form.
    pub fn add(cpu: &mut CPU, target: OperandTypes, source: OperandTypes) -> (r: Result<
        u8,
        EmuError,
    >)
        requires
            old(cpu).memory_bus.wf(),
        ensures
            final(cpu).memory_bus.wf(),
            final(cpu).ppu == old(cpu).ppu,
            crate::bus::spec_ppu_regs_same(old(cpu).memory_bus@, final(cpu).memory_bus@),
            spec_add_post(*old(cpu), *final(cpu), r, target, source),
    {
        match target {
            OperandTypes::Register(t) => {
                let a: u8 = t.get(cpu);
                let sv = source.get(cpu)?;
                match sv {
                    TargetSize::Byte(b) => {
                        let sum: u16 = a as u16 + b as u16;
                        let res: u8 = (sum % 256) as u8;
                        let f = FlagsRegister {
                            zero: res == 0,
                            subtract: false,
                            half_carry: (a & 0xF) as u16 + (b & 0xF) as u16 > 0xF,
                            carry: sum > 255,
                        };
                        t.set(cpu, res);
                        cpu.registers.f = f;
                        Ok(4)
                    },
                    _ => Err(EmuError::InvalidOperand),
                }
            },
            OperandTypes::RegisterPair(tp) => {
                let a: u16 = tp.get(cpu);
                let sv = source.get(cpu)?;
                match sv {
                    TargetSize::Word(w) => {
                        let sum: u32 = a as u32 + w as u32;
                        let res: u16 = (sum % 0x10000) as u16;
                        let f = FlagsRegister {
                            zero: res == 0,
                            subtract: false,
                            half_carry: (a & 0xFFF) as u32 + (w & 0xFFF) as u32 > 0xFFF,
                            carry: sum > 0xFFFF,
                        };
                        tp.set(cpu, res);
                        cpu.registers.f = f;
                        Ok(8)
                    },
                    _ => Err(EmuError::InvalidOperand),
                }
            },
            _ => Err(EmuError::InvalidOperand),
        }
    }

    /// Add a signed offset to the stack pointer; the flags come from the
    /// pointer's low byte and zero never rises. Four machine cycles.
    pub fn add_sp(cpu: &mut CPU, offset: OperandTypes) -> (r: Result<u8, EmuError>)
        requires
            old(cpu).memory_bus.wf(),
        ensures
            final(cpu).memory_bus.wf(),
            final(cpu).ppu == old(cpu).ppu,
            crate::bus::spec_ppu_regs_same(old(cpu).memory_bus@, final(cpu).memory_bus@),
            spec_add_sp_post(*old(cpu), *final(cpu), r, offset),
    {
        match offset {
            OperandTypes::R8(e) => {
                let sp: u16 = cpu.stack_pointer;
                let eb: u8 = e as u8;
                let f = FlagsRegister {
                    zero: false,
                    subtract: false,
                    half_carry: (sp & 0xF) as u32 + (eb & 0xF) as u32 > 0xF,
                    carry: (sp & 0xFF) as u32 + eb as u32 > 0xFF,
                };
                cpu.stack_pointer = sp.wrapping_add_signed(e as i16);
                cpu.registers.f = f;
                Ok(16)
            },
            _ => Err(EmuError::InvalidOperand),
        }
    }

    /// Add with the incoming carry folded in, into a byte register.
    pub fn adc(cpu: &mut CPU, target: OperandTypes, source: OperandTypes) -> (r: Result<
        u8,
        EmuError,
    >)
        requires
            old(cpu).memory_bus.wf(),
        ensures
            final(cpu).memory_bus.wf(),
            final(cpu).ppu == old(cpu).ppu,
            crate::bus::spec_ppu_regs_same(old(cpu).memory_bus@, final(cpu).memory_bus@),
            spec_adc_post(*old(cpu), *final(cpu), r, target, source),
    {
        match target {
            OperandTypes::Register(t) => {
                let a: u8 = t.get(cpu);
                let sv = source.get(cpu)?;
                match sv {
                    TargetSize::Byte(b) => {
                        let cin: u16 = if cpu.registers.f.carry {
                            1
                        } else {
                            0
                        };
                        let sum: u16 = a as u16 + b as u16 + cin;
                        let res: u8 = (sum % 256) as u8;
                        let f = FlagsRegister {
                            zero: res == 0,
                            subtract: false,
                            half_carry: (a & 0xF) as u16 + (b & 0xF) as u16 + cin > 0xF,
                            carry: sum > 255,
                        };
                        t.set(cpu, res);
                        cpu.registers.f = f;
                        match source {
                            OperandTypes::D8(_) => Ok(8),
                            _ => Ok(4),
                        }
                    },
                    _ => Err(EmuError::InvalidOperand),
                }
            },
            _ => Err(EmuError::InvalidOperand),
        }
    }
}

/// How an accumulator-logic step ends: the accumulator takes the result,
/// the flags take the given set, and nothing else moves.
pub open spec fn spec_acc_post(c0: CPU, c1: CPU, res: u8, f: FlagsRegister) -> bool {
    c1.registers == (Register { a: res, f, ..c0.registers }) && spec_same_but_regs(c0, c1)
}

impl Instruction {
    /// Bitwise and into the accumulator: zero from the result, half-carry
    /// forced on, the others cleared.
    pub fn and(cpu: &mut CPU, source: OperandTypes) -> (r: Result<u8, EmuError>)
        requires
            old(cpu).memory_bus.wf(),
        ensures
            final(cpu).memory_bus.wf(),
            final(cpu).ppu == old(cpu).ppu,
            crate::bus::spec_ppu_regs_same(old(cpu).memory_bus@, final(cpu).memory_bus@),
            spec_and_post(*old(cpu), *final(cpu), r, source),
    {
        let sv = source.get(cpu)?;
        match sv {
            TargetSize::Byte(b) => {
                let res: u8 = cpu.registers.a & b;
                cpu.registers.a = res;
                cpu.registers.f = FlagsRegister {
                    zero: res == 0,
                    subtract: false,
                    half_carry: true,
                    carry: false,
                };
                match source {
                    OperandTypes::D8(_) => Ok(8),
                    _ => Ok(4),
                }
            },
            _ => Err(EmuError::InvalidOperand),
        }
    }

    /// Bitwise or into the accumulator: zero from the result, the other
    /// three flags cleared.
    pub fn or(cpu: &mut CPU, source: OperandTypes) -> (r: Result<u8, EmuError>)
        requires
            old(cpu).memory_bus.wf(),
        ensures
            final(cpu).memory_bus.wf(),
            final(cpu).ppu == old(cpu).ppu,
            crate::bus::spec_ppu_regs_same(old(cpu).memory_bus@, final(cpu).memory_bus@),
            spec_or_post(*old(cpu), *final(cpu), r, source),
    {
        let sv = source.get(cpu)?;
        match sv {
            TargetSize::Byte(b) => {
                let res: u8 = cpu.registers.a | b;
                cpu.registers.a = res;
                cpu.registers.f = FlagsRegister {
                    zero: res == 0,
                    subtract: false,
                    half_carry: false,
                    carry: false,
                };
                Ok(4)
            },
            _ => Err(EmuError::InvalidOperand),
        }
    }

    /// Bitwise exclusive-or into the accumulator: zero from the result,
    /// the other three flags cleared.
    pub fn xor(cpu: &mut CPU, source: OperandTypes) -> (r: Result<u8, EmuError>)
        requires
            old(cpu).memory_bus.wf(),
        ensures
            final(cpu).memory_bus.wf(),
            final(cpu).ppu == old(cpu).ppu,
            crate::bus::spec_ppu_regs_same(old(cpu).memory_bus@, final(cpu).memory_bus@),
            spec_xor_post(*old(cpu), *final(cpu), r, source),
    {
        let sv = source.get(cpu)?;
        match sv {
            TargetSize::Byte(b) => {
                let res: u8 = cpu.registers.a ^ b;
                cpu.registers.a = res;
                cpu.registers.f = FlagsRegister {
                    zero: res == 0,
                    subtract: false,
                    half_carry: false,
                    carry: false,
                };
                Ok(4)
            },
            _ => Err(EmuError::InvalidOperand),
        }
    }

    /// Compare the accumulator with a byte: the flags of the subtraction,
    /// the accumulator kept.
    pub fn cp(cpu: &mut CPU, source: OperandTypes) -> (r: Result<u8, EmuError>)
        requires
            old(cpu).memory_bus.wf(),
        ensures
            final(cpu).memory_bus.wf(),
            final(cpu).ppu == old(cpu).ppu,
            crate::bus::spec_ppu_regs_same(old(cpu).memory_bus@, final(cpu).memory_bus@),
            spec_cp_post(*old(cpu), *final(cpu), r, source),
    {
        let sv = source.get(cpu)?;
        match sv {
            TargetSize::Byte(b) => {
                let a: u8 = cpu.registers.a;
                cpu.registers.f = FlagsRegister {
                    zero: a == b,
                    subtract: true,
                    half_carry: (a & 0xF) < (b & 0xF),
                    carry: a < b,
                };
                Ok(8)
            },
            _ => Err(EmuError::InvalidOperand),
        }
    }

    /// Subtract a byte from the accumulator.
    pub fn sub(cpu: &mut CPU, source: OperandTypes) -> (r: Result<u8, EmuError>)
        requires
            old(cpu).memory_bus.wf(),
        ensures
            final(cpu).memory_bus.wf(),
            final(cpu).ppu == old(cpu).ppu,
            crate::bus::spec_ppu_regs_same(old(cpu).memory_bus@, final(cpu).memory_bus@),
            spec_sub_post(*old(cpu), *final(cpu), r, source),
    {
        let sv = source.get(cpu)?;
        match sv {
            TargetSize::Byte(b) => {
                let a: u8 = cpu.registers.a;
                let res: u8 = ((256u16 + a as u16 - b as u16) % 256) as u8;
                cpu.registers.a = res;
                cpu.registers.f = FlagsRegister {
                    zero: a == b,
                    subtract: true,
                    half_carry: (a & 0xF) < (b & 0xF),
                    carry: a < b,
                };
                Ok(8)
            },
            _ => Err(EmuError::InvalidOperand),
        }
    }

    /// Subtract a byte and the incoming borrow from the accumulator.
    pub fn sbc(cpu: &mut CPU, source: OperandTypes) -> (r: Result<u8, EmuError>)
        requires
            old(cpu).memory_bus.wf(),
        ensures
            final(cpu).memory_bus.wf(),
            final(cpu).ppu == old(cpu).ppu,
            crate::bus::spec_ppu_regs_same(old(cpu).memory_bus@, final(cpu).memory_bus@),
            spec_sbc_post(*old(cpu), *final(cpu), r, source),
    {
        let sv = source.get(cpu)?;
        match sv {
            TargetSize::Byte(b) => {
                let a: u8 = cpu.registers.a;
                let cin: u16 = if cpu.registers.f.carry {
                    1
                } else {
                    0
                };
                let res: u8 = ((512u16 + a as u16 - b as u16 - cin) % 256) as u8;
                cpu.registers.a = res;
                cpu.registers.f = FlagsRegister {
                    zero: res == 0,
                    subtract: true,
                    half_carry: ((a & 0xF) as u16) < (b & 0xF) as u16 + cin,
                    carry: (a as u16) < b as u16 + cin,
                };
                match source {
                    OperandTypes::D8(_) => Ok(8),
                    _ => Ok(4),
                }
            },
            _ => Err(EmuError::InvalidOperand),
        }
    }

    /// Step a register, pair or memory byte up by one. The byte forms set
    /// zero, subtract and half-carry and never touch carry; the pair form
    /// wraps silently and touches no flag.
    pub fn inc(cpu: &mut CPU, target: OperandTypes) -> (r: Result<u8, EmuError>)
        requires
            old(cpu).memory_bus.wf(),
        ensures
            final(cpu).memory_bus.wf(),
            final(cpu).ppu == old(cpu).ppu,
            crate::bus::spec_ppu_regs_same(old(cpu).memory_bus@, final(cpu).memory_bus@),
            spec_inc_post(*old(cpu), *final(cpu), r, target),
    {
        match target {
            OperandTypes::Register(t) => {
                let v: u8 = t.get(cpu);
                let res: u8 = ((v as u16 + 1) % 256) as u8;
                let f = FlagsRegister {
                    zero: res == 0,
                    subtract: false,
                    half_carry: v & 0xF == 0xF,
                    carry: cpu.registers.f.carry,
                };
                t.set(cpu, res);
                cpu.registers.f = f;
                Ok(4)
            },
            OperandTypes::RegisterPair(tp) => {
                let v: u16 = tp.get(cpu);
                let res: u16 = ((v as u32 + 1) % 0x10000) as u16;
                tp.set(cpu, res);
                Ok(4)
            },
            OperandTypes::Memory(a) => {
                let v: u8 = cpu.memory_bus.read_byte(a);
                let res: u8 = ((v as u16 + 1) % 256) as u8;
                let f = FlagsRegister {
                    zero: res == 0,
                    subtract: false,
                    half_carry: v & 0xF == 0xF,
                    carry: cpu.registers.f.carry,
                };
                cpu.memory_bus.write_byte(a, res)?;
                cpu.registers.f = f;
                proof {
                    crate::bus::lemma_write_keeps_ppu_regs(old(cpu).memory_bus@, a, res);
                }
                Ok(4)
            },
            _ => Err(EmuError::InvalidOperand),
        }
    }

    /// Step a register, pair or memory byte down by one. The byte forms
    /// set zero, subtract and half-carry and never touch carry; the pair
    /// form wraps silently and touches no flag.
    pub fn dec(cpu: &mut CPU, target: OperandTypes) -> (r: Result<u8, EmuError>)
        requires
            old(cpu).memory_bus.wf(),
        ensures
            final(cpu).memory_bus.wf(),
            final(cpu).ppu == old(cpu).ppu,
            crate::bus::spec_ppu_regs_same(old(cpu).memory_bus@, final(cpu).memory_bus@),
            spec_dec_post(*old(cpu), *final(cpu), r, target),
    {
        match target {
            OperandTypes::Register(t) => {
                let v: u8 = t.get(cpu);
                let res: u8 = ((256u16 + v as u16 - 1) % 256) as u8;
                let f = FlagsRegister {
                    zero: res == 0,
                    subtract: true,
                    half_carry: v & 0xF == 0,
                    carry: cpu.registers.f.carry,
                };
                t.set(cpu, res);
                cpu.registers.f = f;
                Ok(4)
            },
            OperandTypes::RegisterPair(tp) => {
                let v: u16 = tp.get(cpu);
                let res: u16 = ((v as u32 + 0xFFFF) % 0x10000) as u16;
                tp.set(cpu, res);
                Ok(4)
            },
            OperandTypes::Memory(a) => {
                let v: u8 = cpu.memory_bus.read_byte(a);
                let res: u8 = ((256u16 + v as u16 - 1) % 256) as u8;
                let f = FlagsRegister {
                    zero: res == 0,
                    subtract: true,
                    half_carry: v & 0xF == 0,
                    carry: cpu.registers.f.carry,
                };
                cpu.memory_bus.write_byte(a, res)?;
                cpu.registers.f = f;
                proof {
                    crate::bus::lemma_write_keeps_ppu_regs(old(cpu).memory_bus@, a, res);
                }
                Ok(4)
            },
            _ => Err(EmuError::InvalidOperand),
        }
    }
}

impl Instruction {
    /// Rotate left, the top bit wrapping around and feeding the carry.
    pub fn rlc(cpu: &mut CPU, target: OperandTypes) -> (r: Result<u8, EmuError>)
        requires
            old(cpu).memory_bus.wf(),
        ensures
            final(cpu).memory_bus.wf(),
            final(cpu).ppu == old(cpu).ppu,
            crate::bus::spec_ppu_regs_same(old(cpu).memory_bus@, final(cpu).memory_bus@),
            spec_rlc_post(*old(cpu), *final(cpu), r, target),
    {
        Instruction::cb_apply(cpu, target, 0)
    }

    /// Rotate right, the bottom bit wrapping around and feeding the carry.
    pub fn rrc(cpu: &mut CPU, target: OperandTypes) -> (r: Result<u8, EmuError>)
        requires
            old(cpu).memory_bus.wf(),
        ensures
            final(cpu).memory_bus.wf(),
            final(cpu).ppu == old(cpu).ppu,
            crate::bus::spec_ppu_regs_same(old(cpu).memory_bus@, final(cpu).memory_bus@),
            spec_rrc_post(*old(cpu), *final(cpu), r, target),
    {
        Instruction::cb_apply(cpu, target, 1)
    }

    /// Rotate left through the carry: the old carry fills the vacated bit.
    pub fn rl(cpu: &mut CPU, target: OperandTypes) -> (r: Result<u8, EmuError>)
        requires
            old(cpu).memory_bus.wf(),
        ensures
            final(cpu).memory_bus.wf(),
            final(cpu).ppu == old(cpu).ppu,
            crate::bus::spec_ppu_regs_same(old(cpu).memory_bus@, final(cpu).memory_bus@),
            spec_rl_post(*old(cpu), *final(cpu), r, target),
    {
        Instruction::cb_apply(cpu, target, 2)
    }

    /// Rotate right through the carry: the old carry fills the vacated bit.
    pub fn rr(cpu: &mut CPU, target: OperandTypes) -> (r: Result<u8, EmuError>)
        requires
            old(cpu).memory_bus.wf(),
        ensures
            final(cpu).memory_bus.wf(),
            final(cpu).ppu == old(cpu).ppu,
            crate::bus::spec_ppu_regs_same(old(cpu).memory_bus@, final(cpu).memory_bus@),
            spec_rr_post(*old(cpu), *final(cpu), r, target),
    {
        Instruction::cb_apply(cpu, target, 3)
    }

    /// Shift left, zero-filled, the top bit feeding the carry.
    pub fn sla(cpu: &mut CPU, target: OperandTypes) -> (r: Result<u8, EmuError>)
        requires
            old(cpu).memory_bus.wf(),
        ensures
            final(cpu).memory_bus.wf(),
            final(cpu).ppu == old(cpu).ppu,
            crate::bus::spec_ppu_regs_same(old(cpu).memory_bus@, final(cpu).memory_bus@),
            spec_sla_post(*old(cpu), *final(cpu), r, target),
    {
        Instruction::cb_apply(cpu, target, 4)
    }

    /// Shift right arithmetically, the sign bit kept, the bottom bit
    /// feeding the carry.
    pub fn sra(cpu: &mut CPU, target: OperandTypes) -> (r: Result<u8, EmuError>)
        requires
            old(cpu).memory_bus.wf(),
        ensures
            final(cpu).memory_bus.wf(),
            final(cpu).ppu == old(cpu).ppu,
            crate::bus::spec_ppu_regs_same(old(cpu).memory_bus@, final(cpu).memory_bus@),
            spec_sra_post(*old(cpu), *final(cpu), r, target),
    {
        Instruction::cb_apply(cpu, target, 5)
    }

    /// Shift right, zero-filled, the bottom bit feeding the carry.
    pub fn srl(cpu: &mut CPU, target: OperandTypes) -> (r: Result<u8, EmuError>)
        requires
            old(cpu).memory_bus.wf(),
        ensures
            final(cpu).memory_bus.wf(),
            final(cpu).ppu == old(cpu).ppu,
            crate::bus::spec_ppu_regs_same(old(cpu).memory_bus@, final(cpu).memory_bus@),
            spec_srl_post(*old(cpu), *final(cpu), r, target),
    {
        Instruction::cb_apply(cpu, target, 6)
    }

    /// Exchange the two nibbles; only zero can rise.
    pub fn swap(cpu: &mut CPU, target: OperandTypes) -> (r: Result<u8, EmuError>)
        requires
            old(cpu).memory_bus.wf(),
        ensures
            final(cpu).memory_bus.wf(),
            final(cpu).ppu == old(cpu).ppu,
            crate::bus::spec_ppu_regs_same(old(cpu).memory_bus@, final(cpu).memory_bus@),
            spec_swap_post(*old(cpu), *final(cpu), r, target),
    {
        Instruction::cb_apply(cpu, target, 7)
    }

    /// The shared body of the prefixed rotates, shifts and the nibble
    /// exchange: read the byte, rewrite it, store it back, set the flags.
    #[verifier::rlimit(50)]
    fn cb_apply(cpu: &mut CPU, target: OperandTypes, op: u8) -> (r: Result<u8, EmuError>)
        requires
            old(cpu).memory_bus.wf(),
            op < 8,
        ensures
            final(cpu).memory_bus.wf(),
            final(cpu).ppu == old(cpu).ppu,
            crate::bus::spec_ppu_regs_same(old(cpu).memory_bus@, final(cpu).memory_bus@),
            ({
                let v = spec_target_byte(*old(cpu), target);
                let cin = old(cpu).registers.f.carry;
                let res = spec_cb_result(op, v, cin);
                let carry = spec_cb_carry(op, v);
                spec_cb_post(*old(cpu), *final(cpu), r, target, res, spec_cb_flags(res, carry))
            }),
    {
        match target {
            OperandTypes::Register(t) => {
                let v: u8 = t.get(cpu);
                let res: u8 = Instruction::cb_result(op, v, cpu.registers.f.carry);
                let carry: bool = Instruction::cb_carry(op, v);
                t.set(cpu, res);
                cpu.registers.f = FlagsRegister {
                    zero: res == 0,
                    subtract: false,
                    half_carry: false,
                    carry,
                };
                Ok(8)
            },
            OperandTypes::Memory(a) => {
                let v: u8 = cpu.memory_bus.read_byte(a);
                let res: u8 = Instruction::cb_result(op, v, cpu.registers.f.carry);
                let carry: bool = Instruction::cb_carry(op, v);
                cpu.memory_bus.write_byte(a, res)?;
                cpu.registers.f = FlagsRegister {
                    zero: res == 0,
                    subtract: false,
                    half_carry: false,
                    carry,
                };
                proof {
                    crate::bus::lemma_write_keeps_ppu_regs(old(cpu).memory_bus@, a, res);
                }
                Ok(8)
            },
            _ => Err(EmuError::InvalidOperand),
        }
    }

    /// The rewritten byte of each prefixed form, numbered as the opcode
    /// table orders them.
    fn cb_result(op: u8, v: u8, carry_in: bool) -> (r: u8)
        requires
            op < 8,
        ensures
            r == spec_cb_result(op, v, carry_in),
    {
        if op == 0 {
            (v << 1) | (v >> 7)
        } else if op == 1 {
            (v >> 1) | (v << 7)
        } else if op == 2 {
            (v << 1) | (if carry_in { 1u8 } else { 0u8 })
        } else if op == 3 {
            (v >> 1) | (if carry_in { 0x80u8 } else { 0u8 })
        } else if op == 4 {
            v << 1
        } else if op == 5 {
            (v >> 1) | (v & 0x80)
        } else if op == 6 {
            v >> 1
        } else {
            (v >> 4) | (v << 4)
        }
    }

    /// The ejected bit of each prefixed form; the nibble exchange ejects
    /// nothing.
    fn cb_carry(op: u8, v: u8) -> (r: bool)
        requires
            op < 8,
        ensures
            r == spec_cb_carry(op, v),
    {
        if op == 0 || op == 2 || op == 4 {
            v & 0x80 != 0
        } else if op == 7 {
            false
        } else {
            v & 1 != 0
        }
    }

    /// Test one bit: zero rises when the bit is clear, half-carry is
    /// forced on, carry is left alone.
    pub fn bit(cpu: &mut CPU, bit: u8, source: OperandTypes) -> (r: Result<u8, EmuError>)
        requires
            old(cpu).memory_bus.wf(),
        ensures
            final(cpu).memory_bus.wf(),
            final(cpu).ppu == old(cpu).ppu,
            crate::bus::spec_ppu_regs_same(old(cpu).memory_bus@, final(cpu).memory_bus@),
            spec_bit_post(*old(cpu), *final(cpu), r, bit, source),
    {
        if bit > 7 {
            return Err(EmuError::InvalidOperand);
        }
        let sv = source.get(cpu)?;
        match sv {
            TargetSize::Byte(v) => {
                cpu.registers.f = FlagsRegister {
                    zero: v & (1u8 << bit) == 0,
                    subtract: false,
                    half_carry: true,
                    carry: cpu.registers.f.carry,
                };
                Ok(8)
            },
            _ => Err(EmuError::InvalidOperand),
        }
    }

    /// Clear one bit of a register or memory byte; no flag moves.
    pub fn res(cpu: &mut CPU, bit: u8, target: OperandTypes) -> (r: Result<u8, EmuError>)
        requires
            old(cpu).memory_bus.wf(),
        ensures
            final(cpu).memory_bus.wf(),
            final(cpu).ppu == old(cpu).ppu,
            crate::bus::spec_ppu_regs_same(old(cpu).memory_bus@, final(cpu).memory_bus@),
            spec_res_post(*old(cpu), *final(cpu), r, bit, target),
    {
        if bit > 7 {
            return Err(EmuError::InvalidOperand);
        }
        match target {
            OperandTypes::Register(t) => {
                let v: u8 = t.get(cpu);
                t.set(cpu, v & !(1u8 << bit));
                Ok(8)
            },
            OperandTypes::Memory(a) => {
                let v: u8 = cpu.memory_bus.read_byte(a);
                let res: u8 = v & !(1u8 << bit);
                cpu.memory_bus.write_byte(a, res)?;
                proof {
                    crate::bus::lemma_write_keeps_ppu_regs(old(cpu).memory_bus@, a, res);
                }
                Ok(8)
            },
            _ => Err(EmuError::InvalidOperand),
        }
    }

    /// Set one bit of a register or memory byte; no flag moves.
    pub fn set(cpu: &mut CPU, bit: u8, target: OperandTypes) -> (r: Result<u8, EmuError>)
        requires
            old(cpu).memory_bus.wf(),
        ensures
            final(cpu).memory_bus.wf(),
            final(cpu).ppu == old(cpu).ppu,
            crate::bus::spec_ppu_regs_same(old(cpu).memory_bus@, final(cpu).memory_bus@),
            spec_set_post(*old(cpu), *final(cpu), r, bit, target),
    {
        if bit > 7 {
            return Err(EmuError::InvalidOperand);
        }
        match target {
            OperandTypes::Register(t) => {
                let v: u8 = t.get(cpu);
                t.set(cpu, v | (1u8 << bit));
                Ok(8)
            },
            OperandTypes::Memory(a) => {
                let v: u8 = cpu.memory_bus.read_byte(a);
                let res: u8 = v | (1u8 << bit);
                cpu.memory_bus.write_byte(a, res)?;
                proof {
                    crate::bus::lemma_write_keeps_ppu_regs(old(cpu).memory_bus@, a, res);
                }
                Ok(8)
            },
            _ => Err(EmuError::InvalidOperand),
        }
    }

    /// Rotate the accumulator left, wrapping; zero always clears.
    pub fn rlca(cpu: &mut CPU) -> (r: Result<u8, EmuError>)
        ensures
            spec_rlca_post(*old(cpu), *final(cpu), r),
    {
        let v: u8 = cpu.registers.a;
        cpu.registers.a = (v << 1) | (v >> 7);
        cpu.registers.f = FlagsRegister {
            zero: false,
            subtract: false,
            half_carry: false,
            carry: v & 0x80 != 0,
        };
        Ok(4)
    }

    /// Rotate the accumulator right, wrapping; zero always clears.
    pub fn rrca(cpu: &mut CPU) -> (r: Result<u8, EmuError>)
        ensures
            spec_rrca_post(*old(cpu), *final(cpu), r),
    {
        let v: u8 = cpu.registers.a;
        cpu.registers.a = (v >> 1) | (v << 7);
        cpu.registers.f = FlagsRegister {
            zero: false,
            subtract: false,
            half_carry: false,
            carry: v & 1 != 0,
        };
        Ok(4)
    }

    /// Rotate the accumulator left through the carry; zero always clears.
    pub fn rla(cpu: &mut CPU) -> (r: Result<u8, EmuError>)
        ensures
            spec_rla_post(*old(cpu), *final(cpu), r),
    {
        let v: u8 = cpu.registers.a;
        cpu.registers.a = (v << 1) | (if cpu.registers.f.carry { 1u8 } else { 0u8 });
        cpu.registers.f = FlagsRegister {
            zero: false,
            subtract: false,
            half_carry: false,
            carry: v & 0x80 != 0,
        };
        Ok(4)
    }

    /// Rotate the accumulator right through the carry; zero always clears.
    pub fn rra(cpu: &mut CPU) -> (r: Result<u8, EmuError>)
        ensures
            spec_rra_post(*old(cpu), *final(cpu), r),
    {
        let v: u8 = cpu.registers.a;
        cpu.registers.a = (v >> 1) | (if cpu.registers.f.carry { 0x80u8 } else { 0u8 });
        cpu.registers.f = FlagsRegister {
            zero: false,
            subtract: false,
            half_carry: false,
            carry: v & 1 != 0,
        };
        Ok(4)
    }

    /// Toggle the carry; subtract and half-carry clear.
    pub fn ccf(cpu: &mut CPU) -> (r: Result<u8, EmuError>)
        ensures
            spec_ccf_post(*old(cpu), *final(cpu), r),
    {
        cpu.registers.f = FlagsRegister {
            zero: cpu.registers.f.zero,
            subtract: false,
            half_carry: false,
            carry: !cpu.registers.f.carry,
        };
        Ok(4)
    }

    /// Set the carry; subtract and half-carry clear.
    pub fn scf(cpu: &mut CPU) -> (r: Result<u8, EmuError>)
        ensures
            spec_scf_post(*old(cpu), *final(cpu), r),
    {
        cpu.registers.f = FlagsRegister {
            zero: cpu.registers.f.zero,
            subtract: false,
            half_carry: false,
            carry: true,
        };
        Ok(4)
    }

    /// Complement the accumulator; subtract and half-carry rise.
    pub fn cpl(cpu: &mut CPU) -> (r: Result<u8, EmuError>)
        ensures
            spec_cpl_post(*old(cpu), *final(cpu), r),
    {
        cpu.registers.a = !cpu.registers.a;
        cpu.registers.f = FlagsRegister {
            zero: cpu.registers.f.zero,
            subtract: true,
            half_carry: true,
            carry: cpu.registers.f.carry,
        };
        Ok(4)
    }

    /// Decimal-adjust the accumulator after an addition or subtraction,
    /// per the standard two-nibble correction: zero is recomputed,
    /// half-carry clears, subtract is kept, and carry may rise.
    pub fn daa(cpu: &mut CPU) -> (r: Result<u8, EmuError>)
        ensures
            spec_daa_post(*old(cpu), *final(cpu), r),
    {
        let a: u8 = cpu.registers.a;
        let f = cpu.registers.f;
        let low_fix: u16 = if f.half_carry || (!f.subtract && a % 16 > 9) {
            0x06
        } else {
            0
        };
        let high_fix: u16 = if f.carry || (!f.subtract && a > 0x99) {
            0x60
        } else {
            0
        };
        let adjust: u16 = low_fix + high_fix;
        let res: u8 = if f.subtract {
            ((256u16 + a as u16 - adjust) % 256) as u8
        } else {
            ((a as u16 + adjust) % 256) as u8
        };
        cpu.registers.a = res;
        cpu.registers.f = FlagsRegister {
            zero: res == 0,
            subtract: f.subtract,
            half_carry: false,
            carry: f.carry || (!f.subtract && a > 0x99),
        };
        Ok(4)
    }

    /// Mask interrupts.
    pub fn di(cpu: &mut CPU) -> (r: Result<u8, EmuError>)
        ensures
            spec_di_post(*old(cpu), *final(cpu), r),
    {
        cpu.interupt_master_enable = false;
        Ok(4)
    }

    /// Unmask interrupts.
    pub fn ei(cpu: &mut CPU) -> (r: Result<u8, EmuError>)
        ensures
            spec_ei_post(*old(cpu), *final(cpu), r),
    {
        cpu.interupt_master_enable = true;
        Ok(4)
    }

    /// Latch the halted state: the engine reports zero cycles and fetches
    /// nothing more until an interrupt is pending.
    pub fn halt(cpu: &mut CPU) -> (r: Result<u8, EmuError>)
        ensures
            spec_halt_post(*old(cpu), *final(cpu), r),
    {
        cpu.is_halted = true;
        Ok(4)
    }

    /// Do nothing for one machine cycle.
    pub fn nop(cpu: &mut CPU) -> (r: Result<u8, EmuError>)
        ensures
            spec_nop_post(*old(cpu), *final(cpu), r),
    {
        Ok(4)
    }
}

/// How a bit clear or bit set ends: the rewritten byte lands back where
/// it came from, no flag moves, and a memory form aimed at ROM is fatal.
pub open spec fn spec_bit_store_post(
    c0: CPU,
    c1: CPU,
    r: Result<u8, EmuError>,
    target: OperandTypes,
    res: u8,
) -> bool {
    match target {
        OperandTypes::Register(t) => {
            &&& r == Ok::<u8, EmuError>(8u8)
            &&& c1.registers == t.spec_set(c0.registers, res)
            &&& spec_same_but_regs(c0, c1)
        },
        OperandTypes::Memory(a) => {
            &&& (spec_is_rom(a) ==> r == Err::<u8, EmuError>(EmuError::ReadOnlyWrite(a))
                && spec_same_cpu(c0, c1))
            &&& (!spec_is_rom(a) ==> {
                &&& r == Ok::<u8, EmuError>(8u8)
                &&& c1.memory_bus@ == spec_write(c0.memory_bus@, a, res)
                &&& c1.registers == c0.registers
                &&& spec_same_but_alu(c0, c1)
            })
        },
        _ => spec_invalid(c0, c1, r),
    }
}

/// The rewritten byte of each prefixed form, in table order: the two
/// wrapping rotates, the two rotates through carry, the three shifts,
/// and the nibble exchange.
pub open spec fn spec_cb_result(op: u8, v: u8, carry_in: bool) -> u8 {
    if op == 0 {
        spec_rlc8(v)
    } else if op == 1 {
        spec_rrc8(v)
    } else if op == 2 {
        spec_rl8(v, carry_in)
    } else if op == 3 {
        spec_rr8(v, carry_in)
    } else if op == 4 {
        spec_sla8(v)
    } else if op == 5 {
        spec_sra8(v)
    } else if op == 6 {
        spec_srl8(v)
    } else {
        spec_swap8(v)
    }
}

/// The ejected bit of each prefixed form.
pub open spec fn spec_cb_carry(op: u8, v: u8) -> bool {
    if op == 0 || op == 2 || op == 4 {
        spec_top_bit(v)
    } else if op == 7 {
        false
    } else {
        spec_low_bit(v)
    }
}

/// The cycle cost of a load, by the kinds of its two operands: register
/// moves are cheapest, memory round-trips cost more, and stores into the
/// high page are a shade cheaper than a full absolute store.
pub open spec fn spec_ld_cycles(target: OperandTypes, source: OperandTypes) -> u8 {
    match target {
        OperandTypes::Register(_) => match source {
            OperandTypes::Register(_) => 4u8,
            OperandTypes::Memory(_) => 8u8,
            OperandTypes::D8(_) => 8u8,
            _ => 8u8,
        },
        OperandTypes::RegisterPair(_) => match source {
            OperandTypes::RegisterPair(_) => 8u8,
            OperandTypes::D16(_) => 12u8,
            _ => 12u8,
        },
        OperandTypes::Memory(a) => match source {
            OperandTypes::Register(_) => if a & 0xFF00 == 0xFF00 {
                12u8
            } else {
                16u8
            },
            OperandTypes::D8(_) => 12u8,
            OperandTypes::RegisterPair(_) => 20u8,
            _ => 12u8,
        },
        _ => 4u8,
    }
}

impl Instruction {
    /// Move a value from one operand into another: the whole load family.
    /// What lands where is the store relation over the value the source
    /// yields; the cycle cost depends on the operand kinds.
    pub fn ld(cpu: &mut CPU, target: OperandTypes, source: OperandTypes) -> (r: Result<
        u8,
        EmuError,
    >)
        requires
            old(cpu).memory_bus.wf(),
        ensures
            final(cpu).memory_bus.wf(),
            final(cpu).ppu == old(cpu).ppu,
            crate::bus::spec_ppu_regs_same(old(cpu).memory_bus@, final(cpu).memory_bus@),
            spec_ld_post(*old(cpu), *final(cpu), r, target, source),
    {
        let val = source.get(cpu)?;
        target.set(cpu, val)?;
        let cycles: u8 = match target {
            OperandTypes::Register(_) => match source {
                OperandTypes::Register(_) => 4,
                OperandTypes::Memory(_) => 8,
                OperandTypes::D8(_) => 8,
                _ => 8,
            },
            OperandTypes::RegisterPair(_) => match source {
                OperandTypes::RegisterPair(_) => 8,
                OperandTypes::D16(_) => 12,
                _ => 12,
            },
            OperandTypes::Memory(a) => match source {
                OperandTypes::Register(_) => if a & 0xFF00 == 0xFF00 {
                    12
                } else {
                    16
                },
                OperandTypes::D8(_) => 12,
                OperandTypes::RegisterPair(_) => 20,
                _ => 12,
            },
            _ => 4,
        };
        Ok(cycles)
    }

    /// The auto-increment load: move the accumulator through the HL
    /// address, then step HL up by one. Two machine cycles.
    pub fn ldi(cpu: &mut CPU, target: OperandTypes, source: OperandTypes) -> (r: Result<
        u8,
        EmuError,
    >)
        requires
            old(cpu).memory_bus.wf(),
        ensures
            final(cpu).memory_bus.wf(),
            final(cpu).ppu == old(cpu).ppu,
            crate::bus::spec_ppu_regs_same(old(cpu).memory_bus@, final(cpu).memory_bus@),
            spec_ldi_post(*old(cpu), *final(cpu), r, target, source),
    {
        Instruction::ld_auto(cpu, target, source, true)
    }

    /// The auto-decrement load: move the accumulator through the HL
    /// address, then step HL down by one. Two machine cycles.
    pub fn ldd(cpu: &mut CPU, target: OperandTypes, source: OperandTypes) -> (r: Result<
        u8,
        EmuError,
    >)
        requires
            old(cpu).memory_bus.wf(),
        ensures
            final(cpu).memory_bus.wf(),
            final(cpu).ppu == old(cpu).ppu,
            crate::bus::spec_ppu_regs_same(old(cpu).memory_bus@, final(cpu).memory_bus@),
            spec_ldd_post(*old(cpu), *final(cpu), r, target, source),
    {
        Instruction::ld_auto(cpu, target, source, false)
    }

    /// The shared body of the auto-increment and auto-decrement loads.
    fn ld_auto(cpu: &mut CPU, target: OperandTypes, source: OperandTypes, up: bool) -> (r: Result<
        u8,
        EmuError,
    >)
        requires
            old(cpu).memory_bus.wf(),
        ensures
            final(cpu).memory_bus.wf(),
            final(cpu).ppu == old(cpu).ppu,
            crate::bus::spec_ppu_regs_same(old(cpu).memory_bus@, final(cpu).memory_bus@),
            spec_ld_auto_post(
                *old(cpu),
                *final(cpu),
                r,
                target,
                source,
                if up {
                    1u16
                } else {
                    0xFFFFu16
                },
            ),
    {
        let delta: u16 = if up {
            1
        } else {
            0xFFFF
        };
        match (target, source) {
            (OperandTypes::Register(t), OperandTypes::Memory(a)) => {
                let hl: u16 = cpu.registers.get_hl();
                let hl1: u16 = ((hl as u32 + delta as u32) % 0x10000) as u16;
                let v: u8 = cpu.memory_bus.read_byte(a);
                t.set(cpu, v);
                cpu.registers.set_hl(hl1);
                Ok(8)
            },
            (OperandTypes::Memory(a), OperandTypes::Register(s)) => {
                let hl: u16 = cpu.registers.get_hl();
                let hl1: u16 = ((hl as u32 + delta as u32) % 0x10000) as u16;
                let v: u8 = s.get(cpu);
                cpu.memory_bus.write_byte(a, v)?;
                proof {
                    crate::bus::lemma_write_keeps_ppu_regs(old(cpu).memory_bus@, a, v);
                }
                cpu.registers.set_hl(hl1);
                Ok(8)
            },
            _ => Err(EmuError::InvalidOperand),
        }
    }

    /// Load HL with the stack pointer plus a signed offset; the flags
    /// come from the pointer's low byte and zero never rises. Three
    /// machine cycles.
    pub fn ld_hl_sp(cpu: &mut CPU, offset: i8) -> (r: Result<u8, EmuError>)
        ensures
            spec_ld_hl_sp_post(*old(cpu), *final(cpu), r, offset),
    {
        let sp: u16 = cpu.stack_pointer;
        let eb: u8 = offset as u8;
        let f = FlagsRegister {
            zero: false,
            subtract: false,
            half_carry: (sp & 0xF) as u32 + (eb & 0xF) as u32 > 0xF,
            carry: (sp & 0xFF) as u32 + eb as u32 > 0xFF,
        };
        let hl: u16 = sp.wrapping_add_signed(offset as i16);
        cpu.registers.set_hl(hl);
        cpu.registers.f = f;
        Ok(12)
    }

    /// Jump by a signed offset from the next instruction, when the
    /// condition (if any) holds: three cycles taken, two not.
    pub fn jr(cpu: &mut CPU, condition: Option<FlagOperand>, offset: i8) -> (r: Result<
        u8,
        EmuError,
    >)
        ensures
            spec_jr_post(*old(cpu), *final(cpu), r, condition, offset),
    {
        let taken: bool = match condition {
            Some(c) => c.get(cpu),
            None => true,
        };
        if taken {
            cpu.program_counter = cpu.program_counter.wrapping_add_signed(offset as i16);
            Ok(12)
        } else {
            Ok(8)
        }
    }

    /// Jump to an absolute target, when the condition (if any) holds:
    /// four cycles taken, three not. The unconditional form also jumps
    /// through the HL pair.
    pub fn jp(cpu: &mut CPU, condition: Option<FlagOperand>, address: OperandTypes) -> (r: Result<
        u8,
        EmuError,
    >)
        ensures
            spec_jp_post(*old(cpu), *final(cpu), r, condition, address),
    {
        match condition {
            Some(c) => {
                if c.get(cpu) {
                    match address {
                        OperandTypes::D16(w) => {
                            cpu.program_counter = w;
                            Ok(16)
                        },
                        OperandTypes::A16(w) => {
                            cpu.program_counter = w;
                            Ok(16)
                        },
                        _ => Err(EmuError::InvalidOperand),
                    }
                } else {
                    Ok(12)
                }
            },
            None => {
                match address {
                    OperandTypes::RegisterPair(rp) => {
                        let w: u16 = rp.get(cpu);
                        cpu.program_counter = w;
                        Ok(16)
                    },
                    OperandTypes::A16(w) => {
                        cpu.program_counter = w;
                        Ok(16)
                    },
                    OperandTypes::D16(w) => {
                        cpu.program_counter = w;
                        Ok(16)
                    },
                    _ => Err(EmuError::InvalidOperand),
                }
            },
        }
    }

    /// Call a subroutine at an absolute target, when the condition (if
    /// any) holds: the return address is pushed and the counter takes
    /// the target. Six cycles taken, three not.
    pub fn call(cpu: &mut CPU, condition: Option<FlagOperand>, address: OperandTypes) -> (r:
        Result<u8, EmuError>)
        requires
            old(cpu).memory_bus.wf(),
        ensures
            final(cpu).memory_bus.wf(),
            final(cpu).ppu == old(cpu).ppu,
            crate::bus::spec_ppu_regs_same(old(cpu).memory_bus@, final(cpu).memory_bus@),
            spec_call_handler_post(*old(cpu), *final(cpu), r, condition, address),
    {
        let taken: bool = match condition {
            Some(c) => c.get(cpu),
            None => true,
        };
        if !taken {
            return Ok(12);
        }
        let w: u16 = match address {
            OperandTypes::D16(w) => w,
            OperandTypes::A16(w) => w,
            _ => {
                return Err(EmuError::InvalidOperand);
            },
        };
        cpu.call(w)?;
        proof {
            let sp2 = vstd::wrapping::u16_specs::wrapping_sub(old(cpu).stack_pointer, 2);
            crate::bus::lemma_write_keeps_ppu_regs(
                old(cpu).memory_bus@,
                sp2,
                spec_lo(old(cpu).program_counter),
            );
            crate::bus::lemma_write_keeps_ppu_regs(
                spec_write(old(cpu).memory_bus@, sp2, spec_lo(old(cpu).program_counter)),
                crate::wrapping_inc(sp2),
                spec_hi(old(cpu).program_counter),
            );
        }
        Ok(24)
    }

    /// Return from a subroutine, when the condition (if any) holds: the
    /// counter takes the word at the stack pointer. Five cycles taken,
    /// two not.
    pub fn ret(cpu: &mut CPU, condition: Option<FlagOperand>) -> (r: Result<u8, EmuError>)
        requires
            old(cpu).memory_bus.wf(),
        ensures
            final(cpu).memory_bus.wf(),
            final(cpu).ppu == old(cpu).ppu,
            crate::bus::spec_ppu_regs_same(old(cpu).memory_bus@, final(cpu).memory_bus@),
            spec_ret_post(*old(cpu), *final(cpu), r, condition),
    {
        let taken: bool = match condition {
            Some(c) => c.get(cpu),
            None => true,
        };
        if taken {
            cpu.ret(true);
            Ok(20)
        } else {
            cpu.ret(false);
            Ok(8)
        }
    }

    /// Return and unmask interrupts in the same step: four cycles.
    pub fn reti(cpu: &mut CPU) -> (r: Result<u8, EmuError>)
        requires
            old(cpu).memory_bus.wf(),
        ensures
            final(cpu).memory_bus.wf(),
            final(cpu).ppu == old(cpu).ppu,
            crate::bus::spec_ppu_regs_same(old(cpu).memory_bus@, final(cpu).memory_bus@),
            spec_reti_post(*old(cpu), *final(cpu), r),
    {
        cpu.ret(true);
        cpu.interupt_master_enable = true;
        Ok(16)
    }

    /// Call one of the fixed low-memory vectors encoded in the opcode:
    /// the return address is pushed and the counter takes the vector.
    /// Four cycles.
    pub fn rst(cpu: &mut CPU, address: OperandTypes) -> (r: Result<u8, EmuError>)
        requires
            old(cpu).memory_bus.wf(),
        ensures
            final(cpu).memory_bus.wf(),
            final(cpu).ppu == old(cpu).ppu,
            crate::bus::spec_ppu_regs_same(old(cpu).memory_bus@, final(cpu).memory_bus@),
            spec_rst_handler_post(*old(cpu), *final(cpu), r, address),
    {
        let v: u8 = match address {
            OperandTypes::D8(v) => v,
            _ => {
                return Err(EmuError::InvalidOperand);
            },
        };
        cpu.push_word(cpu.program_counter)?;
        proof {
            let sp2 = vstd::wrapping::u16_specs::wrapping_sub(old(cpu).stack_pointer, 2);
            crate::bus::lemma_write_keeps_ppu_regs(
                old(cpu).memory_bus@,
                sp2,
                spec_lo(old(cpu).program_counter),
            );
            crate::bus::lemma_write_keeps_ppu_regs(
                spec_write(old(cpu).memory_bus@, sp2, spec_lo(old(cpu).program_counter)),
                crate::wrapping_inc(sp2),
                spec_hi(old(cpu).program_counter),
            );
        }
        cpu.program_counter = v as u16;
        Ok(16)
    }

    /// Push a pair onto the stack: four cycles.
    pub fn push(cpu: &mut CPU, target: RegisterPair) -> (r: Result<u8, EmuError>)
        requires
            old(cpu).memory_bus.wf(),
        ensures
            final(cpu).memory_bus.wf(),
            final(cpu).ppu == old(cpu).ppu,
            crate::bus::spec_ppu_regs_same(old(cpu).memory_bus@, final(cpu).memory_bus@),
            crate::bus::spec_ppu_regs_same(old(cpu).memory_bus@, final(cpu).memory_bus@),
            spec_push_post(*old(cpu), *final(cpu), r, target),
    {
        let value: u16 = target.get(cpu);
        cpu.push_word(value)?;
        proof {
            let sp2 = vstd::wrapping::u16_specs::wrapping_sub(old(cpu).stack_pointer, 2);
            crate::bus::lemma_write_keeps_ppu_regs(old(cpu).memory_bus@, sp2, spec_lo(value));
            crate::bus::lemma_write_keeps_ppu_regs(
                spec_write(old(cpu).memory_bus@, sp2, spec_lo(value)),
                crate::wrapping_inc(sp2),
                spec_hi(value),
            );
        }
        Ok(16)
    }

    /// Pop a pair off the stack: three cycles.
    pub fn pop(cpu: &mut CPU, target: RegisterPair) -> (r: Result<u8, EmuError>)
        requires
            old(cpu).memory_bus.wf(),
        ensures
            final(cpu).memory_bus.wf(),
            final(cpu).ppu == old(cpu).ppu,
            crate::bus::spec_ppu_regs_same(old(cpu).memory_bus@, final(cpu).memory_bus@),
            spec_pop_post(*old(cpu), *final(cpu), r, target),
    {
        let value: u16 = cpu.pop_word();
        target.set(cpu, value);
        Ok(12)
    }
}

/// How a taken or skipped subroutine call ends: skipped costs three
/// cycles and moves nothing; taken pushes the return address — fatal if
/// the stack sits in ROM — and retargets the counter, costing six.
pub open spec fn spec_call_post(c0: CPU, c1: CPU, r: Result<u8, EmuError>, taken: bool, w: u16) -> bool {
    let sp2 = vstd::wrapping::u16_specs::wrapping_sub(c0.stack_pointer, 2);
    &&& (!taken ==> r == Ok::<u8, EmuError>(12u8) && c1 == c0)
    &&& (taken ==> {
        &&& crate::cpu::spec_same_but_stack(c0, c1)
        &&& c1.stack_pointer == sp2
        &&& crate::cpu::spec_word_store_post(
            c0.memory_bus@,
            c1.memory_bus@,
            sp2,
            c0.program_counter,
            if r is Ok {
                Ok::<(), EmuError>(())
            } else {
                Err::<(), EmuError>(r->Err_0)
            },
        )
        &&& crate::bus::spec_ppu_regs_same(c0.memory_bus@, c1.memory_bus@)
        &&& crate::bus::bus_wf(c1.memory_bus@)
        &&& (r is Ok ==> r == Ok::<u8, EmuError>(24u8) && c1.program_counter == w)
        &&& (r is Err ==> c1.program_counter == c0.program_counter)
    })
}

/// How a restart ends: the return address is pushed — fatal if the
/// stack sits in ROM — and the counter takes the low-memory vector.
pub open spec fn spec_rst_post(c0: CPU, c1: CPU, r: Result<u8, EmuError>, vector: u16) -> bool {
    let sp2 = vstd::wrapping::u16_specs::wrapping_sub(c0.stack_pointer, 2);
    &&& crate::cpu::spec_same_but_stack(c0, c1)
    &&& c1.stack_pointer == sp2
    &&& crate::cpu::spec_word_store_post(
        c0.memory_bus@,
        c1.memory_bus@,
        sp2,
        c0.program_counter,
        if r is Ok {
            Ok::<(), EmuError>(())
        } else {
            Err::<(), EmuError>(r->Err_0)
        },
    )
    &&& crate::bus::spec_ppu_regs_same(c0.memory_bus@, c1.memory_bus@)
    &&& crate::bus::bus_wf(c1.memory_bus@)
    &&& (r is Ok ==> r == Ok::<u8, EmuError>(16u8) && c1.program_counter == vector)
    &&& (r is Err ==> c1.program_counter == c0.program_counter)
}

/// How the auto-increment or auto-decrement load ends: the byte moves
/// between the accumulator's register and the cell HL pointed at, and
/// the HL pair steps by the given wrapped delta.
pub open spec fn spec_ld_auto_post(
    c0: CPU,
    c1: CPU,
    r: Result<u8, EmuError>,
    target: OperandTypes,
    source: OperandTypes,
    delta: u16,
) -> bool {
    let hl1 = spec_add16(spec_pair(c0.registers.h, c0.registers.l), delta);
    match (target, source) {
        (OperandTypes::Register(t), OperandTypes::Memory(a)) => {
            &&& r == Ok::<u8, EmuError>(8u8)
            &&& c1.registers == (Register {
                h: spec_hi(hl1),
                l: spec_lo(hl1),
                ..t.spec_set(c0.registers, spec_read(c0.memory_bus@, a))
            })
            &&& spec_same_but_regs(c0, c1)
        },
        (OperandTypes::Memory(a), OperandTypes::Register(s)) => {
            let v = s.spec_get(c0.registers);
            &&& (spec_is_rom(a) ==> r == Err::<u8, EmuError>(EmuError::ReadOnlyWrite(a))
                && spec_same_cpu(c0, c1))
            &&& (!spec_is_rom(a) ==> {
                &&& r == Ok::<u8, EmuError>(8u8)
                &&& c1.memory_bus@ == spec_write(c0.memory_bus@, a, v)
                &&& c1.registers == (Register { h: spec_hi(hl1), l: spec_lo(hl1), ..c0.registers })
                &&& spec_same_but_alu(c0, c1)
            })
        },
        _ => spec_invalid(c0, c1, r),
    }
}

/// How the add handler ends, as a relation between the machine
/// before and after, the result, and the operands.
pub open spec fn spec_add_post(c0: CPU, c1: CPU, r: Result<u8, EmuError>, target: OperandTypes, source: OperandTypes) -> bool {
    match target {
                OperandTypes::Register(t) => match source.spec_get_byte(c0) {
                    Some(b) => {
                        let a = t.spec_get(c0.registers);
                        &&& r == Ok::<u8, EmuError>(4u8)
                        &&& c1.registers == (Register {
                            f: spec_add_flags(a, b),
                            ..t.spec_set(c0.registers, spec_add8(a, b))
                        })
                        &&& spec_same_but_regs(c0, c1)
                    },
                    None => spec_invalid(c0, c1, r),
                },
                OperandTypes::RegisterPair(tp) => match source.spec_get_word(c0) {
                    Some(w) => {
                        let a = tp.spec_get(c0.registers, c0.stack_pointer);
                        &&& r == Ok::<u8, EmuError>(8u8)
                        &&& c1.registers == (Register {
                            f: spec_add16_flags(a, w),
                            ..tp.spec_set_regs(c0.registers, spec_add16(a, w))
                        })
                        &&& c1.stack_pointer == tp.spec_set_sp(
                            c0.stack_pointer,
                            spec_add16(a, w),
                        )
                        &&& c1.program_counter == c0.program_counter
                        &&& c1.interupt_master_enable == c0.interupt_master_enable
                        &&& c1.is_halted == c0.is_halted
                        &&& c1.memory_bus == c0.memory_bus
                        &&& c1.ppu == c0.ppu
                    },
                    None => spec_invalid(c0, c1, r),
                },
                _ => spec_invalid(c0, c1, r),
            }
}

/// How the add sp handler ends, as a relation between the machine
/// before and after, the result, and the operands.
pub open spec fn spec_add_sp_post(c0: CPU, c1: CPU, r: Result<u8, EmuError>, offset: OperandTypes) -> bool {
    match offset {
                OperandTypes::R8(e) => {
                    &&& r == Ok::<u8, EmuError>(16u8)
                    &&& c1.stack_pointer == vstd::wrapping::u16_specs::wrapping_add_signed(
                        c0.stack_pointer,
                        e as i16,
                    )
                    &&& c1.registers == (Register {
                        f: spec_spoff_flags(c0.stack_pointer, e),
                        ..c0.registers
                    })
                    &&& c1.program_counter == c0.program_counter
                    &&& c1.interupt_master_enable == c0.interupt_master_enable
                    &&& c1.is_halted == c0.is_halted
                    &&& c1.memory_bus == c0.memory_bus
                    &&& c1.ppu == c0.ppu
                },
                _ => spec_invalid(c0, c1, r),
            }
}

/// How the adc handler ends, as a relation between the machine
/// before and after, the result, and the operands.
pub open spec fn spec_adc_post(c0: CPU, c1: CPU, r: Result<u8, EmuError>, target: OperandTypes, source: OperandTypes) -> bool {
    match target {
                OperandTypes::Register(t) => match source.spec_get_byte(c0) {
                    Some(b) => {
                        let a = t.spec_get(c0.registers);
                        let cin = c0.registers.f.carry;
                        &&& r == Ok::<u8, EmuError>(
                            if source is D8 {
                                8u8
                            } else {
                                4u8
                            },
                        )
                        &&& c1.registers == (Register {
                            f: spec_adc_flags(a, b, cin),
                            ..t.spec_set(c0.registers, spec_adc8(a, b, cin))
                        })
                        &&& spec_same_but_regs(c0, c1)
                    },
                    None => spec_invalid(c0, c1, r),
                },
                _ => spec_invalid(c0, c1, r),
            }
}

/// How the and handler ends, as a relation between the machine
/// before and after, the result, and the operands.
pub open spec fn spec_and_post(c0: CPU, c1: CPU, r: Result<u8, EmuError>, source: OperandTypes) -> bool {
    match source.spec_get_byte(c0) {
                Some(b) => {
                    let res = c0.registers.a & b;
                    &&& r == Ok::<u8, EmuError>(
                        if source is D8 {
                            8u8
                        } else {
                            4u8
                        },
                    )
                    &&& spec_acc_post(
                        c0,
                        c1,
                        res,
                        FlagsRegister {
                            zero: res == 0,
                            subtract: false,
                            half_carry: true,
                            carry: false,
                        },
                    )
                },
                None => spec_invalid(c0, c1, r),
            }
}

/// How the or handler ends, as a relation between the machine
/// before and after, the result, and the operands.
pub open spec fn spec_or_post(c0: CPU, c1: CPU, r: Result<u8, EmuError>, source: OperandTypes) -> bool {
    match source.spec_get_byte(c0) {
                Some(b) => {
                    let res = c0.registers.a | b;
                    &&& r == Ok::<u8, EmuError>(4u8)
                    &&& spec_acc_post(
                        c0,
                        c1,
                        res,
                        FlagsRegister {
                            zero: res == 0,
                            subtract: false,
                            half_carry: false,
                            carry: false,
                        },
                    )
                },
                None => spec_invalid(c0, c1, r),
            }
}

/// How the xor handler ends, as a relation between the machine
/// before and after, the result, and the operands.
pub open spec fn spec_xor_post(c0: CPU, c1: CPU, r: Result<u8, EmuError>, source: OperandTypes) -> bool {
    match source.spec_get_byte(c0) {
                Some(b) => {
                    let res = c0.registers.a ^ b;
                    &&& r == Ok::<u8, EmuError>(4u8)
                    &&& spec_acc_post(
                        c0,
                        c1,
                        res,
                        FlagsRegister {
                            zero: res == 0,
                            subtract: false,
                            half_carry: false,
                            carry: false,
                        },
                    )
                },
                None => spec_invalid(c0, c1, r),
            }
}

/// How the cp handler ends, as a relation between the machine
/// before and after, the result, and the operands.
pub open spec fn spec_cp_post(c0: CPU, c1: CPU, r: Result<u8, EmuError>, source: OperandTypes) -> bool {
    match source.spec_get_byte(c0) {
                Some(b) => {
                    &&& r == Ok::<u8, EmuError>(8u8)
                    &&& c1.registers == (Register {
                        f: spec_sub_flags(c0.registers.a, b),
                        ..c0.registers
                    })
                    &&& spec_same_but_regs(c0, c1)
                },
                None => spec_invalid(c0, c1, r),
            }
}

/// How the sub handler ends, as a relation between the machine
/// before and after, the result, and the operands.
pub open spec fn spec_sub_post(c0: CPU, c1: CPU, r: Result<u8, EmuError>, source: OperandTypes) -> bool {
    match source.spec_get_byte(c0) {
                Some(b) => {
                    &&& r == Ok::<u8, EmuError>(8u8)
                    &&& spec_acc_post(
                        c0,
                        c1,
                        spec_sub8(c0.registers.a, b),
                        spec_sub_flags(c0.registers.a, b),
                    )
                },
                None => spec_invalid(c0, c1, r),
            }
}

/// How the sbc handler ends, as a relation between the machine
/// before and after, the result, and the operands.
pub open spec fn spec_sbc_post(c0: CPU, c1: CPU, r: Result<u8, EmuError>, source: OperandTypes) -> bool {
    match source.spec_get_byte(c0) {
                Some(b) => {
                    let cin = c0.registers.f.carry;
                    &&& r == Ok::<u8, EmuError>(
                        if source is D8 {
                            8u8
                        } else {
                            4u8
                        },
                    )
                    &&& spec_acc_post(
                        c0,
                        c1,
                        spec_sbc8(c0.registers.a, b, cin),
                        spec_sbc_flags(c0.registers.a, b, cin),
                    )
                },
                None => spec_invalid(c0, c1, r),
            }
}

/// How the inc handler ends, as a relation between the machine
/// before and after, the result, and the operands.
pub open spec fn spec_inc_post(c0: CPU, c1: CPU, r: Result<u8, EmuError>, target: OperandTypes) -> bool {
    match target {
                OperandTypes::Register(t) => {
                    let v = t.spec_get(c0.registers);
                    &&& r == Ok::<u8, EmuError>(4u8)
                    &&& c1.registers == (Register {
                        f: FlagsRegister {
                            zero: spec_add8(v, 1) == 0,
                            subtract: false,
                            half_carry: v & 0xF == 0xF,
                            carry: c0.registers.f.carry,
                        },
                        ..t.spec_set(c0.registers, spec_add8(v, 1))
                    })
                    &&& spec_same_but_regs(c0, c1)
                },
                OperandTypes::RegisterPair(tp) => {
                    let v = tp.spec_get(c0.registers, c0.stack_pointer);
                    &&& r == Ok::<u8, EmuError>(4u8)
                    &&& c1.registers == tp.spec_set_regs(
                        c0.registers,
                        spec_add16(v, 1),
                    )
                    &&& c1.stack_pointer == tp.spec_set_sp(
                        c0.stack_pointer,
                        spec_add16(v, 1),
                    )
                    &&& c1.program_counter == c0.program_counter
                    &&& c1.interupt_master_enable == c0.interupt_master_enable
                    &&& c1.is_halted == c0.is_halted
                    &&& c1.memory_bus == c0.memory_bus
                    &&& c1.ppu == c0.ppu
                },
                OperandTypes::Memory(a) => {
                    let v = spec_read(c0.memory_bus@, a);
                    &&& (spec_is_rom(a) ==> r == Err::<u8, EmuError>(EmuError::ReadOnlyWrite(a))
                        && spec_same_cpu(c0, c1))
                    &&& (!spec_is_rom(a) ==> {
                        &&& r == Ok::<u8, EmuError>(4u8)
                        &&& c1.memory_bus@ == spec_write(
                            c0.memory_bus@,
                            a,
                            spec_add8(v, 1),
                        )
                        &&& c1.registers == (Register {
                            f: FlagsRegister {
                                zero: spec_add8(v, 1) == 0,
                                subtract: false,
                                half_carry: v & 0xF == 0xF,
                                carry: c0.registers.f.carry,
                            },
                            ..c0.registers
                        })
                        &&& spec_same_but_alu(c0, c1)
                    })
                },
                _ => spec_invalid(c0, c1, r),
            }
}

/// How the dec handler ends, as a relation between the machine
/// before and after, the result, and the operands.
pub open spec fn spec_dec_post(c0: CPU, c1: CPU, r: Result<u8, EmuError>, target: OperandTypes) -> bool {
    match target {
                OperandTypes::Register(t) => {
                    let v = t.spec_get(c0.registers);
                    &&& r == Ok::<u8, EmuError>(4u8)
                    &&& c1.registers == (Register {
                        f: FlagsRegister {
                            zero: spec_sub8(v, 1) == 0,
                            subtract: true,
                            half_carry: v & 0xF == 0,
                            carry: c0.registers.f.carry,
                        },
                        ..t.spec_set(c0.registers, spec_sub8(v, 1))
                    })
                    &&& spec_same_but_regs(c0, c1)
                },
                OperandTypes::RegisterPair(tp) => {
                    let v = tp.spec_get(c0.registers, c0.stack_pointer);
                    let res = ((v + 0xFFFF) % 0x10000) as u16;
                    &&& r == Ok::<u8, EmuError>(4u8)
                    &&& c1.registers == tp.spec_set_regs(c0.registers, res)
                    &&& c1.stack_pointer == tp.spec_set_sp(c0.stack_pointer, res)
                    &&& c1.program_counter == c0.program_counter
                    &&& c1.interupt_master_enable == c0.interupt_master_enable
                    &&& c1.is_halted == c0.is_halted
                    &&& c1.memory_bus == c0.memory_bus
                    &&& c1.ppu == c0.ppu
                },
                OperandTypes::Memory(a) => {
                    let v = spec_read(c0.memory_bus@, a);
                    &&& (spec_is_rom(a) ==> r == Err::<u8, EmuError>(EmuError::ReadOnlyWrite(a))
                        && spec_same_cpu(c0, c1))
                    &&& (!spec_is_rom(a) ==> {
                        &&& r == Ok::<u8, EmuError>(4u8)
                        &&& c1.memory_bus@ == spec_write(
                            c0.memory_bus@,
                            a,
                            spec_sub8(v, 1),
                        )
                        &&& c1.registers == (Register {
                            f: FlagsRegister {
                                zero: spec_sub8(v, 1) == 0,
                                subtract: true,
                                half_carry: v & 0xF == 0,
                                carry: c0.registers.f.carry,
                            },
                            ..c0.registers
                        })
                        &&& spec_same_but_alu(c0, c1)
                    })
                },
                _ => spec_invalid(c0, c1, r),
            }
}

/// How the rlc handler ends, as a relation between the machine
/// before and after, the result, and the operands.
pub open spec fn spec_rlc_post(c0: CPU, c1: CPU, r: Result<u8, EmuError>, target: OperandTypes) -> bool {
    ({
                let v = spec_target_byte(c0, target);
                spec_cb_post(
                    c0,
                    c1,
                    r,
                    target,
                    spec_rlc8(v),
                    spec_cb_flags(spec_rlc8(v), spec_top_bit(v)),
                )
            })
}

/// How the rrc handler ends, as a relation between the machine
/// before and after, the result, and the operands.
pub open spec fn spec_rrc_post(c0: CPU, c1: CPU, r: Result<u8, EmuError>, target: OperandTypes) -> bool {
    ({
                let v = spec_target_byte(c0, target);
                spec_cb_post(
                    c0,
                    c1,
                    r,
                    target,
                    spec_rrc8(v),
                    spec_cb_flags(spec_rrc8(v), spec_low_bit(v)),
                )
            })
}

/// How the rl handler ends, as a relation between the machine
/// before and after, the result, and the operands.
pub open spec fn spec_rl_post(c0: CPU, c1: CPU, r: Result<u8, EmuError>, target: OperandTypes) -> bool {
    ({
                let v = spec_target_byte(c0, target);
                let cin = c0.registers.f.carry;
                spec_cb_post(
                    c0,
                    c1,
                    r,
                    target,
                    spec_rl8(v, cin),
                    spec_cb_flags(spec_rl8(v, cin), spec_top_bit(v)),
                )
            })
}

/// How the rr handler ends, as a relation between the machine
/// before and after, the result, and the operands.
pub open spec fn spec_rr_post(c0: CPU, c1: CPU, r: Result<u8, EmuError>, target: OperandTypes) -> bool {
    ({
                let v = spec_target_byte(c0, target);
                let cin = c0.registers.f.carry;
                spec_cb_post(
                    c0,
                    c1,
                    r,
                    target,
                    spec_rr8(v, cin),
                    spec_cb_flags(spec_rr8(v, cin), spec_low_bit(v)),
                )
            })
}

/// How the sla handler ends, as a relation between the machine
/// before and after, the result, and the operands.
pub open spec fn spec_sla_post(c0: CPU, c1: CPU, r: Result<u8, EmuError>, target: OperandTypes) -> bool {
    ({
                let v = spec_target_byte(c0, target);
                spec_cb_post(
                    c0,
                    c1,
                    r,
                    target,
                    spec_sla8(v),
                    spec_cb_flags(spec_sla8(v), spec_top_bit(v)),
                )
            })
}

/// How the sra handler ends, as a relation between the machine
/// before and after, the result, and the operands.
pub open spec fn spec_sra_post(c0: CPU, c1: CPU, r: Result<u8, EmuError>, target: OperandTypes) -> bool {
    ({
                let v = spec_target_byte(c0, target);
                spec_cb_post(
                    c0,
                    c1,
                    r,
                    target,
                    spec_sra8(v),
                    spec_cb_flags(spec_sra8(v), spec_low_bit(v)),
                )
            })
}

/// How the srl handler ends, as a relation between the machine
/// before and after, the result, and the operands.
pub open spec fn spec_srl_post(c0: CPU, c1: CPU, r: Result<u8, EmuError>, target: OperandTypes) -> bool {
    ({
                let v = spec_target_byte(c0, target);
                spec_cb_post(
                    c0,
                    c1,
                    r,
                    target,
                    spec_srl8(v),
                    spec_cb_flags(spec_srl8(v), spec_low_bit(v)),
                )
            })
}

/// How the swap handler ends, as a relation between the machine
/// before and after, the result, and the operands.
pub open spec fn spec_swap_post(c0: CPU, c1: CPU, r: Result<u8, EmuError>, target: OperandTypes) -> bool {
    ({
                let v = spec_target_byte(c0, target);
                spec_cb_post(
                    c0,
                    c1,
                    r,
                    target,
                    spec_swap8(v),
                    spec_cb_flags(spec_swap8(v), false),
                )
            })
}

/// How the bit handler ends, as a relation between the machine
/// before and after, the result, and the operands.
pub open spec fn spec_bit_post(c0: CPU, c1: CPU, r: Result<u8, EmuError>, bit: u8, source: OperandTypes) -> bool {
    &&& bit > 7 ==> spec_invalid(c0, c1, r)
    &&& bit <= 7 ==> match source.spec_get_byte(c0) {
                    Some(v) => {
                        &&& r == Ok::<u8, EmuError>(8u8)
                        &&& c1.registers == (Register {
                            f: FlagsRegister {
                                zero: v & (1u8 << bit) == 0,
                                subtract: false,
                                half_carry: true,
                                carry: c0.registers.f.carry,
                            },
                            ..c0.registers
                        })
                        &&& spec_same_but_regs(c0, c1)
                    },
                    None => spec_invalid(c0, c1, r),
                }
}

/// How the res handler ends, as a relation between the machine
/// before and after, the result, and the operands.
pub open spec fn spec_res_post(c0: CPU, c1: CPU, r: Result<u8, EmuError>, bit: u8, target: OperandTypes) -> bool {
    &&& bit > 7 ==> spec_invalid(c0, c1, r)
    &&& bit <= 7 ==> spec_bit_store_post(
                    c0,
                    c1,
                    r,
                    target,
                    spec_target_byte(c0, target) & !(1u8 << bit),
                )
}

/// How the set handler ends, as a relation between the machine
/// before and after, the result, and the operands.
pub open spec fn spec_set_post(c0: CPU, c1: CPU, r: Result<u8, EmuError>, bit: u8, target: OperandTypes) -> bool {
    &&& (bit > 7 ==> spec_invalid(c0, c1, r))
    &&& (bit <= 7 ==> spec_bit_store_post(
        c0,
        c1,
        r,
        target,
        spec_target_byte(c0, target) | (1u8 << bit),
    ))
}

/// How the rlca handler ends, as a relation between the machine
/// before and after, the result, and the operands.
pub open spec fn spec_rlca_post(c0: CPU, c1: CPU, r: Result<u8, EmuError>) -> bool {
    &&& r == Ok::<u8, EmuError>(4u8)
    &&& spec_acc_post(
                    c0,
                    c1,
                    spec_rlc8(c0.registers.a),
                    spec_acc_rotate_flags(spec_top_bit(c0.registers.a)),
                )
}

/// How the rrca handler ends, as a relation between the machine
/// before and after, the result, and the operands.
pub open spec fn spec_rrca_post(c0: CPU, c1: CPU, r: Result<u8, EmuError>) -> bool {
    &&& r == Ok::<u8, EmuError>(4u8)
    &&& spec_acc_post(
                    c0,
                    c1,
                    spec_rrc8(c0.registers.a),
                    spec_acc_rotate_flags(spec_low_bit(c0.registers.a)),
                )
}

/// How the rla handler ends, as a relation between the machine
/// before and after, the result, and the operands.
pub open spec fn spec_rla_post(c0: CPU, c1: CPU, r: Result<u8, EmuError>) -> bool {
    &&& r == Ok::<u8, EmuError>(4u8)
    &&& spec_acc_post(
                    c0,
                    c1,
                    spec_rl8(c0.registers.a, c0.registers.f.carry),
                    spec_acc_rotate_flags(spec_top_bit(c0.registers.a)),
                )
}

/// How the rra handler ends, as a relation between the machine
/// before and after, the result, and the operands.
pub open spec fn spec_rra_post(c0: CPU, c1: CPU, r: Result<u8, EmuError>) -> bool {
    &&& r == Ok::<u8, EmuError>(4u8)
    &&& spec_acc_post(
                    c0,
                    c1,
                    spec_rr8(c0.registers.a, c0.registers.f.carry),
                    spec_acc_rotate_flags(spec_low_bit(c0.registers.a)),
                )
}

/// How the ccf handler ends, as a relation between the machine
/// before and after, the result, and the operands.
pub open spec fn spec_ccf_post(c0: CPU, c1: CPU, r: Result<u8, EmuError>) -> bool {
    &&& r == Ok::<u8, EmuError>(4u8)
    &&& c1.registers == (Register {
                    f: FlagsRegister {
                        zero: c0.registers.f.zero,
                        subtract: false,
                        half_carry: false,
                        carry: !c0.registers.f.carry,
                    },
                    ..c0.registers
                })
    &&& spec_same_but_regs(c0, c1)
}

/// How the scf handler ends, as a relation between the machine
/// before and after, the result, and the operands.
pub open spec fn spec_scf_post(c0: CPU, c1: CPU, r: Result<u8, EmuError>) -> bool {
    &&& r == Ok::<u8, EmuError>(4u8)
    &&& c1.registers == (Register {
                    f: FlagsRegister {
                        zero: c0.registers.f.zero,
                        subtract: false,
                        half_carry: false,
                        carry: true,
                    },
                    ..c0.registers
                })
    &&& spec_same_but_regs(c0, c1)
}

/// How the cpl handler ends, as a relation between the machine
/// before and after, the result, and the operands.
pub open spec fn spec_cpl_post(c0: CPU, c1: CPU, r: Result<u8, EmuError>) -> bool {
    &&& r == Ok::<u8, EmuError>(4u8)
    &&& c1.registers == (Register {
                    a: !c0.registers.a,
                    f: FlagsRegister {
                        zero: c0.registers.f.zero,
                        subtract: true,
                        half_carry: true,
                        carry: c0.registers.f.carry,
                    },
                    ..c0.registers
                })
    &&& spec_same_but_regs(c0, c1)
}

/// How the daa handler ends, as a relation between the machine
/// before and after, the result, and the operands.
pub open spec fn spec_daa_post(c0: CPU, c1: CPU, r: Result<u8, EmuError>) -> bool {
    &&& r == Ok::<u8, EmuError>(4u8)
    &&& ({
                    let a = c0.registers.a;
                    let f = c0.registers.f;
                    let res = spec_daa_result(a, f.subtract, f.half_carry, f.carry);
                    c1.registers == (Register {
                        a: res,
                        f: FlagsRegister {
                            zero: res == 0,
                            subtract: f.subtract,
                            half_carry: false,
                            carry: spec_daa_carry(a, f.subtract, f.carry),
                        },
                        ..c0.registers
                    })
                })
    &&& spec_same_but_regs(c0, c1)
}

/// How the di handler ends, as a relation between the machine
/// before and after, the result, and the operands.
pub open spec fn spec_di_post(c0: CPU, c1: CPU, r: Result<u8, EmuError>) -> bool {
    &&& r == Ok::<u8, EmuError>(4u8)
    &&& c1 == (CPU { interupt_master_enable: false, ..c0 })
}

/// How the ei handler ends, as a relation between the machine
/// before and after, the result, and the operands.
pub open spec fn spec_ei_post(c0: CPU, c1: CPU, r: Result<u8, EmuError>) -> bool {
    &&& r == Ok::<u8, EmuError>(4u8)
    &&& c1 == (CPU { interupt_master_enable: true, ..c0 })
}

/// How the halt handler ends, as a relation between the machine
/// before and after, the result, and the operands.
pub open spec fn spec_halt_post(c0: CPU, c1: CPU, r: Result<u8, EmuError>) -> bool {
    &&& r == Ok::<u8, EmuError>(4u8)
    &&& c1 == (CPU { is_halted: true, ..c0 })
}

/// How the nop handler ends, as a relation between the machine
/// before and after, the result, and the operands.
pub open spec fn spec_nop_post(c0: CPU, c1: CPU, r: Result<u8, EmuError>) -> bool {
    &&& r == Ok::<u8, EmuError>(4u8)
    &&& c1 == c0
}

/// How the ld handler ends, as a relation between the machine
/// before and after, the result, and the operands.
pub open spec fn spec_ld_post(c0: CPU, c1: CPU, r: Result<u8, EmuError>, target: OperandTypes, source: OperandTypes) -> bool {
    match source.spec_get(c0) {
                None => spec_invalid(c0, c1, r),
                Some(val) => match r {
                    Ok(c) => spec_store_post(c0, c1, Ok(()), target, val) && c
                        == spec_ld_cycles(target, source),
                    Err(e) => spec_store_post(
                        c0,
                        c1,
                        Err::<(), EmuError>(e),
                        target,
                        val,
                    ),
                },
            }
}

/// How the ldi handler ends, as a relation between the machine
/// before and after, the result, and the operands.
pub open spec fn spec_ldi_post(c0: CPU, c1: CPU, r: Result<u8, EmuError>, target: OperandTypes, source: OperandTypes) -> bool {
    spec_ld_auto_post(c0, c1, r, target, source, 1)
}

/// How the ldd handler ends, as a relation between the machine
/// before and after, the result, and the operands.
pub open spec fn spec_ldd_post(c0: CPU, c1: CPU, r: Result<u8, EmuError>, target: OperandTypes, source: OperandTypes) -> bool {
    spec_ld_auto_post(c0, c1, r, target, source, 0xFFFF)
}

/// How the ld hl sp handler ends, as a relation between the machine
/// before and after, the result, and the operands.
pub open spec fn spec_ld_hl_sp_post(c0: CPU, c1: CPU, r: Result<u8, EmuError>, offset: i8) -> bool {
    &&& r == Ok::<u8, EmuError>(12u8)
    &&& ({
                    let hl = vstd::wrapping::u16_specs::wrapping_add_signed(
                        c0.stack_pointer,
                        offset as i16,
                    );
                    c1.registers == (Register {
                        h: spec_hi(hl),
                        l: spec_lo(hl),
                        f: spec_spoff_flags(c0.stack_pointer, offset),
                        ..c0.registers
                    })
                })
    &&& spec_same_but_regs(c0, c1)
}

/// How the jr handler ends, as a relation between the machine
/// before and after, the result, and the operands.
pub open spec fn spec_jr_post(c0: CPU, c1: CPU, r: Result<u8, EmuError>, condition: Option<FlagOperand>, offset: i8) -> bool {
    ({
                let taken = match condition {
                    Some(c) => c.spec_get(c0.registers.f),
                    None => true,
                };
                &&& (taken ==> r == Ok::<u8, EmuError>(12u8) && c1 == (CPU {
                    program_counter: vstd::wrapping::u16_specs::wrapping_add_signed(
                        c0.program_counter,
                        offset as i16,
                    ),
                    ..c0
                }))
                &&& (!taken ==> r == Ok::<u8, EmuError>(8u8) && c1 == c0)
            })
}

/// How the jp handler ends, as a relation between the machine
/// before and after, the result, and the operands.
pub open spec fn spec_jp_post(c0: CPU, c1: CPU, r: Result<u8, EmuError>, condition: Option<FlagOperand>, address: OperandTypes) -> bool {
    match condition {
                Some(c) => {
                    &&& (c.spec_get(c0.registers.f) ==> match address {
                        OperandTypes::D16(w) => r == Ok::<u8, EmuError>(16u8) && c1 == (
                        CPU { program_counter: w, ..c0 }),
                        OperandTypes::A16(w) => r == Ok::<u8, EmuError>(16u8) && c1 == (
                        CPU { program_counter: w, ..c0 }),
                        _ => spec_invalid(c0, c1, r),
                    })
                    &&& (!c.spec_get(c0.registers.f) ==> r == Ok::<u8, EmuError>(12u8) && c1
                        == c0)
                },
                None => match address {
                    OperandTypes::RegisterPair(rp) => r == Ok::<u8, EmuError>(16u8) && c1
                        == (CPU {
                        program_counter: rp.spec_get(
                            c0.registers,
                            c0.stack_pointer,
                        ),
                        ..c0
                    }),
                    OperandTypes::A16(w) => r == Ok::<u8, EmuError>(16u8) && c1 == (CPU {
                        program_counter: w,
                        ..c0
                    }),
                    OperandTypes::D16(w) => r == Ok::<u8, EmuError>(16u8) && c1 == (CPU {
                        program_counter: w,
                        ..c0
                    }),
                    _ => spec_invalid(c0, c1, r),
                },
            }
}

/// How the call handler ends, as a relation between the machine
/// before and after, the result, and the operands.
pub open spec fn spec_call_handler_post(c0: CPU, c1: CPU, r: Result<u8, EmuError>, condition: Option<FlagOperand>, address: OperandTypes) -> bool {
    ({
                let taken = match condition {
                    Some(c) => c.spec_get(c0.registers.f),
                    None => true,
                };
                match address {
                    OperandTypes::D16(w) => spec_call_post(c0, c1, r, taken, w),
                    OperandTypes::A16(w) => spec_call_post(c0, c1, r, taken, w),
                    _ => if taken {
                        spec_invalid(c0, c1, r)
                    } else {
                        r == Ok::<u8, EmuError>(12u8) && c1 == c0
                    },
                }
            })
}

/// How the ret handler ends, as a relation between the machine
/// before and after, the result, and the operands.
pub open spec fn spec_ret_post(c0: CPU, c1: CPU, r: Result<u8, EmuError>, condition: Option<FlagOperand>) -> bool {
    ({
                let taken = match condition {
                    Some(c) => c.spec_get(c0.registers.f),
                    None => true,
                };
                &&& (taken ==> r == Ok::<u8, EmuError>(20u8) && c1 == (CPU {
                    program_counter: crate::bus::Bus::spec_read_word(
                        c0.memory_bus@,
                        c0.stack_pointer,
                    ),
                    stack_pointer: vstd::wrapping::u16_specs::wrapping_add(
                        c0.stack_pointer,
                        2,
                    ),
                    ..c0
                }))
                &&& (!taken ==> r == Ok::<u8, EmuError>(8u8) && c1 == c0)
            })
}

/// How the reti handler ends, as a relation between the machine
/// before and after, the result, and the operands.
pub open spec fn spec_reti_post(c0: CPU, c1: CPU, r: Result<u8, EmuError>) -> bool {
    &&& r == Ok::<u8, EmuError>(16u8)
    &&& c1 == (CPU {
                    program_counter: crate::bus::Bus::spec_read_word(
                        c0.memory_bus@,
                        c0.stack_pointer,
                    ),
                    stack_pointer: vstd::wrapping::u16_specs::wrapping_add(c0.stack_pointer, 2),
                    interupt_master_enable: true,
                    ..c0
                })
}

/// How the rst handler ends, as a relation between the machine
/// before and after, the result, and the operands.
pub open spec fn spec_rst_handler_post(c0: CPU, c1: CPU, r: Result<u8, EmuError>, address: OperandTypes) -> bool {
    match address {
                OperandTypes::D8(v) => spec_rst_post(c0, c1, r, v as u16),
                _ => spec_invalid(c0, c1, r),
            }
}

/// How the push handler ends, as a relation between the machine
/// before and after, the result, and the operands.
pub open spec fn spec_push_post(c0: CPU, c1: CPU, r: Result<u8, EmuError>, target: RegisterPair) -> bool {
    &&& crate::cpu::spec_same_but_stack(c0, c1)
    &&& c1.program_counter == c0.program_counter
    &&& c1.stack_pointer == vstd::wrapping::u16_specs::wrapping_sub(
                    c0.stack_pointer,
                    2,
                )
    &&& crate::cpu::spec_word_store_post(
                    c0.memory_bus@,
                    c1.memory_bus@,
                    vstd::wrapping::u16_specs::wrapping_sub(c0.stack_pointer, 2),
                    target.spec_get(c0.registers, c0.stack_pointer),
                    if r is Ok {
                        Ok::<(), EmuError>(())
                    } else {
                        Err::<(), EmuError>(r->Err_0)
                    },
                )
    &&& r is Ok ==> r == Ok::<u8, EmuError>(16u8)
}

/// How the pop handler ends, as a relation between the machine
/// before and after, the result, and the operands.
pub open spec fn spec_pop_post(c0: CPU, c1: CPU, r: Result<u8, EmuError>, target: RegisterPair) -> bool {
    &&& r == Ok::<u8, EmuError>(12u8)
    &&& ({
                    let value = crate::bus::Bus::spec_read_word(
                        c0.memory_bus@,
                        c0.stack_pointer,
                    );
                    &&& c1.registers == target.spec_set_regs(c0.registers, value)
                    &&& c1.stack_pointer == target.spec_set_sp(
                        vstd::wrapping::u16_specs::wrapping_add(c0.stack_pointer, 2),
                        value,
                    )
                    &&& c1.program_counter == c0.program_counter
                    &&& c1.interupt_master_enable == c0.interupt_master_enable
                    &&& c1.is_halted == c0.is_halted
                    &&& c1.memory_bus == c0.memory_bus
                    &&& c1.ppu == c0.ppu
                })
}

/// How executing any one instruction ends: the dispatch relation,
/// one arm per variant, each naming its handler's own relation. The
/// stop and prefix markers run no handler and change nothing.
pub open spec fn spec_execute_post(instr: Instruction, c0: CPU, c1: CPU, r: Result<u8, EmuError>) -> bool {
    match instr {
        Instruction::ADD(target, source) => spec_add_post(c0, c1, r, target, source),
        Instruction::ADDSP(offset) => spec_add_sp_post(c0, c1, r, offset),
        Instruction::ADC(target, source) => spec_adc_post(c0, c1, r, target, source),
        Instruction::AND(source) => spec_and_post(c0, c1, r, source),
        Instruction::BIT(bit, source) => spec_bit_post(c0, c1, r, bit, source),
        Instruction::CALL(condition, address) => spec_call_handler_post(c0, c1, r, condition, address),
        Instruction::CCF => spec_ccf_post(c0, c1, r),
        Instruction::CP(source) => spec_cp_post(c0, c1, r, source),
        Instruction::CPL => spec_cpl_post(c0, c1, r),
        Instruction::DAA => spec_daa_post(c0, c1, r),
        Instruction::DEC(target) => spec_dec_post(c0, c1, r, target),
        Instruction::DI => spec_di_post(c0, c1, r),
        Instruction::EI => spec_ei_post(c0, c1, r),
        Instruction::HALT => spec_halt_post(c0, c1, r),
        Instruction::INC(target) => spec_inc_post(c0, c1, r, target),
        Instruction::JR(condition, offset) => spec_jr_post(c0, c1, r, condition, offset),
        Instruction::JP(condition, address) => spec_jp_post(c0, c1, r, condition, address),
        Instruction::LD(target, source) => spec_ld_post(c0, c1, r, target, source),
        Instruction::LDI(target, source) => spec_ldi_post(c0, c1, r, target, source),
        Instruction::LDD(target, source) => spec_ldd_post(c0, c1, r, target, source),
        Instruction::LDHLSP(offset) => spec_ld_hl_sp_post(c0, c1, r, offset),
        Instruction::NOP => spec_nop_post(c0, c1, r),
        Instruction::OR(source) => spec_or_post(c0, c1, r, source),
        Instruction::POP(target) => spec_pop_post(c0, c1, r, target),
        Instruction::PUSH(target) => spec_push_post(c0, c1, r, target),
        Instruction::RES(bit, target) => spec_res_post(c0, c1, r, bit, target),
        Instruction::RET(condition) => spec_ret_post(c0, c1, r, condition),
        Instruction::RETI => spec_reti_post(c0, c1, r),
        Instruction::RL(target) => spec_rl_post(c0, c1, r, target),
        Instruction::RLA => spec_rla_post(c0, c1, r),
        Instruction::RLC(target) => spec_rlc_post(c0, c1, r, target),
        Instruction::RLCA => spec_rlca_post(c0, c1, r),
        Instruction::RR(target) => spec_rr_post(c0, c1, r, target),
        Instruction::RRA => spec_rra_post(c0, c1, r),
        Instruction::RRC(target) => spec_rrc_post(c0, c1, r, target),
        Instruction::RRCA => spec_rrca_post(c0, c1, r),
        Instruction::RST(address) => spec_rst_handler_post(c0, c1, r, address),
        Instruction::SBC(source) => spec_sbc_post(c0, c1, r, source),
        Instruction::SCF => spec_scf_post(c0, c1, r),
        Instruction::SET(bit, target) => spec_set_post(c0, c1, r, bit, target),
        Instruction::SLA(target) => spec_sla_post(c0, c1, r, target),
        Instruction::SRA(target) => spec_sra_post(c0, c1, r, target),
        Instruction::SRL(target) => spec_srl_post(c0, c1, r, target),
        Instruction::STOP => r == Ok::<u8, EmuError>(0u8) && c1 == c0,
        Instruction::SUB(source) => spec_sub_post(c0, c1, r, source),
        Instruction::SWAP(target) => spec_swap_post(c0, c1, r, target),
        Instruction::XOR(source) => spec_xor_post(c0, c1, r, source),
        Instruction::PREFIX => r == Ok::<u8, EmuError>(0u8) && c1 == c0,
    }
}

impl Instruction {
    /// Execute one decoded instruction against the machine and report the
    /// clock cycles it consumed. Each family's mutation and flag rule
    /// lives in its handler above; this is the total dispatch. Whatever
    /// ran, the bus keeps its shape and the pixel pipeline's own
    /// registers — scanline, mode, compare flag and locks — are untouched,
    /// so the pipeline stays in lockstep.
    #[verifier::rlimit(100)]
    #[verifier::spinoff_prover]
    pub fn execute(&self, cpu: &mut CPU) -> (r: Result<u8, EmuError>)
        requires
            old(cpu).memory_bus.wf(),
        ensures
            final(cpu).memory_bus.wf(),
            final(cpu).ppu == old(cpu).ppu,
            crate::bus::spec_ppu_regs_same(old(cpu).memory_bus@, final(cpu).memory_bus@),
            spec_execute_post(*self, *old(cpu), *final(cpu), r),
    {
        let r: Result<u8, EmuError> = match self {
            Instruction::ADD(target, source) => Instruction::add(cpu, *target, *source),
            Instruction::ADDSP(offset) => Instruction::add_sp(cpu, *offset),
            Instruction::ADC(target, source) => Instruction::adc(cpu, *target, *source),
            Instruction::AND(source) => Instruction::and(cpu, *source),
            Instruction::BIT(bit, source) => Instruction::bit(cpu, *bit, *source),
            Instruction::CALL(condition, address) => Instruction::call(cpu, *condition, *address),
            Instruction::CCF => Instruction::ccf(cpu),
            Instruction::CP(source) => Instruction::cp(cpu, *source),
            Instruction::CPL => Instruction::cpl(cpu),
            Instruction::DAA => Instruction::daa(cpu),
            Instruction::DEC(target) => Instruction::dec(cpu, *target),
            Instruction::DI => Instruction::di(cpu),
            Instruction::EI => Instruction::ei(cpu),
            Instruction::HALT => Instruction::halt(cpu),
            Instruction::INC(target) => Instruction::inc(cpu, *target),
            Instruction::JR(condition, offset) => Instruction::jr(cpu, *condition, *offset),
            Instruction::JP(condition, address) => Instruction::jp(cpu, *condition, *address),
            Instruction::LD(target, source) => Instruction::ld(cpu, *target, *source),
            Instruction::LDI(target, source) => Instruction::ldi(cpu, *target, *source),
            Instruction::LDD(target, source) => Instruction::ldd(cpu, *target, *source),
            Instruction::LDHLSP(offset) => Instruction::ld_hl_sp(cpu, *offset),
            Instruction::NOP => Instruction::nop(cpu),
            Instruction::OR(source) => Instruction::or(cpu, *source),
            Instruction::POP(target) => Instruction::pop(cpu, *target),
            Instruction::PUSH(source) => Instruction::push(cpu, *source),
            Instruction::RES(bit, target) => Instruction::res(cpu, *bit, *target),
            Instruction::RET(condition) => Instruction::ret(cpu, *condition),
            Instruction::RETI => Instruction::reti(cpu),
            Instruction::RL(target) => Instruction::rl(cpu, *target),
            Instruction::RLA => Instruction::rla(cpu),
            Instruction::RLC(target) => Instruction::rlc(cpu, *target),
            Instruction::RLCA => Instruction::rlca(cpu),
            Instruction::RR(target) => Instruction::rr(cpu, *target),
            Instruction::RRA => Instruction::rra(cpu),
            Instruction::RRC(target) => Instruction::rrc(cpu, *target),
            Instruction::RRCA => Instruction::rrca(cpu),
            Instruction::RST(address) => Instruction::rst(cpu, *address),
            Instruction::SBC(source) => Instruction::sbc(cpu, *source),
            Instruction::SCF => Instruction::scf(cpu),
            Instruction::SET(bit, target) => Instruction::set(cpu, *bit, *target),
            Instruction::SLA(target) => Instruction::sla(cpu, *target),
            Instruction::SRA(target) => Instruction::sra(cpu, *target),
            Instruction::SRL(target) => Instruction::srl(cpu, *target),
            Instruction::STOP => Ok(0),
            Instruction::SUB(source) => Instruction::sub(cpu, *source),
            Instruction::SWAP(target) => Instruction::swap(cpu, *target),
            Instruction::XOR(source) => Instruction::xor(cpu, *source),
            Instruction::PREFIX => Ok(0),
        };
        r
    }
}

/// Whether a byte is valid packed decimal: both nibbles at most nine.
pub open spec fn spec_is_bcd(b: u8) -> bool {
    b % 16 <= 9 && b / 16 <= 9
}

/// The number a packed-decimal byte denotes.
pub open spec fn spec_bcd_value(b: u8) -> int {
    10 * (b / 16) + b % 16
}

/// The decimal adjustment undoes binary addition of packed decimals:
/// adding two valid packed-decimal bytes and then adjusting the sum with
/// the flags the addition left yields the packed-decimal encoding of the
/// decimal sum, with the carry set exactly when the true sum reached one
/// hundred.
pub proof fn lemma_daa_after_add(x: u8, y: u8)
    by (bit_vector)
    requires
        x % 16 <= 9,
        x / 16 <= 9,
        y % 16 <= 9,
        y / 16 <= 9,
    ensures
        ({
            let s = spec_add8(x, y);
            let f = spec_add_flags(x, y);
            let res = spec_daa_result(s, false, f.half_carry, f.carry);
            &&& spec_bcd_value(res) == (spec_bcd_value(x) + spec_bcd_value(y)) % 100
            &&& res % 16 <= 9 && res / 16 <= 9
            &&& spec_daa_carry(s, false, f.carry) == (spec_bcd_value(x) + spec_bcd_value(y)
                >= 100)
        }),
{
}

} // verus!
