//! The decode tables: one byte at the program counter — two for the
//! prefixed family — becomes a typed instruction, with operand bytes and
//! computed addresses folded in. The tables are total; the handful of
//! bytes with no entry are the fatal illegal opcodes.
use vstd::prelude::*;

use crate::bus::spec_read;
use crate::cpu::spec_pair;
use crate::cpu::Register;
use crate::cpu::CPU;
use crate::opcodes::FlagOperand;
use crate::opcodes::Instruction;
use crate::opcodes::OperandTypes;
use crate::opcodes::RegisterName;
use crate::opcodes::RegisterPair;
use crate::EmuError;

verus! {

/// The operand the three low bits of a table byte name: the seven byte
/// registers in table order, with the HL cell in the sixth slot.
pub open spec fn spec_reg_operand(idx: u8, hl: u16) -> OperandTypes {
    if idx == 0 {
        OperandTypes::Register(RegisterName::B)
    } else if idx == 1 {
        OperandTypes::Register(RegisterName::C)
    } else if idx == 2 {
        OperandTypes::Register(RegisterName::D)
    } else if idx == 3 {
        OperandTypes::Register(RegisterName::E)
    } else if idx == 4 {
        OperandTypes::Register(RegisterName::H)
    } else if idx == 5 {
        OperandTypes::Register(RegisterName::L)
    } else if idx == 6 {
        OperandTypes::Memory(hl)
    } else {
        OperandTypes::Register(RegisterName::A)
    }
}

/// The arithmetic-logic instruction the bits 3 to 5 of a table byte name,
/// in table order, over the given operand.
pub open spec fn spec_alu_instr(op: u8, operand: OperandTypes) -> Instruction {
    if op == 0 {
        Instruction::ADD(OperandTypes::Register(RegisterName::A), operand)
    } else if op == 1 {
        Instruction::ADC(OperandTypes::Register(RegisterName::A), operand)
    } else if op == 2 {
        Instruction::SUB(operand)
    } else if op == 3 {
        Instruction::SBC(operand)
    } else if op == 4 {
        Instruction::AND(operand)
    } else if op == 5 {
        Instruction::XOR(operand)
    } else if op == 6 {
        Instruction::OR(operand)
    } else {
        Instruction::CP(operand)
    }
}

/// The prefixed table: rotates, shifts and the nibble exchange in the
/// first quarter, then the bit test, clear and set families, each spread
/// over the eight operand slots. The table is total.
pub open spec fn spec_decode_cb(b1: u8, hl: u16) -> Instruction {
    let operand = spec_reg_operand(b1 & 7, hl);
    let sel: u8 = b1 >> 3;
    if sel == 0 {
        Instruction::RLC(operand)
    } else if sel == 1 {
        Instruction::RRC(operand)
    } else if sel == 2 {
        Instruction::RL(operand)
    } else if sel == 3 {
        Instruction::RR(operand)
    } else if sel == 4 {
        Instruction::SLA(operand)
    } else if sel == 5 {
        Instruction::SRA(operand)
    } else if sel == 6 {
        Instruction::SWAP(operand)
    } else if sel == 7 {
        Instruction::SRL(operand)
    } else if sel < 16 {
        Instruction::BIT(sel & 7, operand)
    } else if sel < 24 {
        Instruction::RES(sel & 7, operand)
    } else {
        Instruction::SET(sel & 7, operand)
    }
}

/// The unprefixed table, as a function of the opcode byte, the operand
/// bytes behind it, and the register state the computed addresses draw
/// on. The bytes with no entry decode to nothing: they are the illegal
/// opcodes.
pub open spec fn spec_decode(b0: u8, d8: u8, d16: u16, regs: Register, sp: u16) -> Option<
    Instruction,
> {
    let hl = spec_pair(regs.h, regs.l);
    let bc = spec_pair(regs.b, regs.c);
    let de = spec_pair(regs.d, regs.e);
    if 0x40 <= b0 <= 0x7F && b0 != 0x76 {
        Some(
            Instruction::LD(spec_reg_operand(((b0 - 0x40) as u8) >> 3, hl), spec_reg_operand(b0 & 7, hl)),
        )
    } else if 0x80 <= b0 <= 0xBF {
        Some(spec_alu_instr((b0 >> 3) & 7, spec_reg_operand(b0 & 7, hl)))
    } else if b0 == 0x76 {
        Some(Instruction::HALT)
    } else if b0 == 0xCB {
        Some(spec_decode_cb(d8, hl))
    } else if b0 == 0x00 {
        Some(Instruction::NOP)
    } else if b0 == 0x01 {
        Some(
            Instruction::LD(
                OperandTypes::RegisterPair(RegisterPair::BC),
                OperandTypes::D16(d16),
            ),
        )
    } else if b0 == 0x02 {
        Some(Instruction::LD(OperandTypes::Memory(bc), OperandTypes::Register(RegisterName::A)))
    } else if b0 == 0x03 {
        Some(Instruction::INC(OperandTypes::RegisterPair(RegisterPair::BC)))
    } else if b0 == 0x04 {
        Some(Instruction::INC(OperandTypes::Register(RegisterName::B)))
    } else if b0 == 0x05 {
        Some(Instruction::DEC(OperandTypes::Register(RegisterName::B)))
    } else if b0 == 0x06 {
        Some(Instruction::LD(OperandTypes::Register(RegisterName::B), OperandTypes::D8(d8)))
    } else if b0 == 0x07 {
        Some(Instruction::RLCA)
    } else if b0 == 0x08 {
        Some(
            Instruction::LD(
                OperandTypes::Memory(d16),
                OperandTypes::RegisterPair(RegisterPair::SP),
            ),
        )
    } else if b0 == 0x09 {
        Some(
            Instruction::ADD(
                OperandTypes::RegisterPair(RegisterPair::HL),
                OperandTypes::RegisterPair(RegisterPair::BC),
            ),
        )
    } else if b0 == 0x0A {
        Some(Instruction::LD(OperandTypes::Register(RegisterName::A), OperandTypes::Memory(bc)))
    } else if b0 == 0x0B {
        Some(Instruction::DEC(OperandTypes::RegisterPair(RegisterPair::BC)))
    } else if b0 == 0x0C {
        Some(Instruction::INC(OperandTypes::Register(RegisterName::C)))
    } else if b0 == 0x0D {
        Some(Instruction::DEC(OperandTypes::Register(RegisterName::C)))
    } else if b0 == 0x0E {
        Some(Instruction::LD(OperandTypes::Register(RegisterName::C), OperandTypes::D8(d8)))
    } else if b0 == 0x0F {
        Some(Instruction::RRCA)
    } else if b0 == 0x10 {
        Some(Instruction::STOP)
    } else if b0 == 0x11 {
        Some(
            Instruction::LD(
                OperandTypes::RegisterPair(RegisterPair::DE),
                OperandTypes::D16(d16),
            ),
        )
    } else if b0 == 0x12 {
        Some(Instruction::LD(OperandTypes::Memory(de), OperandTypes::Register(RegisterName::A)))
    } else if b0 == 0x13 {
        Some(Instruction::INC(OperandTypes::RegisterPair(RegisterPair::DE)))
    } else if b0 == 0x14 {
        Some(Instruction::INC(OperandTypes::Register(RegisterName::D)))
    } else if b0 == 0x15 {
        Some(Instruction::DEC(OperandTypes::Register(RegisterName::D)))
    } else if b0 == 0x16 {
        Some(Instruction::LD(OperandTypes::Register(RegisterName::D), OperandTypes::D8(d8)))
    } else if b0 == 0x17 {
        Some(Instruction::RLA)
    } else if b0 == 0x18 {
        Some(Instruction::JR(None, d8 as i8))
    } else if b0 == 0x19 {
        Some(
            Instruction::ADD(
                OperandTypes::RegisterPair(RegisterPair::HL),
                OperandTypes::RegisterPair(RegisterPair::DE),
            ),
        )
    } else if b0 == 0x1A {
        Some(Instruction::LD(OperandTypes::Register(RegisterName::A), OperandTypes::Memory(de)))
    } else if b0 == 0x1B {
        Some(Instruction::DEC(OperandTypes::RegisterPair(RegisterPair::DE)))
    } else if b0 == 0x1C {
        Some(Instruction::INC(OperandTypes::Register(RegisterName::E)))
    } else if b0 == 0x1D {
        Some(Instruction::DEC(OperandTypes::Register(RegisterName::E)))
    } else if b0 == 0x1E {
        Some(Instruction::LD(OperandTypes::Register(RegisterName::E), OperandTypes::D8(d8)))
    } else if b0 == 0x1F {
        Some(Instruction::RRA)
    } else if b0 == 0x20 {
        Some(Instruction::JR(Some(FlagOperand::NZ), d8 as i8))
    } else if b0 == 0x21 {
        Some(
            Instruction::LD(
                OperandTypes::RegisterPair(RegisterPair::HL),
                OperandTypes::D16(d16),
            ),
        )
    } else if b0 == 0x22 {
        Some(Instruction::LDI(OperandTypes::Memory(hl), OperandTypes::Register(RegisterName::A)))
    } else if b0 == 0x23 {
        Some(Instruction::INC(OperandTypes::RegisterPair(RegisterPair::HL)))
    } else if b0 == 0x24 {
        Some(Instruction::INC(OperandTypes::Register(RegisterName::H)))
    } else if b0 == 0x25 {
        Some(Instruction::DEC(OperandTypes::Register(RegisterName::H)))
    } else if b0 == 0x26 {
        Some(Instruction::LD(OperandTypes::Register(RegisterName::H), OperandTypes::D8(d8)))
    } else if b0 == 0x27 {
        Some(Instruction::DAA)
    } else if b0 == 0x28 {
        Some(Instruction::JR(Some(FlagOperand::Zero), d8 as i8))
    } else if b0 == 0x29 {
        Some(
            Instruction::ADD(
                OperandTypes::RegisterPair(RegisterPair::HL),
                OperandTypes::RegisterPair(RegisterPair::HL),
            ),
        )
    } else if b0 == 0x2A {
        Some(Instruction::LDI(OperandTypes::Register(RegisterName::A), OperandTypes::Memory(hl)))
    } else if b0 == 0x2B {
        Some(Instruction::DEC(OperandTypes::RegisterPair(RegisterPair::HL)))
    } else if b0 == 0x2C {
        Some(Instruction::INC(OperandTypes::Register(RegisterName::L)))
    } else if b0 == 0x2D {
        Some(Instruction::DEC(OperandTypes::Register(RegisterName::L)))
    } else if b0 == 0x2E {
        Some(Instruction::LD(OperandTypes::Register(RegisterName::L), OperandTypes::D8(d8)))
    } else if b0 == 0x2F {
        Some(Instruction::CPL)
    } else if b0 == 0x30 {
        Some(Instruction::JR(Some(FlagOperand::NC), d8 as i8))
    } else if b0 == 0x31 {
        Some(
            Instruction::LD(
                OperandTypes::RegisterPair(RegisterPair::SP),
                OperandTypes::D16(d16),
            ),
        )
    } else if b0 == 0x32 {
        Some(Instruction::LDD(OperandTypes::Memory(hl), OperandTypes::Register(RegisterName::A)))
    } else if b0 == 0x33 {
        Some(Instruction::INC(OperandTypes::RegisterPair(RegisterPair::SP)))
    } else if b0 == 0x34 {
        Some(Instruction::INC(OperandTypes::Memory(hl)))
    } else if b0 == 0x35 {
        Some(Instruction::DEC(OperandTypes::Memory(hl)))
    } else if b0 == 0x36 {
        Some(Instruction::LD(OperandTypes::Memory(hl), OperandTypes::D8(d8)))
    } else if b0 == 0x37 {
        Some(Instruction::SCF)
    } else if b0 == 0x38 {
        Some(Instruction::JR(Some(FlagOperand::Carry), d8 as i8))
    } else if b0 == 0x39 {
        Some(
            Instruction::ADD(
                OperandTypes::RegisterPair(RegisterPair::HL),
                OperandTypes::RegisterPair(RegisterPair::SP),
            ),
        )
    } else if b0 == 0x3A {
        Some(Instruction::LDD(OperandTypes::Register(RegisterName::A), OperandTypes::Memory(hl)))
    } else if b0 == 0x3B {
        Some(Instruction::DEC(OperandTypes::RegisterPair(RegisterPair::SP)))
    } else if b0 == 0x3C {
        Some(Instruction::INC(OperandTypes::Register(RegisterName::A)))
    } else if b0 == 0x3D {
        Some(Instruction::DEC(OperandTypes::Register(RegisterName::A)))
    } else if b0 == 0x3E {
        Some(Instruction::LD(OperandTypes::Register(RegisterName::A), OperandTypes::D8(d8)))
    } else if b0 == 0x3F {
        Some(Instruction::CCF)
    } else if b0 == 0xC0 {
        Some(Instruction::RET(Some(FlagOperand::NZ)))
    } else if b0 == 0xC1 {
        Some(Instruction::POP(RegisterPair::BC))
    } else if b0 == 0xC2 {
        Some(Instruction::JP(Some(FlagOperand::NZ), OperandTypes::D16(d16)))
    } else if b0 == 0xC3 {
        Some(Instruction::JP(None, OperandTypes::A16(d16)))
    } else if b0 == 0xC4 {
        Some(Instruction::CALL(Some(FlagOperand::NZ), OperandTypes::D16(d16)))
    } else if b0 == 0xC5 {
        Some(Instruction::PUSH(RegisterPair::BC))
    } else if b0 == 0xC6 {
        Some(Instruction::ADD(OperandTypes::Register(RegisterName::A), OperandTypes::D8(d8)))
    } else if b0 == 0xC7 {
        Some(Instruction::RST(OperandTypes::D8(0x00)))
    } else if b0 == 0xC8 {
        Some(Instruction::RET(Some(FlagOperand::Zero)))
    } else if b0 == 0xC9 {
        Some(Instruction::RET(None))
    } else if b0 == 0xCA {
        Some(Instruction::JP(Some(FlagOperand::Zero), OperandTypes::D16(d16)))
    } else if b0 == 0xCC {
        Some(Instruction::CALL(Some(FlagOperand::Zero), OperandTypes::D16(d16)))
    } else if b0 == 0xCD {
        Some(Instruction::CALL(None, OperandTypes::D16(d16)))
    } else if b0 == 0xCE {
        Some(Instruction::ADC(OperandTypes::Register(RegisterName::A), OperandTypes::D8(d8)))
    } else if b0 == 0xCF {
        Some(Instruction::RST(OperandTypes::D8(0x08)))
    } else if b0 == 0xD0 {
        Some(Instruction::RET(Some(FlagOperand::NC)))
    } else if b0 == 0xD1 {
        Some(Instruction::POP(RegisterPair::DE))
    } else if b0 == 0xD2 {
        Some(Instruction::JP(Some(FlagOperand::NC), OperandTypes::D16(d16)))
    } else if b0 == 0xD4 {
        Some(Instruction::CALL(Some(FlagOperand::NC), OperandTypes::D16(d16)))
    } else if b0 == 0xD5 {
        Some(Instruction::PUSH(RegisterPair::DE))
    } else if b0 == 0xD6 {
        Some(Instruction::SUB(OperandTypes::D8(d8)))
    } else if b0 == 0xD7 {
        Some(Instruction::RST(OperandTypes::D8(0x10)))
    } else if b0 == 0xD8 {
        Some(Instruction::RET(Some(FlagOperand::Carry)))
    } else if b0 == 0xD9 {
        Some(Instruction::RETI)
    } else if b0 == 0xDA {
        Some(Instruction::JP(Some(FlagOperand::Carry), OperandTypes::D16(d16)))
    } else if b0 == 0xDC {
        Some(Instruction::CALL(Some(FlagOperand::Carry), OperandTypes::D16(d16)))
    } else if b0 == 0xDE {
        Some(Instruction::SBC(OperandTypes::D8(d8)))
    } else if b0 == 0xDF {
        Some(Instruction::RST(OperandTypes::D8(0x18)))
    } else if b0 == 0xE0 {
        Some(
            Instruction::LD(
                OperandTypes::Memory((0xFF00 + d8 as u16) as u16),
                OperandTypes::Register(RegisterName::A),
            ),
        )
    } else if b0 == 0xE1 {
        Some(Instruction::POP(RegisterPair::HL))
    } else if b0 == 0xE2 {
        Some(
            Instruction::LD(
                OperandTypes::Memory((0xFF00 + regs.c as u16) as u16),
                OperandTypes::Register(RegisterName::A),
            ),
        )
    } else if b0 == 0xE5 {
        Some(Instruction::PUSH(RegisterPair::HL))
    } else if b0 == 0xE6 {
        Some(Instruction::AND(OperandTypes::D8(d8)))
    } else if b0 == 0xE7 {
        Some(Instruction::RST(OperandTypes::D8(0x20)))
    } else if b0 == 0xE8 {
        Some(Instruction::ADDSP(OperandTypes::R8(d8 as i8)))
    } else if b0 == 0xE9 {
        Some(Instruction::JP(None, OperandTypes::RegisterPair(RegisterPair::HL)))
    } else if b0 == 0xEA {
        Some(Instruction::LD(OperandTypes::Memory(d16), OperandTypes::Register(RegisterName::A)))
    } else if b0 == 0xEE {
        Some(Instruction::XOR(OperandTypes::D8(d8)))
    } else if b0 == 0xEF {
        Some(Instruction::RST(OperandTypes::D8(0x28)))
    } else if b0 == 0xF0 {
        Some(
            Instruction::LD(
                OperandTypes::Register(RegisterName::A),
                OperandTypes::Memory((0xFF00 + d8 as u16) as u16),
            ),
        )
    } else if b0 == 0xF1 {
        Some(Instruction::POP(RegisterPair::AF))
    } else if b0 == 0xF2 {
        Some(
            Instruction::LD(
                OperandTypes::Register(RegisterName::A),
                OperandTypes::Memory((0xFF00 + regs.c as u16) as u16),
            ),
        )
    } else if b0 == 0xF3 {
        Some(Instruction::DI)
    } else if b0 == 0xF5 {
        Some(Instruction::PUSH(RegisterPair::AF))
    } else if b0 == 0xF6 {
        Some(Instruction::OR(OperandTypes::D8(d8)))
    } else if b0 == 0xF7 {
        Some(Instruction::RST(OperandTypes::D8(0x30)))
    } else if b0 == 0xF8 {
        Some(Instruction::LDHLSP(d8 as i8))
    } else if b0 == 0xF9 {
        Some(
            Instruction::LD(
                OperandTypes::RegisterPair(RegisterPair::SP),
                OperandTypes::RegisterPair(RegisterPair::HL),
            ),
        )
    } else if b0 == 0xFA {
        Some(Instruction::LD(OperandTypes::Register(RegisterName::A), OperandTypes::Memory(d16)))
    } else if b0 == 0xFB {
        Some(Instruction::EI)
    } else if b0 == 0xFE {
        Some(Instruction::CP(OperandTypes::D8(d8)))
    } else if b0 == 0xFF {
        Some(Instruction::RST(OperandTypes::D8(0x38)))
    } else {
        None
    }
}

/// How many bytes each unprefixed opcode occupies: three for the word
/// immediates, two for the byte immediates and the prefixed family, one
/// for everything else.
pub open spec fn spec_nb_bytes(opcode: u8) -> u8 {
    if opcode == 0x01 || opcode == 0x08 || opcode == 0x11 || opcode == 0x21 || opcode == 0x31
        || opcode == 0xC2 || opcode == 0xC3 || opcode == 0xC4 || opcode == 0xCA || opcode == 0xCC
        || opcode == 0xCD || opcode == 0xD2 || opcode == 0xD4 || opcode == 0xDA || opcode == 0xDC
        || opcode == 0xEA || opcode == 0xFA {
        3u8
    } else if opcode == 0x06 || opcode == 0x0E || opcode == 0x10 || opcode == 0x16 || opcode
        == 0x18 || opcode == 0x1E || opcode == 0x20 || opcode == 0x26 || opcode == 0x28 || opcode
        == 0x2E || opcode == 0x30 || opcode == 0x36 || opcode == 0x38 || opcode == 0x3E || opcode
        == 0xC6 || opcode == 0xCB || opcode == 0xCE || opcode == 0xD6 || opcode == 0xDE || opcode
        == 0xE0 || opcode == 0xE2 || opcode == 0xE6 || opcode == 0xE8 || opcode == 0xEE || opcode
        == 0xF0 || opcode == 0xF2 || opcode == 0xF6 || opcode == 0xF8 || opcode == 0xFE {
        2u8
    } else {
        1u8
    }
}

impl Instruction {
    fn reg_operand(idx: u8, hl: u16) -> (r: OperandTypes)
        ensures
            r == spec_reg_operand(idx, hl),
    {
        if idx == 0 {
            OperandTypes::Register(RegisterName::B)
        } else if idx == 1 {
            OperandTypes::Register(RegisterName::C)
        } else if idx == 2 {
            OperandTypes::Register(RegisterName::D)
        } else if idx == 3 {
            OperandTypes::Register(RegisterName::E)
        } else if idx == 4 {
            OperandTypes::Register(RegisterName::H)
        } else if idx == 5 {
            OperandTypes::Register(RegisterName::L)
        } else if idx == 6 {
            OperandTypes::Memory(hl)
        } else {
            OperandTypes::Register(RegisterName::A)
        }
    }

    fn alu_instr(op: u8, operand: OperandTypes) -> (r: Instruction)
        ensures
            r == spec_alu_instr(op, operand),
    {
        if op == 0 {
            Instruction::ADD(OperandTypes::Register(RegisterName::A), operand)
        } else if op == 1 {
            Instruction::ADC(OperandTypes::Register(RegisterName::A), operand)
        } else if op == 2 {
            Instruction::SUB(operand)
        } else if op == 3 {
            Instruction::SBC(operand)
        } else if op == 4 {
            Instruction::AND(operand)
        } else if op == 5 {
            Instruction::XOR(operand)
        } else if op == 6 {
            Instruction::OR(operand)
        } else {
            Instruction::CP(operand)
        }
    }

    fn decode_cb(b1: u8, hl: u16) -> (r: Instruction)
        ensures
            r == spec_decode_cb(b1, hl),
    {
        let operand = Instruction::reg_operand(b1 & 7, hl);
        let sel: u8 = b1 >> 3;
        if sel == 0 {
            Instruction::RLC(operand)
        } else if sel == 1 {
            Instruction::RRC(operand)
        } else if sel == 2 {
            Instruction::RL(operand)
        } else if sel == 3 {
            Instruction::RR(operand)
        } else if sel == 4 {
            Instruction::SLA(operand)
        } else if sel == 5 {
            Instruction::SRA(operand)
        } else if sel == 6 {
            Instruction::SWAP(operand)
        } else if sel == 7 {
            Instruction::SRL(operand)
        } else if sel < 16 {
            Instruction::BIT(sel & 7, operand)
        } else if sel < 24 {
            Instruction::RES(sel & 7, operand)
        } else {
            Instruction::SET(sel & 7, operand)
        }
    }

    /// Decode the instruction whose first byte sits at the given address:
    /// the operand bytes behind it and the addresses the registers imply
    /// are folded into the result. A byte with no table entry is the
    /// fatal illegal opcode.
    pub fn from_byte(cpu: &CPU, pc: u16) -> (r: Result<Instruction, EmuError>)
        requires
            cpu.memory_bus.wf(),
        ensures
            ({
                let b0 = spec_read(cpu.memory_bus@, pc);
                let d8 = spec_read(cpu.memory_bus@, crate::wrapping_inc(pc));
                let d16 = spec_pair(
                    spec_read(cpu.memory_bus@, crate::wrapping_inc(crate::wrapping_inc(pc))),
                    d8,
                );
                match spec_decode(b0, d8, d16, cpu.registers, cpu.stack_pointer) {
                    Some(i) => r == Ok::<Instruction, EmuError>(i),
                    None => r == Err::<Instruction, EmuError>(EmuError::IllegalOpcode(b0)),
                }
            }),
    {
        let b0: u8 = cpu.memory_bus.read_byte(pc);
        let d8: u8 = cpu.memory_bus.read_byte(pc.wrapping_add(1));
        let d16: u16 = cpu.memory_bus.read_word(pc.wrapping_add(1));
        Instruction::decode(b0, d8, d16, &cpu.registers, cpu.stack_pointer)
    }

    /// The pure decode over the fetched bytes and the register state.
    #[verifier::rlimit(100)]
    #[verifier::spinoff_prover]
    fn decode(b0: u8, d8: u8, d16: u16, regs: &Register, sp: u16) -> (r: Result<
        Instruction,
        EmuError,
    >)
        ensures
            match spec_decode(b0, d8, d16, *regs, sp) {
                Some(i) => r == Ok::<Instruction, EmuError>(i),
                None => r == Err::<Instruction, EmuError>(EmuError::IllegalOpcode(b0)),
            },
    {
        let hl: u16 = (regs.h as u16) << 8 | (regs.l as u16);
        let bc: u16 = (regs.b as u16) << 8 | (regs.c as u16);
        let de: u16 = (regs.d as u16) << 8 | (regs.e as u16);
        if 0x40 <= b0 && b0 <= 0x7F && b0 != 0x76 {
            Ok(
                Instruction::LD(
                    Instruction::reg_operand((b0 - 0x40) >> 3, hl),
                    Instruction::reg_operand(b0 & 7, hl),
                ),
            )
        } else if 0x80 <= b0 && b0 <= 0xBF {
            Ok(Instruction::alu_instr((b0 >> 3) & 7, Instruction::reg_operand(b0 & 7, hl)))
        } else if b0 == 0x76 {
            Ok(Instruction::HALT)
        } else if b0 == 0xCB {
            Ok(Instruction::decode_cb(d8, hl))
        } else if b0 == 0x00 {
            Ok(Instruction::NOP)
        } else if b0 == 0x01 {
            Ok(
                Instruction::LD(
                    OperandTypes::RegisterPair(RegisterPair::BC),
                    OperandTypes::D16(d16),
                ),
            )
        } else if b0 == 0x02 {
            Ok(Instruction::LD(OperandTypes::Memory(bc), OperandTypes::Register(RegisterName::A)))
        } else if b0 == 0x03 {
            Ok(Instruction::INC(OperandTypes::RegisterPair(RegisterPair::BC)))
        } else if b0 == 0x04 {
            Ok(Instruction::INC(OperandTypes::Register(RegisterName::B)))
        } else if b0 == 0x05 {
            Ok(Instruction::DEC(OperandTypes::Register(RegisterName::B)))
        } else if b0 == 0x06 {
            Ok(Instruction::LD(OperandTypes::Register(RegisterName::B), OperandTypes::D8(d8)))
        } else if b0 == 0x07 {
            Ok(Instruction::RLCA)
        } else if b0 == 0x08 {
            Ok(
                Instruction::LD(
                    OperandTypes::Memory(d16),
                    OperandTypes::RegisterPair(RegisterPair::SP),
                ),
            )
        } else if b0 == 0x09 {
            Ok(
                Instruction::ADD(
                    OperandTypes::RegisterPair(RegisterPair::HL),
                    OperandTypes::RegisterPair(RegisterPair::BC),
                ),
            )
        } else if b0 == 0x0A {
            Ok(Instruction::LD(OperandTypes::Register(RegisterName::A), OperandTypes::Memory(bc)))
        } else if b0 == 0x0B {
            Ok(Instruction::DEC(OperandTypes::RegisterPair(RegisterPair::BC)))
        } else if b0 == 0x0C {
            Ok(Instruction::INC(OperandTypes::Register(RegisterName::C)))
        } else if b0 == 0x0D {
            Ok(Instruction::DEC(OperandTypes::Register(RegisterName::C)))
        } else if b0 == 0x0E {
            Ok(Instruction::LD(OperandTypes::Register(RegisterName::C), OperandTypes::D8(d8)))
        } else if b0 == 0x0F {
            Ok(Instruction::RRCA)
        } else if b0 == 0x10 {
            Ok(Instruction::STOP)
        } else if b0 == 0x11 {
            Ok(
                Instruction::LD(
                    OperandTypes::RegisterPair(RegisterPair::DE),
                    OperandTypes::D16(d16),
                ),
            )
        } else if b0 == 0x12 {
            Ok(Instruction::LD(OperandTypes::Memory(de), OperandTypes::Register(RegisterName::A)))
        } else if b0 == 0x13 {
            Ok(Instruction::INC(OperandTypes::RegisterPair(RegisterPair::DE)))
        } else if b0 == 0x14 {
            Ok(Instruction::INC(OperandTypes::Register(RegisterName::D)))
        } else if b0 == 0x15 {
            Ok(Instruction::DEC(OperandTypes::Register(RegisterName::D)))
        } else if b0 == 0x16 {
            Ok(Instruction::LD(OperandTypes::Register(RegisterName::D), OperandTypes::D8(d8)))
        } else if b0 == 0x17 {
            Ok(Instruction::RLA)
        } else if b0 == 0x18 {
            Ok(Instruction::JR(None, d8 as i8))
        } else if b0 == 0x19 {
            Ok(
                Instruction::ADD(
                    OperandTypes::RegisterPair(RegisterPair::HL),
                    OperandTypes::RegisterPair(RegisterPair::DE),
                ),
            )
        } else if b0 == 0x1A {
            Ok(Instruction::LD(OperandTypes::Register(RegisterName::A), OperandTypes::Memory(de)))
        } else if b0 == 0x1B {
            Ok(Instruction::DEC(OperandTypes::RegisterPair(RegisterPair::DE)))
        } else if b0 == 0x1C {
            Ok(Instruction::INC(OperandTypes::Register(RegisterName::E)))
        } else if b0 == 0x1D {
            Ok(Instruction::DEC(OperandTypes::Register(RegisterName::E)))
        } else if b0 == 0x1E {
            Ok(Instruction::LD(OperandTypes::Register(RegisterName::E), OperandTypes::D8(d8)))
        } else if b0 == 0x1F {
            Ok(Instruction::RRA)
        } else if b0 == 0x20 {
            Ok(Instruction::JR(Some(FlagOperand::NZ), d8 as i8))
        } else if b0 == 0x21 {
            Ok(
                Instruction::LD(
                    OperandTypes::RegisterPair(RegisterPair::HL),
                    OperandTypes::D16(d16),
                ),
            )
        } else if b0 == 0x22 {
            Ok(Instruction::LDI(OperandTypes::Memory(hl), OperandTypes::Register(RegisterName::A)))
        } else if b0 == 0x23 {
            Ok(Instruction::INC(OperandTypes::RegisterPair(RegisterPair::HL)))
        } else if b0 == 0x24 {
            Ok(Instruction::INC(OperandTypes::Register(RegisterName::H)))
        } else if b0 == 0x25 {
            Ok(Instruction::DEC(OperandTypes::Register(RegisterName::H)))
        } else if b0 == 0x26 {
            Ok(Instruction::LD(OperandTypes::Register(RegisterName::H), OperandTypes::D8(d8)))
        } else if b0 == 0x27 {
            Ok(Instruction::DAA)
        } else if b0 == 0x28 {
            Ok(Instruction::JR(Some(FlagOperand::Zero), d8 as i8))
        } else if b0 == 0x29 {
            Ok(
                Instruction::ADD(
                    OperandTypes::RegisterPair(RegisterPair::HL),
                    OperandTypes::RegisterPair(RegisterPair::HL),
                ),
            )
        } else if b0 == 0x2A {
            Ok(Instruction::LDI(OperandTypes::Register(RegisterName::A), OperandTypes::Memory(hl)))
        } else if b0 == 0x2B {
            Ok(Instruction::DEC(OperandTypes::RegisterPair(RegisterPair::HL)))
        } else if b0 == 0x2C {
            Ok(Instruction::INC(OperandTypes::Register(RegisterName::L)))
        } else if b0 == 0x2D {
            Ok(Instruction::DEC(OperandTypes::Register(RegisterName::L)))
        } else if b0 == 0x2E {
            Ok(Instruction::LD(OperandTypes::Register(RegisterName::L), OperandTypes::D8(d8)))
        } else if b0 == 0x2F {
            Ok(Instruction::CPL)
        } else if b0 == 0x30 {
            Ok(Instruction::JR(Some(FlagOperand::NC), d8 as i8))
        } else if b0 == 0x31 {
            Ok(
                Instruction::LD(
                    OperandTypes::RegisterPair(RegisterPair::SP),
                    OperandTypes::D16(d16),
                ),
            )
        } else if b0 == 0x32 {
            Ok(Instruction::LDD(OperandTypes::Memory(hl), OperandTypes::Register(RegisterName::A)))
        } else if b0 == 0x33 {
            Ok(Instruction::INC(OperandTypes::RegisterPair(RegisterPair::SP)))
        } else if b0 == 0x34 {
            Ok(Instruction::INC(OperandTypes::Memory(hl)))
        } else if b0 == 0x35 {
            Ok(Instruction::DEC(OperandTypes::Memory(hl)))
        } else if b0 == 0x36 {
            Ok(Instruction::LD(OperandTypes::Memory(hl), OperandTypes::D8(d8)))
        } else if b0 == 0x37 {
            Ok(Instruction::SCF)
        } else if b0 == 0x38 {
            Ok(Instruction::JR(Some(FlagOperand::Carry), d8 as i8))
        } else if b0 == 0x39 {
            Ok(
                Instruction::ADD(
                    OperandTypes::RegisterPair(RegisterPair::HL),
                    OperandTypes::RegisterPair(RegisterPair::SP),
                ),
            )
        } else if b0 == 0x3A {
            Ok(Instruction::LDD(OperandTypes::Register(RegisterName::A), OperandTypes::Memory(hl)))
        } else if b0 == 0x3B {
            Ok(Instruction::DEC(OperandTypes::RegisterPair(RegisterPair::SP)))
        } else if b0 == 0x3C {
            Ok(Instruction::INC(OperandTypes::Register(RegisterName::A)))
        } else if b0 == 0x3D {
            Ok(Instruction::DEC(OperandTypes::Register(RegisterName::A)))
        } else if b0 == 0x3E {
            Ok(Instruction::LD(OperandTypes::Register(RegisterName::A), OperandTypes::D8(d8)))
        } else if b0 == 0x3F {
            Ok(Instruction::CCF)
        } else if b0 == 0xC0 {
            Ok(Instruction::RET(Some(FlagOperand::NZ)))
        } else if b0 == 0xC1 {
            Ok(Instruction::POP(RegisterPair::BC))
        } else if b0 == 0xC2 {
            Ok(Instruction::JP(Some(FlagOperand::NZ), OperandTypes::D16(d16)))
        } else if b0 == 0xC3 {
            Ok(Instruction::JP(None, OperandTypes::A16(d16)))
        } else if b0 == 0xC4 {
            Ok(Instruction::CALL(Some(FlagOperand::NZ), OperandTypes::D16(d16)))
        } else if b0 == 0xC5 {
            Ok(Instruction::PUSH(RegisterPair::BC))
        } else if b0 == 0xC6 {
            Ok(Instruction::ADD(OperandTypes::Register(RegisterName::A), OperandTypes::D8(d8)))
        } else if b0 == 0xC7 {
            Ok(Instruction::RST(OperandTypes::D8(0x00)))
        } else if b0 == 0xC8 {
            Ok(Instruction::RET(Some(FlagOperand::Zero)))
        } else if b0 == 0xC9 {
            Ok(Instruction::RET(None))
        } else if b0 == 0xCA {
            Ok(Instruction::JP(Some(FlagOperand::Zero), OperandTypes::D16(d16)))
        } else if b0 == 0xCC {
            Ok(Instruction::CALL(Some(FlagOperand::Zero), OperandTypes::D16(d16)))
        } else if b0 == 0xCD {
            Ok(Instruction::CALL(None, OperandTypes::D16(d16)))
        } else if b0 == 0xCE {
            Ok(Instruction::ADC(OperandTypes::Register(RegisterName::A), OperandTypes::D8(d8)))
        } else if b0 == 0xCF {
            Ok(Instruction::RST(OperandTypes::D8(0x08)))
        } else if b0 == 0xD0 {
            Ok(Instruction::RET(Some(FlagOperand::NC)))
        } else if b0 == 0xD1 {
            Ok(Instruction::POP(RegisterPair::DE))
        } else if b0 == 0xD2 {
            Ok(Instruction::JP(Some(FlagOperand::NC), OperandTypes::D16(d16)))
        } else if b0 == 0xD4 {
            Ok(Instruction::CALL(Some(FlagOperand::NC), OperandTypes::D16(d16)))
        } else if b0 == 0xD5 {
            Ok(Instruction::PUSH(RegisterPair::DE))
        } else if b0 == 0xD6 {
            Ok(Instruction::SUB(OperandTypes::D8(d8)))
        } else if b0 == 0xD7 {
            Ok(Instruction::RST(OperandTypes::D8(0x10)))
        } else if b0 == 0xD8 {
            Ok(Instruction::RET(Some(FlagOperand::Carry)))
        } else if b0 == 0xD9 {
            Ok(Instruction::RETI)
        } else if b0 == 0xDA {
            Ok(Instruction::JP(Some(FlagOperand::Carry), OperandTypes::D16(d16)))
        } else if b0 == 0xDC {
            Ok(Instruction::CALL(Some(FlagOperand::Carry), OperandTypes::D16(d16)))
        } else if b0 == 0xDE {
            Ok(Instruction::SBC(OperandTypes::D8(d8)))
        } else if b0 == 0xDF {
            Ok(Instruction::RST(OperandTypes::D8(0x18)))
        } else if b0 == 0xE0 {
            Ok(
                Instruction::LD(
                    OperandTypes::Memory((0xFF00 + d8 as u16) as u16),
                    OperandTypes::Register(RegisterName::A),
                ),
            )
        } else if b0 == 0xE1 {
            Ok(Instruction::POP(RegisterPair::HL))
        } else if b0 == 0xE2 {
            Ok(
                Instruction::LD(
                    OperandTypes::Memory((0xFF00 + regs.c as u16) as u16),
                    OperandTypes::Register(RegisterName::A),
                ),
            )
        } else if b0 == 0xE5 {
            Ok(Instruction::PUSH(RegisterPair::HL))
        } else if b0 == 0xE6 {
            Ok(Instruction::AND(OperandTypes::D8(d8)))
        } else if b0 == 0xE7 {
            Ok(Instruction::RST(OperandTypes::D8(0x20)))
        } else if b0 == 0xE8 {
            Ok(Instruction::ADDSP(OperandTypes::R8(d8 as i8)))
        } else if b0 == 0xE9 {
            Ok(Instruction::JP(None, OperandTypes::RegisterPair(RegisterPair::HL)))
        } else if b0 == 0xEA {
            Ok(Instruction::LD(OperandTypes::Memory(d16), OperandTypes::Register(RegisterName::A)))
        } else if b0 == 0xEE {
            Ok(Instruction::XOR(OperandTypes::D8(d8)))
        } else if b0 == 0xEF {
            Ok(Instruction::RST(OperandTypes::D8(0x28)))
        } else if b0 == 0xF0 {
            Ok(
                Instruction::LD(
                    OperandTypes::Register(RegisterName::A),
                    OperandTypes::Memory((0xFF00 + d8 as u16) as u16),
                ),
            )
        } else if b0 == 0xF1 {
            Ok(Instruction::POP(RegisterPair::AF))
        } else if b0 == 0xF2 {
            Ok(
                Instruction::LD(
                    OperandTypes::Register(RegisterName::A),
                    OperandTypes::Memory((0xFF00 + regs.c as u16) as u16),
                ),
            )
        } else if b0 == 0xF3 {
            Ok(Instruction::DI)
        } else if b0 == 0xF5 {
            Ok(Instruction::PUSH(RegisterPair::AF))
        } else if b0 == 0xF6 {
            Ok(Instruction::OR(OperandTypes::D8(d8)))
        } else if b0 == 0xF7 {
            Ok(Instruction::RST(OperandTypes::D8(0x30)))
        } else if b0 == 0xF8 {
            Ok(Instruction::LDHLSP(d8 as i8))
        } else if b0 == 0xF9 {
            Ok(
                Instruction::LD(
                    OperandTypes::RegisterPair(RegisterPair::SP),
                    OperandTypes::RegisterPair(RegisterPair::HL),
                ),
            )
        } else if b0 == 0xFA {
            Ok(Instruction::LD(OperandTypes::Register(RegisterName::A), OperandTypes::Memory(d16)))
        } else if b0 == 0xFB {
            Ok(Instruction::EI)
        } else if b0 == 0xFE {
            Ok(Instruction::CP(OperandTypes::D8(d8)))
        } else if b0 == 0xFF {
            Ok(Instruction::RST(OperandTypes::D8(0x38)))
        } else {
            Err(EmuError::IllegalOpcode(b0))
        }
    }

    /// How many bytes the instruction at an opcode occupies; the counter
    /// advances by this much before the instruction executes.
    pub fn nb_bytes(opcode: u8) -> (r: u8)
        ensures
            r == spec_nb_bytes(opcode),
            1 <= r <= 3,
    {
        match opcode {
            0x01 | 0x08 | 0x11 | 0x21 | 0x31 | 0xC2 | 0xC3 | 0xC4 | 0xCA | 0xCC | 0xCD | 0xD2
                | 0xD4 | 0xDA | 0xDC | 0xEA | 0xFA => 3,
            0x06 | 0x0E | 0x10 | 0x16 | 0x18 | 0x1E | 0x20 | 0x26 | 0x28 | 0x2E | 0x30 | 0x36
                | 0x38 | 0x3E | 0xC6 | 0xCB | 0xCE | 0xD6 | 0xDE | 0xE0 | 0xE2 | 0xE6 | 0xE8
                | 0xEE | 0xF0 | 0xF2 | 0xF6 | 0xF8 | 0xFE => 2,
            _ => 1,
        }
    }
}

} // verus!
