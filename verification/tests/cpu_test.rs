//! The instruction-level tests: each builds a machine, loads a tiny
//! program image at address zero, runs it to the stop instruction, and
//! checks registers, flags and memory.
use gb::cpu::CPU;

fn machine(program: &[u8]) -> CPU {
    let mut cpu = CPU::new();
    cpu.memory_bus.load_boot_rom(program);
    cpu
}

#[test]
fn add_c() {
    let mut cpu = machine(&[0x81, 0x10]);
    cpu.registers.a = 0x01;
    cpu.registers.c = 0x02;
    cpu.program_counter = 0x0000;
    cpu.run().unwrap();
    assert_eq!(cpu.registers.a, 0x03);
    assert_eq!(cpu.program_counter, 0x0002);
}

#[test]
fn addhl_bc() {
    let mut cpu = machine(&[0x09, 0x10]);
    cpu.registers.set_hl(0x01);
    cpu.registers.set_bc(0x02);
    cpu.program_counter = 0x0000;
    cpu.run().unwrap();
    assert_eq!(cpu.registers.get_hl(), 0x03);
    assert_eq!(cpu.program_counter, 0x0002);
}

#[test]
fn add_d8() {
    let mut cpu = machine(&[0xC6, 0x02, 0x10]);
    cpu.registers.a = 0x01;
    cpu.program_counter = 0x0000;
    cpu.run().unwrap();
    assert_eq!(cpu.registers.a, 0x03);
    assert_eq!(cpu.program_counter, 0x0003);
}

#[test]
fn adc_b() {
    let mut cpu = machine(&[0x88, 0x10]);
    cpu.registers.a = 0x01;
    cpu.registers.b = 0x02;
    cpu.registers.f.carry = true;
    cpu.program_counter = 0x0000;
    cpu.run().unwrap();
    assert_eq!(cpu.registers.a, 0x04);
    assert_eq!(cpu.program_counter, 0x0002);
}

#[test]
fn adc_d8() {
    let mut cpu = machine(&[0xCE, 0x02, 0x10]);
    cpu.registers.a = 0x01;
    cpu.registers.f.carry = true;
    cpu.program_counter = 0x0000;
    cpu.run().unwrap();
    assert_eq!(cpu.registers.a, 0x04);
    assert_eq!(cpu.program_counter, 0x0003);
}

#[test]
fn and_d() {
    let mut cpu = machine(&[0xA2, 0x10]);
    cpu.registers.a = 0b0000_0011;
    cpu.registers.d = 0b0000_0010;
    cpu.program_counter = 0x0000;
    cpu.run().unwrap();
    assert_eq!(cpu.registers.a, 0b0000_0010);
    assert_eq!(cpu.program_counter, 0x0002);
}

#[test]
fn and_d8() {
    let mut cpu = machine(&[0xE6, 0x02, 0x10]);
    cpu.registers.a = 0x01;
    cpu.program_counter = 0x0000;
    cpu.run().unwrap();
    assert_eq!(cpu.registers.a, 0x00);
    assert_eq!(cpu.program_counter, 0x0003);
}

#[test]
fn ccf() {
    let mut cpu = machine(&[0x3F, 0x10]);
    cpu.registers.f.carry = false;
    cpu.registers.f.half_carry = true;
    cpu.registers.f.subtract = true;
    cpu.program_counter = 0x0000;
    cpu.run().unwrap();
    assert_eq!(cpu.registers.f.carry, true);
    assert_eq!(cpu.registers.f.half_carry, false);
    assert_eq!(cpu.registers.f.subtract, false);
    assert_eq!(cpu.program_counter, 0x0002);
}

#[test]
fn cp() {
    let mut cpu = machine(&[0xB8, 0x10]);
    cpu.registers.a = 0x01;
    cpu.registers.b = 0x02;
    cpu.program_counter = 0x0000;
    cpu.run().unwrap();
    assert_eq!(cpu.registers.a, 0x01);
    assert_eq!(cpu.program_counter, 0x0002);
}

#[test]
fn cp_hl() {
    let mut cpu = machine(&[0xBE, 0x10]);
    cpu.registers.a = 0x01;
    cpu.registers.set_hl(0x02);
    cpu.run().unwrap();
    assert_eq!(cpu.registers.a, 0x01);
    assert_eq!(cpu.program_counter, 0x0002);
}

#[test]
fn cp_zero() {
    let mut cpu = machine(&[0xB8, 0x10]);
    cpu.registers.a = 0x01;
    cpu.registers.b = 0x01;
    cpu.program_counter = 0x0000;
    cpu.run().unwrap();
    assert_eq!(cpu.registers.a, 0x01);
    assert_eq!(cpu.registers.f.zero, true);
    assert_eq!(cpu.program_counter, 0x0002);
}

#[test]
fn cpl() {
    let mut cpu = machine(&[0x2F, 0x10]);
    cpu.registers.a = 0x00;
    cpu.program_counter = 0x0000;
    cpu.run().unwrap();
    assert_eq!(cpu.registers.a, 0xFF);
    assert_eq!(cpu.registers.f.subtract, true);
    assert_eq!(cpu.registers.f.half_carry, true);
    assert_eq!(cpu.program_counter, 0x0002);
}

#[test]
fn inc() {
    let mut cpu = machine(&[0x3C, 0x10]);
    cpu.registers.a = 0x00;
    cpu.program_counter = 0x0000;
    cpu.run().unwrap();
    assert_eq!(cpu.registers.a, 0b0000_0001);
    assert_eq!(cpu.registers.f.zero, false);
    assert_eq!(cpu.registers.f.subtract, false);
    assert_eq!(cpu.registers.f.half_carry, false);
    assert_eq!(cpu.program_counter, 0x0002);
}

#[test]
fn dec() {
    let mut cpu = machine(&[0x3D, 0x10]);
    cpu.registers.a = 0x01;
    cpu.program_counter = 0x0000;
    cpu.run().unwrap();
    assert_eq!(cpu.registers.a, 0x00);
    assert_eq!(cpu.registers.f.zero, true);
    assert_eq!(cpu.registers.f.subtract, true);
    assert_eq!(cpu.registers.f.half_carry, false);
    assert_eq!(cpu.program_counter, 0x0002);
}

#[test]
fn dec_zero() {
    let mut cpu = machine(&[0x3D, 0x10]);
    cpu.registers.a = 0x01;
    cpu.program_counter = 0x0000;
    cpu.run().unwrap();
    assert_eq!(cpu.registers.a, 0x00);
    assert_eq!(cpu.registers.f.zero, true);
    assert_eq!(cpu.registers.f.subtract, true);
    assert_eq!(cpu.registers.f.half_carry, false);
    assert_eq!(cpu.program_counter, 0x0002);
}

// A rotate through carry fills the vacated bit from the old carry: with
// the carry set, rotating 0x80 left leaves 0x01 and the carry set again.
#[test]
fn rl() {
    let mut cpu = machine(&[0xCB, 0x10, 0x10]);
    cpu.registers.b = 0b1000_0000;
    cpu.registers.f.carry = true;
    cpu.program_counter = 0x0000;
    cpu.run().unwrap();
    assert_eq!(cpu.registers.b, 0b0000_0001);
    assert_eq!(cpu.registers.f.zero, false);
    assert_eq!(cpu.registers.f.subtract, false);
    assert_eq!(cpu.registers.f.half_carry, false);
    assert_eq!(cpu.registers.f.carry, true);
}

#[test]
fn rr() {
    let mut cpu = machine(&[0xCB, 0x18, 0x10]);
    cpu.registers.b = 0b0000_0001;
    cpu.registers.f.carry = true;
    cpu.program_counter = 0x0000;
    cpu.run().unwrap();
    assert_eq!(cpu.registers.b, 0b1000_0000);
    assert_eq!(cpu.registers.f.zero, false);
    assert_eq!(cpu.registers.f.subtract, false);
    assert_eq!(cpu.registers.f.half_carry, false);
    assert_eq!(cpu.registers.f.carry, true);
}

#[test]
fn rla() {
    let mut cpu = machine(&[0x17, 0x10]);
    cpu.registers.a = 0b1000_0000;
    cpu.registers.f.carry = true;
    cpu.program_counter = 0x0000;
    cpu.run().unwrap();
    assert_eq!(cpu.registers.a, 0b0000_0001);
    assert_eq!(cpu.registers.f.zero, false);
    assert_eq!(cpu.registers.f.subtract, false);
    assert_eq!(cpu.registers.f.half_carry, false);
    assert_eq!(cpu.registers.f.carry, true);
}

#[test]
fn rra() {
    let mut cpu = machine(&[0x1F, 0x10]);
    cpu.registers.a = 0b0000_0001;
    cpu.registers.f.carry = true;
    cpu.program_counter = 0x0000;
    cpu.run().unwrap();
    assert_eq!(cpu.registers.a, 0b1000_0000);
    assert_eq!(cpu.registers.f.zero, false);
    assert_eq!(cpu.registers.f.subtract, false);
    assert_eq!(cpu.registers.f.half_carry, false);
    assert_eq!(cpu.registers.f.carry, true);
}

// A wrapping rotate feeds the wrapped bit into the carry: rotating 0x80
// left gives 0x01 with the carry set from the old top bit.
#[test]
fn rlc() {
    let mut cpu = machine(&[0xCB, 0x00, 0x10]);
    cpu.registers.b = 0b1000_0000;
    cpu.registers.f.carry = true;
    cpu.program_counter = 0x0000;
    cpu.run().unwrap();
    assert_eq!(cpu.registers.b, 0b0000_0001);
    assert_eq!(cpu.registers.f.zero, false);
    assert_eq!(cpu.registers.f.subtract, false);
    assert_eq!(cpu.registers.f.half_carry, false);
    assert_eq!(cpu.registers.f.carry, true);
}

#[test]
fn rrc() {
    let mut cpu = machine(&[0xCB, 0x08, 0x10]);
    cpu.registers.b = 0b0000_0001;
    cpu.registers.f.carry = true;
    cpu.program_counter = 0x0000;
    cpu.run().unwrap();
    assert_eq!(cpu.registers.b, 0b1000_0000);
    assert_eq!(cpu.registers.f.zero, false);
    assert_eq!(cpu.registers.f.subtract, false);
    assert_eq!(cpu.registers.f.half_carry, false);
    assert_eq!(cpu.registers.f.carry, true);
}

#[test]
fn rrca() {
    let mut cpu = machine(&[0x0F, 0x10]);
    cpu.registers.a = 0b0000_0001;
    cpu.registers.f.carry = true;
    cpu.program_counter = 0x0000;
    cpu.run().unwrap();
    assert_eq!(cpu.registers.a, 0b1000_0000);
    assert_eq!(cpu.registers.f.zero, false);
    assert_eq!(cpu.registers.f.subtract, false);
    assert_eq!(cpu.registers.f.half_carry, false);
    assert_eq!(cpu.registers.f.carry, true);
}

#[test]
fn scf() {
    let mut cpu = machine(&[0x37, 0x10]);
    cpu.registers.f.carry = false;
    cpu.registers.f.half_carry = true;
    cpu.registers.f.subtract = true;
    cpu.program_counter = 0x0000;
    cpu.run().unwrap();
    assert_eq!(cpu.registers.f.carry, true);
    assert_eq!(cpu.registers.f.half_carry, false);
    assert_eq!(cpu.registers.f.subtract, false);
    assert_eq!(cpu.program_counter, 0x0002);
}

#[test]
fn sla() {
    let mut cpu = machine(&[0xCB, 0x20, 0x10]);
    cpu.registers.b = 0b1000_0000;
    cpu.registers.f.carry = true;
    cpu.program_counter = 0x0000;
    cpu.run().unwrap();
    assert_eq!(cpu.registers.b, 0b0000_0000);
    assert_eq!(cpu.registers.f.zero, true);
    assert_eq!(cpu.registers.f.subtract, false);
    assert_eq!(cpu.registers.f.half_carry, false);
    assert_eq!(cpu.registers.f.carry, true);
}

#[test]
fn sra() {
    let mut cpu = machine(&[0xCB, 0x28, 0x10]);
    cpu.registers.b = 0b0000_0001;
    cpu.registers.f.carry = true;
    cpu.program_counter = 0x0000;
    cpu.run().unwrap();
    assert_eq!(cpu.registers.b, 0b0000_0000);
    assert_eq!(cpu.registers.f.zero, true);
    assert_eq!(cpu.registers.f.subtract, false);
    assert_eq!(cpu.registers.f.half_carry, false);
    assert_eq!(cpu.registers.f.carry, true);
}

#[test]
fn bit_6_h() {
    let mut cpu = machine(&[0xCB, 0x74, 0x10]);
    cpu.registers.h = 0b0100_0000;
    cpu.program_counter = 0x0000;
    cpu.run().unwrap();
    assert_eq!(cpu.registers.f.zero, false);
    assert_eq!(cpu.program_counter, 0x0003);
}

#[test]
fn bit_4_b() {
    let mut cpu = machine(&[0xCB, 0x40, 0x10]);
    cpu.registers.h = 0b0100_0000;
    cpu.program_counter = 0x0000;
    cpu.run().unwrap();
    assert_eq!(cpu.registers.f.zero, true);
    assert_eq!(cpu.program_counter, 0x0003);
}

// The call target is encoded low byte first; the pushed return address
// is the counter just past the three-byte call.
#[test]
fn call_nn() {
    let mut program = vec![0u8; 0x12];
    program[0x00] = 0xCD;
    program[0x01] = 0x10;
    program[0x02] = 0x00;
    program[0x10] = 0x10;
    let mut cpu = machine(&program);
    cpu.program_counter = 0x0000;
    cpu.run().unwrap();
    assert_eq!(cpu.program_counter, 0x0011);
    assert_eq!(cpu.stack_pointer, 0xFFFD);
    assert_eq!(cpu.memory_bus.read_word(0xFFFD), 0x0003);
}

#[test]
fn interupt_joy() {
    let mut program = vec![0u8; 0x62];
    program[0x00] = 0xFB;
    program[0x60] = 0x10;
    program[0x61] = 0x10;
    let mut cpu = machine(&program);
    cpu.program_counter = 0x0000;
    cpu.interupt_master_enable = true;
    cpu.memory_bus.interupt_flags.joypad = true;
    cpu.memory_bus.interupt_enable.joypad = true;
    cpu.run().unwrap();
    assert_eq!(cpu.program_counter, 0x0061);
    assert_eq!(cpu.interupt_master_enable, true);
}

#[test]
fn pop_bc() {
    let mut cpu = machine(&[0xD5, 0xC1, 0x10]);
    cpu.registers.set_de(0x0003);
    cpu.program_counter = 0x0000;
    cpu.run().unwrap();
    assert_eq!(cpu.registers.get_bc(), 0x0003);
}

#[test]
fn push_bc() {
    let mut cpu = machine(&[0xC5, 0x10]);
    cpu.registers.set_bc(0x0003);
    cpu.program_counter = 0x0000;
    cpu.run().unwrap();
    assert_eq!(cpu.memory_bus.read_word(0xFFFD), 0x0003);
}

#[test]
fn set_2_c() {
    let mut cpu = machine(&[0xCB, 0xD1, 0x10]);
    cpu.registers.c = 0x03;
    cpu.program_counter = 0x0000;
    cpu.run().unwrap();
    assert_eq!(cpu.registers.c, 0x07);
    assert_eq!(cpu.program_counter, 0x0003);
}

// The rewritten cell lives in work RAM: a store into the read-only space
// would be the fatal case the write contract names.
#[test]
fn set_3_hl() {
    let mut cpu = machine(&[0xCB, 0xDE, 0x10]);
    cpu.registers.set_hl(0xC003);
    cpu.program_counter = 0x0000;
    cpu.memory_bus.write_byte(0xC003, 0b0000_0011).unwrap();
    cpu.run().unwrap();
    assert_eq!(cpu.memory_bus.read_byte(cpu.registers.get_hl()), 0b0000_1011);
    assert_eq!(cpu.program_counter, 0x0003);
}

#[test]
fn res_1_c() {
    let mut cpu = machine(&[0xCB, 0x89, 0x10]);
    cpu.registers.c = 0x03;
    cpu.program_counter = 0x0000;
    cpu.run().unwrap();
    assert_eq!(cpu.registers.c, 0x01);
    assert_eq!(cpu.program_counter, 0x0003);
}

#[test]
fn res_2_hl() {
    let mut cpu = machine(&[0xCB, 0x96, 0x10]);
    cpu.registers.set_hl(0xC007);
    cpu.program_counter = 0x0000;
    cpu.memory_bus.write_byte(0xC007, 0b0000_0111).unwrap();
    cpu.run().unwrap();
    assert_eq!(cpu.memory_bus.read_byte(cpu.registers.get_hl()), 0b0000_0011);
    assert_eq!(cpu.program_counter, 0x0003);
}

#[test]
fn xor_c() {
    let mut cpu = machine(&[0xA9, 0x10]);
    cpu.registers.a = 0b0000_0011;
    cpu.registers.c = 0b0000_0010;
    cpu.program_counter = 0x0000;
    cpu.run().unwrap();
    assert_eq!(cpu.registers.a, 0b0000_0001);
    assert_eq!(cpu.program_counter, 0x0002);
}

#[test]
fn or_c() {
    let mut cpu = machine(&[0xA9, 0x10]);
    cpu.registers.a = 0b0000_0001;
    cpu.registers.c = 0b0000_0010;
    cpu.program_counter = 0x0000;
    cpu.run().unwrap();
    assert_eq!(cpu.registers.a, 0b0000_0011);
    assert_eq!(cpu.program_counter, 0x0002);
}

#[test]
fn swap() {
    let mut cpu = machine(&[0xCB, 0x30, 0x10]);
    cpu.registers.b = 0b0000_0001;
    cpu.program_counter = 0x0000;
    cpu.run().unwrap();
    assert_eq!(cpu.registers.b, 0b0001_0000);
    assert_eq!(cpu.program_counter, 0x0003);
}

#[test]
fn sbc() {
    let mut cpu = machine(&[0x98, 0x10]);
    cpu.registers.a = 0x02;
    cpu.registers.b = 0x01;
    cpu.registers.f.carry = true;
    cpu.program_counter = 0x0000;
    cpu.run().unwrap();
    assert_eq!(cpu.registers.a, 0x00);
    assert_eq!(cpu.program_counter, 0x0002);
}

#[test]
fn sub() {
    let mut cpu = machine(&[0x90, 0x10]);
    cpu.registers.a = 0x02;
    cpu.registers.b = 0x01;
    cpu.program_counter = 0x0000;
    cpu.run().unwrap();
    assert_eq!(cpu.registers.a, 0x01);
    assert_eq!(cpu.program_counter, 0x0002);
}

#[test]
fn srl() {
    let mut cpu = machine(&[0xCB, 0x38, 0x10]);
    cpu.registers.b = 0b0000_0001;
    cpu.registers.f.carry = true;
    cpu.program_counter = 0x0000;
    cpu.run().unwrap();
    assert_eq!(cpu.registers.b, 0b0000_0000);
    assert_eq!(cpu.registers.f.zero, true);
    assert_eq!(cpu.registers.f.subtract, false);
    assert_eq!(cpu.registers.f.half_carry, false);
    assert_eq!(cpu.registers.f.carry, true);
}

#[test]
fn daa() {
    let mut cpu = machine(&[0x27, 0x10]);
    cpu.registers.a = 0xC0;
    cpu.registers.f.carry = true;
    cpu.program_counter = 0x0000;
    cpu.run().unwrap();
    assert_eq!(cpu.registers.a, 0x20);
    assert_eq!(cpu.registers.f.zero, false);
    assert_eq!(cpu.registers.f.subtract, false);
    assert_eq!(cpu.registers.f.half_carry, false);
    assert_eq!(cpu.registers.f.carry, true);
}
