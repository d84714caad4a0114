//! Machine-level scenarios: interrupt priority, the timer overflow, the
//! pixel pipeline's frame timing and lock windows, the stack round
//! trips, decimal adjustment, and the bus's region map and fatal cases.
use gb::bus::MemoryLockOwner;
use gb::cpu::CPU;
use gb::interrupts::InteruptFlags;
use gb::EmuError;

fn machine(program: &[u8]) -> CPU {
    let mut cpu = CPU::new();
    cpu.memory_bus.load_boot_rom(program);
    cpu
}

// With both the first and the last priority source pending and enabled,
// one step dispatches to the first source's vector alone: its pending
// bit clears and the last source's stays set.
#[test]
fn interrupt_priority_v_blank_first() {
    let mut program = vec![0u8; 0x41];
    program[0x40] = 0x10;
    let mut cpu = machine(&program);
    cpu.interupt_master_enable = true;
    cpu.memory_bus.interupt_flags.v_blank = true;
    cpu.memory_bus.interupt_flags.joypad = true;
    cpu.memory_bus.interupt_enable.v_blank = true;
    cpu.memory_bus.interupt_enable.joypad = true;
    let outcome = cpu.step().unwrap();
    assert_eq!(outcome, None);
    assert_eq!(cpu.program_counter, 0x0041);
    assert_eq!(cpu.memory_bus.interupt_flags.v_blank, false);
    assert_eq!(cpu.memory_bus.interupt_flags.joypad, true);
    assert_eq!(cpu.stack_pointer, 0xFFFD);
    assert_eq!(cpu.memory_bus.read_word(0xFFFD), 0x0000);
}

// The timer at its fastest selectable rate steps every sixteen cycles:
// four four-cycle instructions cross one boundary, the counter reloads
// from its modulo register and the timer interrupt flag rises.
#[test]
fn timer_overflow_reloads_and_interrupts() {
    let mut cpu = machine(&[0x00, 0x00, 0x00, 0x00, 0x10]);
    cpu.memory_bus.write_byte(0xFF07, 0b0000_0101).unwrap();
    cpu.memory_bus.write_byte(0xFF05, 0xFF).unwrap();
    cpu.memory_bus.write_byte(0xFF06, 0x05).unwrap();
    cpu.run().unwrap();
    assert_eq!(cpu.memory_bus.read_byte(0xFF05), 0x05);
    assert_eq!(cpu.memory_bus.interupt_flags.timer, true);
}

// A full frame is 456 dots over 154 scanlines: stepping the pipeline
// exactly that far from power-on returns it to line zero in sprite
// scan, having raised the V-blank flag exactly once along the way.
#[test]
fn frame_returns_to_start_with_one_v_blank() {
    let mut cpu = CPU::new();
    let mut v_blanks: u32 = 0;
    let mut i: u32 = 0;
    while i < 456 * 154 {
        cpu.ppu.step(&mut cpu.memory_bus);
        if cpu.memory_bus.interupt_flags.v_blank {
            v_blanks += 1;
            cpu.memory_bus.interupt_flags.v_blank = false;
        }
        i += 1;
    }
    assert_eq!(v_blanks, 1);
    assert_eq!(cpu.memory_bus.io.lcd.status.ly, 0);
    assert_eq!(cpu.ppu.dot_counter, 0);
    assert_eq!(cpu.memory_bus.io.lcd.status.stat.ppu_mode, 2);
}

// From the entry into sprite scan until horizontal blank, the sprite
// table is opaque to the processor: reads give 0xFF and writes land
// nowhere; once horizontal blank releases the locks the cell reads back.
#[test]
fn oam_lock_window_blocks_processor() {
    let mut cpu = CPU::new();
    assert_eq!(cpu.memory_bus.io.lcd.status.stat.ppu_mode, 2);
    assert_eq!(cpu.memory_bus.current_owner, MemoryLockOwner::CPU);
    assert_eq!(cpu.memory_bus.read_byte(0xFE05), 0xFF);
    cpu.memory_bus.write_byte(0xFE05, 0x12).unwrap();
    let mut i: u32 = 0;
    while i < 100 {
        cpu.ppu.step(&mut cpu.memory_bus);
        i += 1;
    }
    assert_eq!(cpu.memory_bus.io.lcd.status.stat.ppu_mode, 3);
    cpu.memory_bus.current_owner = MemoryLockOwner::CPU;
    assert_eq!(cpu.memory_bus.read_byte(0xFE05), 0xFF);
    while i < 300 {
        cpu.ppu.step(&mut cpu.memory_bus);
        i += 1;
    }
    assert_eq!(cpu.memory_bus.io.lcd.status.stat.ppu_mode, 0);
    cpu.memory_bus.current_owner = MemoryLockOwner::CPU;
    assert_eq!(cpu.memory_bus.read_byte(0xFE05), 0x00);
}

// During pixel transfer the video RAM is opaque to the processor too.
#[test]
fn transfer_blocks_processor_vram() {
    let mut cpu = CPU::new();
    let mut i: u32 = 0;
    while i < 100 {
        cpu.ppu.step(&mut cpu.memory_bus);
        i += 1;
    }
    assert_eq!(cpu.memory_bus.io.lcd.status.stat.ppu_mode, 3);
    cpu.memory_bus.current_owner = MemoryLockOwner::CPU;
    assert_eq!(cpu.memory_bus.read_byte(0x8000), 0xFF);
    cpu.memory_bus.write_byte(0x8000, 0x55).unwrap();
    while i < 300 {
        cpu.ppu.step(&mut cpu.memory_bus);
        i += 1;
    }
    cpu.memory_bus.current_owner = MemoryLockOwner::CPU;
    assert_eq!(cpu.memory_bus.read_byte(0x8000), 0x00);
}

// A push followed by a pop of the same pair hands the word back and
// restores the stack pointer.
#[test]
fn push_pop_same_pair_round_trip() {
    let mut cpu = machine(&[0xC5, 0xC1, 0x10]);
    cpu.registers.set_bc(0x1234);
    cpu.run().unwrap();
    assert_eq!(cpu.registers.get_bc(), 0x1234);
    assert_eq!(cpu.stack_pointer, 0xFFFF);
}

// A call followed by a return lands the counter right after the call
// and restores the stack pointer.
#[test]
fn call_then_ret_round_trip() {
    let mut program = vec![0u8; 0x11];
    program[0x00] = 0xCD;
    program[0x01] = 0x10;
    program[0x02] = 0x00;
    program[0x03] = 0x10;
    program[0x10] = 0xC9;
    let mut cpu = machine(&program);
    cpu.run().unwrap();
    assert_eq!(cpu.program_counter, 0x0004);
    assert_eq!(cpu.stack_pointer, 0xFFFF);
}

// Adding two packed-decimal bytes and adjusting yields the decimal sum:
// 0x19 + 0x28 carries across the low nibble into 0x47.
#[test]
fn daa_adjusts_decimal_sum() {
    let mut cpu = machine(&[0xC6, 0x28, 0x27, 0x10]);
    cpu.registers.a = 0x19;
    cpu.run().unwrap();
    assert_eq!(cpu.registers.a, 0x47);
    assert_eq!(cpu.registers.f.carry, false);
    assert_eq!(cpu.registers.f.zero, false);
}

// The byte addition sets the accumulator to the wrapped sum with zero,
// carry and half-carry each from its own rule.
#[test]
fn add_sets_all_four_flags() {
    let mut cpu = machine(&[0x81, 0x10]);
    cpu.registers.a = 0x0F;
    cpu.registers.c = 0x01;
    cpu.run().unwrap();
    assert_eq!(cpu.registers.a, 0x10);
    assert_eq!(cpu.registers.f.zero, false);
    assert_eq!(cpu.registers.f.half_carry, true);
    assert_eq!(cpu.registers.f.carry, false);
    assert_eq!(cpu.registers.f.subtract, false);
}

// The word addition takes its half-carry across bit 11: two copies of
// 0x0800 carry out of the low twelve bits and nowhere else.
#[test]
fn add_hl_half_carry_crosses_bit_eleven() {
    let mut cpu = machine(&[0x09, 0x10]);
    cpu.registers.set_hl(0x0800);
    cpu.registers.set_bc(0x0800);
    cpu.run().unwrap();
    assert_eq!(cpu.registers.get_hl(), 0x1000);
    assert_eq!(cpu.registers.f.half_carry, true);
    assert_eq!(cpu.registers.f.carry, false);
    assert_eq!(cpu.registers.f.subtract, false);
}

#[test]
fn add_wraps_and_carries() {
    let mut cpu = machine(&[0x81, 0x10]);
    cpu.registers.a = 0xFF;
    cpu.registers.c = 0x01;
    cpu.run().unwrap();
    assert_eq!(cpu.registers.a, 0x00);
    assert_eq!(cpu.registers.f.zero, true);
    assert_eq!(cpu.registers.f.half_carry, true);
    assert_eq!(cpu.registers.f.carry, true);
}

// A store into the read-only space is the fatal error, naming the
// address; a byte with no table entry is the fatal illegal opcode.
#[test]
fn write_to_rom_is_fatal() {
    let mut cpu = CPU::new();
    assert_eq!(
        cpu.memory_bus.write_byte(0x0000, 0x12),
        Err(EmuError::ReadOnlyWrite(0x0000))
    );
}

#[test]
fn illegal_opcode_is_fatal() {
    let mut cpu = machine(&[0xD3]);
    assert_eq!(cpu.run(), Err(EmuError::IllegalOpcode(0xD3)));
}

// The echo of work RAM shows the same bytes two pages up.
#[test]
fn echo_ram_mirrors_work_ram() {
    let mut cpu = CPU::new();
    cpu.memory_bus.write_byte(0xC123, 0xAB).unwrap();
    assert_eq!(cpu.memory_bus.read_byte(0xE123), 0xAB);
    cpu.memory_bus.write_byte(0xE200, 0xCD).unwrap();
    assert_eq!(cpu.memory_bus.read_byte(0xC200), 0xCD);
}

// The unusable gap reads zero and swallows writes.
#[test]
fn unusable_gap_reads_zero() {
    let mut cpu = CPU::new();
    cpu.memory_bus.write_byte(0xFEA5, 0x77).unwrap();
    assert_eq!(cpu.memory_bus.read_byte(0xFEA5), 0x00);
}

// Writing the divider address clears the visible byte.
#[test]
fn div_write_resets_counter() {
    let mut cpu = CPU::new();
    cpu.memory_bus.io.timer_divider.div = 0x55;
    cpu.memory_bus.write_byte(0xFF04, 0x99).unwrap();
    assert_eq!(cpu.memory_bus.read_byte(0xFF04), 0x00);
}

// The flag register's low nibble always reads zero: storing a full word
// into AF keeps only the four flag bits.
#[test]
fn af_low_nibble_reads_zero() {
    let mut cpu = CPU::new();
    cpu.registers.set_af(0xFFFF);
    assert_eq!(cpu.registers.get_af(), 0xFFF0);
    assert_eq!(cpu.registers.f.zero, true);
    assert_eq!(cpu.registers.f.carry, true);
}

// The interrupt flag byte keeps only its five flag bits.
#[test]
fn interrupt_flag_byte_masks_high_bits() {
    let f = InteruptFlags::from_byte(0xFF);
    assert_eq!(f.to_byte(), 0x1F);
    assert_eq!(f.v_blank, true);
    assert_eq!(f.joypad, true);
}

// Loading a cartridge image places it after the reserved first page.
#[test]
fn load_rom_lands_after_first_page() {
    let mut cpu = CPU::new();
    cpu.memory_bus.load_rom(&[0xAA, 0xBB]);
    assert_eq!(cpu.memory_bus.read_byte(0x0100), 0xAA);
    assert_eq!(cpu.memory_bus.read_byte(0x0101), 0xBB);
    assert_eq!(cpu.memory_bus.read_byte(0x0000), 0x00);
}

// Writing the copy trigger latches a source page and the pipeline's
// stepping moves the bytes into the sprite table, one per dot, once the
// table is unlocked for reading the result back.
#[test]
fn dma_copies_a_page_into_the_sprite_table() {
    let mut cpu = CPU::new();
    cpu.memory_bus.write_byte(0xC000, 0x44).unwrap();
    cpu.memory_bus.write_byte(0xC001, 0x55).unwrap();
    cpu.memory_bus.write_byte(0xFF46, 0xC0).unwrap();
    let mut i: u32 = 0;
    while i < 300 {
        cpu.ppu.step(&mut cpu.memory_bus);
        i += 1;
    }
    assert_eq!(cpu.memory_bus.io.lcd.status.stat.ppu_mode, 0);
    cpu.memory_bus.current_owner = MemoryLockOwner::CPU;
    assert_eq!(cpu.memory_bus.read_byte(0xFE00), 0x44);
    assert_eq!(cpu.memory_bus.read_byte(0xFE01), 0x55);
}

// The halted processor reports zero cycles and stays put until an
// enabled source becomes pending.
#[test]
fn halt_waits_for_a_pending_interrupt() {
    let mut cpu = machine(&[0x76, 0x10]);
    cpu.step().unwrap();
    assert_eq!(cpu.program_counter, 0x0001);
    assert_eq!(cpu.is_halted, true);
    let idle = cpu.step().unwrap();
    assert_eq!(idle, Some(0));
    assert_eq!(cpu.program_counter, 0x0001);
    cpu.memory_bus.interupt_enable.timer = true;
    cpu.memory_bus.interupt_flags.timer = true;
    let outcome = cpu.step().unwrap();
    assert_eq!(outcome, None);
    assert_eq!(cpu.is_halted, false);
    assert_eq!(cpu.program_counter, 0x0002);
}
