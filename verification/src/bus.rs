//! The memory bus: one byte-addressable space multiplexing the ROM banks,
//! video RAM, external and work RAM, the sprite table, the register blocks
//! and high RAM, with the region locks that arbitrate between the processor
//! and the pixel pipeline.
use vstd::prelude::*;

use crate::audio::AudioRegisters;
use crate::audio::WavePattern;
use crate::interrupts::InteruptFlags;
use crate::joypad::JoypadRegister;
use crate::lcd::LCDRegisters;
use crate::oam::Oam;
use crate::oam::OamView;
use crate::serial::SerialRegister;
use crate::time_divider::TimeDividerRegister;
use crate::EmuError;

verus! {

/// Which side is driving the bus, or holds a region lock.
#[derive(Debug, Clone, Copy, PartialEq, Eq, Structural)]
pub enum MemoryLockOwner {
    CPU,
    PPU,
}

/// The per-region lock slots. A region with an owner is opaque to the
/// processor; the pixel pipeline always sees through its own lock.
#[derive(Debug, Clone, Copy)]
pub struct MemoryLock {
    pub vram: Option<MemoryLockOwner>,
    pub oam: Option<MemoryLockOwner>,
}

/// The two lockable regions.
#[derive(Debug, Clone, Copy, PartialEq, Eq, Structural)]
pub enum MemoryRegion {
    VRAM,
    OAM,
}

/// The memory-mapped register blocks gathered in the I/O page.
#[derive(Debug, Clone)]
pub struct IORegisters {
    pub joypad: JoypadRegister,
    pub serial: SerialRegister,
    pub timer_divider: TimeDividerRegister,
    pub audio: AudioRegisters,
    pub wave_pattern: WavePattern,
    pub lcd: LCDRegisters,
    pub vram_bank: u8,
    pub disable_boot_rom: u8,
    pub wram_bank: u8,
}

/// What the I/O page looks like in specifications.
#[verifier::ext_equal]
pub struct IORegistersView {
    pub joypad: JoypadRegister,
    pub serial: SerialRegister,
    pub timer_divider: TimeDividerRegister,
    pub audio: AudioRegisters,
    pub wave_pattern: Seq<u8>,
    pub lcd: LCDRegisters,
    pub vram_bank: u8,
    pub disable_boot_rom: u8,
    pub wram_bank: u8,
}

impl View for IORegisters {
    type V = IORegistersView;

    open spec fn view(&self) -> IORegistersView {
        IORegistersView {
            joypad: self.joypad,
            serial: self.serial,
            timer_divider: self.timer_divider,
            audio: self.audio,
            wave_pattern: self.wave_pattern@,
            lcd: self.lcd,
            vram_bank: self.vram_bank,
            disable_boot_rom: self.disable_boot_rom,
            wram_bank: self.wram_bank,
        }
    }
}

impl IORegisters {
    pub open spec fn wf(self) -> bool {
        self.wave_pattern.wf() && self.timer_divider.wf()
    }

    pub fn new() -> (r: Self)
        ensures
            r.wf(),
            r@.joypad.read == crate::joypad::JoypadRead::Idle,
            r@.timer_divider == crate::time_divider::TimeDividerRegister::spec_power_on(),
            r@.lcd.status.ly == 0,
            r@.lcd.status.stat.ppu_mode == 2,
            r@.lcd.status.stat.lyc_interupt == false,
            r@.wave_pattern == Seq::new(16nat, |i: int| 0u8),
    {
        IORegisters {
            joypad: JoypadRegister::new(),
            serial: SerialRegister::new(),
            timer_divider: TimeDividerRegister::new(),
            audio: AudioRegisters::new(),
            wave_pattern: WavePattern::new(),
            lcd: LCDRegisters::new(),
            vram_bank: 0,
            disable_boot_rom: 0,
            wram_bank: 0,
        }
    }

    /// What a read in the I/O page returns; the interrupt flag byte and the
    /// copy trigger are served by the bus itself, everything unassigned
    /// reads the neutral value zero.
    pub open spec fn spec_read_byte(v: IORegistersView, address: u16) -> u8 {
        if address == 0xFF00 {
            v.joypad.spec_to_byte()
        } else if 0xFF01 <= address <= 0xFF02 {
            v.serial.spec_read_byte(address)
        } else if 0xFF04 <= address <= 0xFF07 {
            v.timer_divider.spec_read_byte(address)
        } else if 0xFF10 <= address <= 0xFF26 {
            AudioRegisters::spec_read_byte(v.audio, address)
        } else if 0xFF30 <= address <= 0xFF3F {
            v.wave_pattern[address - 0xFF30]
        } else if 0xFF40 <= address <= 0xFF4B {
            v.lcd.spec_read_byte(address)
        } else if address == 0xFF4F {
            v.vram_bank
        } else if address == 0xFF50 {
            v.disable_boot_rom
        } else if address == 0xFF70 {
            v.wram_bank
        } else {
            0u8
        }
    }

    pub fn read_byte(&self, address: u16) -> (r: u8)
        requires
            self.wf(),
        ensures
            r == IORegisters::spec_read_byte(self@, address),
    {
        if address == 0xFF00 {
            self.joypad.to_byte()
        } else if 0xFF01 <= address && address <= 0xFF02 {
            self.serial.read_byte(address)
        } else if 0xFF04 <= address && address <= 0xFF07 {
            self.timer_divider.read_byte(address)
        } else if 0xFF10 <= address && address <= 0xFF26 {
            self.audio.read_byte(address)
        } else if 0xFF30 <= address && address <= 0xFF3F {
            self.wave_pattern.read_byte(address)
        } else if 0xFF40 <= address && address <= 0xFF4B {
            self.lcd.read_byte(address)
        } else if address == 0xFF4F {
            self.vram_bank
        } else if address == 0xFF50 {
            self.disable_boot_rom
        } else if address == 0xFF70 {
            self.wram_bank
        } else {
            0
        }
    }

    /// The I/O page after a byte write; unassigned addresses ignore it.
    pub open spec fn spec_write_byte(v: IORegistersView, address: u16, value: u8) -> IORegistersView {
        if address == 0xFF00 {
            IORegistersView {
                joypad: JoypadRegister { read: JoypadRegister::spec_select(value), ..v.joypad },
                ..v
            }
        } else if 0xFF01 <= address <= 0xFF02 {
            IORegistersView { serial: v.serial.spec_write_byte(address, value), ..v }
        } else if 0xFF04 <= address <= 0xFF07 {
            IORegistersView { timer_divider: v.timer_divider.spec_write_byte(address, value), ..v }
        } else if 0xFF10 <= address <= 0xFF26 {
            IORegistersView { audio: AudioRegisters::spec_write_byte(v.audio, address, value), ..v }
        } else if 0xFF30 <= address <= 0xFF3F {
            IORegistersView { wave_pattern: v.wave_pattern.update(address - 0xFF30, value), ..v }
        } else if 0xFF40 <= address <= 0xFF4B {
            IORegistersView { lcd: v.lcd.spec_write_byte(address, value), ..v }
        } else if address == 0xFF4F {
            IORegistersView { vram_bank: value, ..v }
        } else if address == 0xFF50 {
            IORegistersView { disable_boot_rom: value, ..v }
        } else if address == 0xFF70 {
            IORegistersView { wram_bank: value, ..v }
        } else {
            v
        }
    }

    pub fn write_byte(&mut self, address: u16, value: u8)
        requires
            old(self).wf(),
        ensures
            final(self).wf(),
            final(self)@ == IORegisters::spec_write_byte(old(self)@, address, value),
    {
        if address == 0xFF00 {
            self.joypad.write_byte(value);
        } else if 0xFF01 <= address && address <= 0xFF02 {
            self.serial.write_byte(address, value);
        } else if 0xFF04 <= address && address <= 0xFF07 {
            self.timer_divider.write_byte(address, value);
        } else if 0xFF10 <= address && address <= 0xFF26 {
            self.audio.write_byte(address, value);
        } else if 0xFF30 <= address && address <= 0xFF3F {
            self.wave_pattern.write_byte(address, value);
        } else if 0xFF40 <= address && address <= 0xFF4B {
            self.lcd.write_byte(address, value);
        } else if address == 0xFF4F {
            self.vram_bank = value;
        } else if address == 0xFF50 {
            self.disable_boot_rom = value;
        } else if address == 0xFF70 {
            self.wram_bank = value;
        }
        proof {
            assert(self@ =~~= IORegisters::spec_write_byte(old(self)@, address, value));
        }
    }
}

/// What the whole bus looks like in specifications.
#[verifier::ext_equal]
pub struct BusView {
    pub memory_lock: MemoryLock,
    pub current_owner: MemoryLockOwner,
    pub rom: Seq<u8>,
    pub banked_rom: Seq<u8>,
    pub vram: Seq<u8>,
    pub external_ram: Seq<u8>,
    pub wram: Seq<u8>,
    pub oam: OamView,
    pub interupt_flags: InteruptFlags,
    pub io: IORegistersView,
    pub hram: Seq<u8>,
    pub interupt_enable: InteruptFlags,
}

/// The bus itself: the byte stores of every region, the two interrupt flag
/// bytes, the register blocks, and the lock state.
#[derive(Debug, Clone)]
pub struct Bus {
    pub memory_lock: MemoryLock,
    pub current_owner: MemoryLockOwner,
    pub rom: Vec<u8>,
    pub banked_rom: Vec<u8>,
    pub vram: Vec<u8>,
    pub external_ram: Vec<u8>,
    pub wram: Vec<u8>,
    pub oam: Oam,
    pub interupt_flags: InteruptFlags,
    pub io: IORegisters,
    pub hram: Vec<u8>,
    pub interupt_enable: InteruptFlags,
}

impl View for Bus {
    type V = BusView;

    open spec fn view(&self) -> BusView {
        BusView {
            memory_lock: self.memory_lock,
            current_owner: self.current_owner,
            rom: self.rom@,
            banked_rom: self.banked_rom@,
            vram: self.vram@,
            external_ram: self.external_ram@,
            wram: self.wram@,
            oam: self.oam@,
            interupt_flags: self.interupt_flags,
            io: self.io@,
            hram: self.hram@,
            interupt_enable: self.interupt_enable,
        }
    }
}

/// The region sizes every bus state keeps.
pub open spec fn bus_wf(v: BusView) -> bool {
    &&& v.rom.len() == 0x4000
    &&& v.banked_rom.len() == 0x4000
    &&& v.vram.len() == 0x2000
    &&& v.external_ram.len() == 0x2000
    &&& v.wram.len() == 0x2000
    &&& v.oam.data.len() == 40
    &&& v.oam.progress <= 160
    &&& v.io.wave_pattern.len() == 16
    &&& v.io.timer_divider.wf()
    &&& v.hram.len() == 0x7F
}

/// Whether the address falls in the read-only ROM space.
pub open spec fn spec_is_rom(address: u16) -> bool {
    address <= 0x7FFF
}

/// Whether an access at this address is blocked for whoever is driving the
/// bus: a region with an owner is opaque to the processor, while the pixel
/// pipeline is blocked only by a lock it does not hold.
pub open spec fn spec_locked(v: BusView, address: u16) -> bool {
    if 0x8000 <= address <= 0x9FFF {
        match v.memory_lock.vram {
            Some(owner) => !(v.current_owner == MemoryLockOwner::PPU && owner
                == MemoryLockOwner::PPU),
            None => false,
        }
    } else if 0xFE00 <= address <= 0xFE9F {
        match v.memory_lock.oam {
            Some(owner) => !(v.current_owner == MemoryLockOwner::PPU && owner
                == MemoryLockOwner::PPU),
            None => false,
        }
    } else {
        false
    }
}

/// What the byte at an address is, before the lock check: the total
/// dispatch over the region map.
pub open spec fn spec_raw_read(v: BusView, address: u16) -> u8 {
    if address <= 0x3FFF {
        v.rom[address as int]
    } else if address <= 0x7FFF {
        v.banked_rom[address - 0x4000]
    } else if address <= 0x9FFF {
        v.vram[address - 0x8000]
    } else if address <= 0xBFFF {
        v.external_ram[address - 0xA000]
    } else if address <= 0xDFFF {
        v.wram[address - 0xC000]
    } else if address <= 0xFDFF {
        v.wram[address - 0xE000]
    } else if address <= 0xFE9F {
        Oam::spec_read_byte(v.oam, address)
    } else if address <= 0xFEFF {
        0u8
    } else if address == 0xFF0F {
        v.interupt_flags.spec_to_byte()
    } else if address == 0xFF46 {
        v.oam.source_upper_byte
    } else if address <= 0xFF7F {
        IORegisters::spec_read_byte(v.io, address)
    } else if address <= 0xFFFE {
        v.hram[address - 0xFF80]
    } else {
        v.interupt_enable.spec_to_byte()
    }
}

/// What a read returns: the neutral 0xFF over a locked region, the stored
/// byte everywhere else.
pub open spec fn spec_read(v: BusView, address: u16) -> u8 {
    if spec_locked(v, address) {
        0xFFu8
    } else {
        spec_raw_read(v, address)
    }
}

/// The bus after a write lands: the total dispatch over the region map.
/// Writes into ROM or the unusable gap change nothing here; the lock check
/// and the read-only error live in the callers' contracts.
pub open spec fn spec_raw_write(v: BusView, address: u16, value: u8) -> BusView {
    if address <= 0x7FFF {
        v
    } else if address <= 0x9FFF {
        BusView { vram: v.vram.update(address - 0x8000, value), ..v }
    } else if address <= 0xBFFF {
        BusView { external_ram: v.external_ram.update(address - 0xA000, value), ..v }
    } else if address <= 0xDFFF {
        BusView { wram: v.wram.update(address - 0xC000, value), ..v }
    } else if address <= 0xFDFF {
        BusView { wram: v.wram.update(address - 0xE000, value), ..v }
    } else if address <= 0xFE9F {
        BusView { oam: Oam::spec_write_byte(v.oam, address, value), ..v }
    } else if address <= 0xFEFF {
        v
    } else if address == 0xFF0F {
        BusView { interupt_flags: InteruptFlags::spec_from_byte(value), ..v }
    } else if address == 0xFF46 {
        BusView { oam: Oam::spec_write_byte(v.oam, address, value), ..v }
    } else if address <= 0xFF7F {
        BusView { io: IORegisters::spec_write_byte(v.io, address, value), ..v }
    } else if address <= 0xFFFE {
        BusView { hram: v.hram.update(address - 0xFF80, value), ..v }
    } else {
        BusView { interupt_enable: InteruptFlags::spec_from_byte(value), ..v }
    }
}

/// One byte store as the processor or pipeline sees it: dropped over a
/// locked region, landed anywhere else writable.
pub open spec fn spec_write(v: BusView, address: u16, value: u8) -> BusView {
    if spec_locked(v, address) {
        v
    } else {
        spec_raw_write(v, address, value)
    }
}

/// What no write on the bus can disturb: the scanline counter, the
/// published mode, and the region locks belong to the pixel pipeline.
pub open spec fn spec_ppu_regs_same(b0: BusView, b1: BusView) -> bool {
    &&& b1.io.lcd.status.ly == b0.io.lcd.status.ly
    &&& b1.io.lcd.status.stat.ppu_mode == b0.io.lcd.status.stat.ppu_mode
    &&& b1.io.lcd.status.stat.lyc_ly == b0.io.lcd.status.stat.lyc_ly
    &&& b1.memory_lock == b0.memory_lock
    &&& b1.current_owner == b0.current_owner
}

/// An address in plain RAM: external or work RAM, the echo of work RAM,
/// or high RAM. No lock ever covers these, a write is never fatal there,
/// and a read gives back the last byte written.
pub open spec fn spec_plain_ram(address: u16) -> bool {
    (0xA000 <= address <= 0xFDFF) || (0xFF80 <= address <= 0xFFFE)
}

/// The one other address that shares a plain RAM cell: work RAM and its
/// echo pair up, two gaps of 0x2000 apart; everything else stands alone.
pub open spec fn spec_ram_alias(address: u16) -> u16 {
    if 0xC000 <= address <= 0xDDFF {
        (address + 0x2000) as u16
    } else if 0xE000 <= address <= 0xFDFF {
        (address - 0x2000) as u16
    } else {
        address
    }
}

/// Reading a plain RAM cell after writing it gives the written byte
/// back, and a write there disturbs no other plain RAM cell but the
/// echo partner of the one written.
pub proof fn lemma_plain_ram_read_write(v: BusView, address: u16, value: u8)
    requires
        bus_wf(v),
        spec_plain_ram(address),
    ensures
        bus_wf(spec_write(v, address, value)),
        spec_read(spec_write(v, address, value), address) == value,
        forall|other: u16|
            spec_plain_ram(other) && other != address && other != spec_ram_alias(address)
                ==> spec_read(spec_write(v, address, value), other) == spec_read(v, other),
{
    assert forall|other: u16|
        spec_plain_ram(other) && other != address && other != spec_ram_alias(address) implies
        spec_read(spec_write(v, address, value), other) == spec_read(v, other) by {
    }
}

/// No write on the bus moves the scanline counter, the published mode,
/// the compare flag, the locks or the driving side: those belong to the
/// pixel pipeline alone.
pub proof fn lemma_write_keeps_ppu_regs(v: BusView, address: u16, value: u8)
    ensures
        spec_ppu_regs_same(v, spec_write(v, address, value)),
        bus_wf(v) ==> bus_wf(spec_write(v, address, value)),
{
}

impl Bus {
    pub open spec fn wf(self) -> bool {
        bus_wf(self@)
    }

    /// The power-on bus: every store cleared, the sprite table locked by
    /// the pixel pipeline, which starts its first scanline in sprite scan.
    pub fn new() -> (r: Self)
        ensures
            r.wf(),
            r@.memory_lock.vram is None,
            r@.memory_lock.oam == Some(MemoryLockOwner::PPU),
            r@.current_owner == MemoryLockOwner::CPU,
            r@.rom == Seq::new(0x4000nat, |i: int| 0u8),
            r@.banked_rom == Seq::new(0x4000nat, |i: int| 0u8),
            r@.vram == Seq::new(0x2000nat, |i: int| 0u8),
            r@.external_ram == Seq::new(0x2000nat, |i: int| 0u8),
            r@.wram == Seq::new(0x2000nat, |i: int| 0u8),
            r@.hram == Seq::new(0x7Fnat, |i: int| 0u8),
            r@.oam == (OamView {
                transfer: false,
                progress: 0u16,
                source_upper_byte: 0u8,
                data: Seq::new(40nat, |i: int| crate::oam::ObjectAttribute::spec_clear()),
            }),
            r@.interupt_flags == InteruptFlags::spec_clear(),
            r@.interupt_enable == InteruptFlags::spec_clear(),
            r@.io.timer_divider == crate::time_divider::TimeDividerRegister::spec_power_on(),
            r@.io.lcd.status.ly == 0,
            r@.io.lcd.status.stat.ppu_mode == 2,
            r@.io.lcd.status.stat.lyc_interupt == false,
    {
        Bus {
            memory_lock: MemoryLock { vram: None, oam: Some(MemoryLockOwner::PPU) },
            current_owner: MemoryLockOwner::CPU,
            rom: zero_vec(0x4000),
            banked_rom: zero_vec(0x4000),
            vram: zero_vec(0x2000),
            external_ram: zero_vec(0x2000),
            wram: zero_vec(0x2000),
            oam: Oam::new(),
            interupt_flags: InteruptFlags::new(),
            io: IORegisters::new(),
            hram: zero_vec(0x7F),
            interupt_enable: InteruptFlags::new(),
        }
    }

    /// Take a lock for whoever is driving the bus now.
    pub fn lock(&mut self, region: MemoryRegion)
        ensures
            region == MemoryRegion::VRAM ==> final(self)@ == (BusView {
                memory_lock: MemoryLock {
                    vram: Some(old(self)@.current_owner),
                    ..old(self)@.memory_lock
                },
                ..old(self)@
            }),
            region == MemoryRegion::OAM ==> final(self)@ == (BusView {
                memory_lock: MemoryLock {
                    oam: Some(old(self)@.current_owner),
                    ..old(self)@.memory_lock
                },
                ..old(self)@
            }),
    {
        match region {
            MemoryRegion::VRAM => {
                self.memory_lock.vram = Some(self.current_owner);
            },
            MemoryRegion::OAM => {
                self.memory_lock.oam = Some(self.current_owner);
            },
        }
    }

    /// Release a region lock.
    pub fn unlock(&mut self, region: MemoryRegion)
        ensures
            region == MemoryRegion::VRAM ==> final(self)@ == (BusView {
                memory_lock: MemoryLock { vram: None, ..old(self)@.memory_lock },
                ..old(self)@
            }),
            region == MemoryRegion::OAM ==> final(self)@ == (BusView {
                memory_lock: MemoryLock { oam: None, ..old(self)@.memory_lock },
                ..old(self)@
            }),
    {
        match region {
            MemoryRegion::VRAM => {
                self.memory_lock.vram = None;
            },
            MemoryRegion::OAM => {
                self.memory_lock.oam = None;
            },
        }
    }

    /// Whether an access at this address would be blocked for the side
    /// driving the bus now.
    pub fn locked(&self, address: u16) -> (r: bool)
        ensures
            r == spec_locked(self@, address),
    {
        if 0x8000 <= address && address <= 0x9FFF {
            match self.memory_lock.vram {
                Some(owner) => !(self.current_owner == MemoryLockOwner::PPU && owner
                    == MemoryLockOwner::PPU),
                None => false,
            }
        } else if 0xFE00 <= address && address <= 0xFE9F {
            match self.memory_lock.oam {
                Some(owner) => !(self.current_owner == MemoryLockOwner::PPU && owner
                    == MemoryLockOwner::PPU),
                None => false,
            }
        } else {
            false
        }
    }

    /// Read one byte: 0xFF over a locked region, the stored byte elsewhere.
    pub fn read_byte(&self, address: u16) -> (r: u8)
        requires
            self.wf(),
        ensures
            r == spec_read(self@, address),
    {
        if self.locked(address) {
            return 0xFF;
        }
        if address <= 0x3FFF {
            self.rom[address as usize]
        } else if address <= 0x7FFF {
            self.banked_rom[(address - 0x4000) as usize]
        } else if address <= 0x9FFF {
            self.vram[(address - 0x8000) as usize]
        } else if address <= 0xBFFF {
            self.external_ram[(address - 0xA000) as usize]
        } else if address <= 0xDFFF {
            self.wram[(address - 0xC000) as usize]
        } else if address <= 0xFDFF {
            self.wram[(address - 0xE000) as usize]
        } else if address <= 0xFE9F {
            self.oam.read_byte(address)
        } else if address <= 0xFEFF {
            0
        } else if address == 0xFF0F {
            self.interupt_flags.to_byte()
        } else if address == 0xFF46 {
            self.oam.source_upper_byte
        } else if address <= 0xFF7F {
            self.io.read_byte(address)
        } else if address <= 0xFFFE {
            self.hram[(address - 0xFF80) as usize]
        } else {
            self.interupt_enable.to_byte()
        }
    }

    /// Write one byte. A store aimed at ROM is the one fatal case; a store
    /// over a locked region is silently dropped, as the hardware drops it.
    pub fn write_byte(&mut self, address: u16, value: u8) -> (r: Result<(), EmuError>)
        requires
            old(self).wf(),
        ensures
            final(self).wf(),
            spec_is_rom(address) ==> r == Err::<(), EmuError>(EmuError::ReadOnlyWrite(address))
                && final(self)@ == old(self)@,
            !spec_is_rom(address) ==> r == Ok::<(), EmuError>(()) && final(self)@ == spec_write(
                old(self)@,
                address,
                value,
            ),
    {
        if address <= 0x7FFF {
            return Err(EmuError::ReadOnlyWrite(address));
        }
        if self.locked(address) {
            return Ok(());
        }
        if address <= 0x9FFF {
            self.vram[(address - 0x8000) as usize] = value;
        } else if address <= 0xBFFF {
            self.external_ram[(address - 0xA000) as usize] = value;
        } else if address <= 0xDFFF {
            self.wram[(address - 0xC000) as usize] = value;
        } else if address <= 0xFDFF {
            self.wram[(address - 0xE000) as usize] = value;
        } else if address <= 0xFE9F {
            self.oam.write_byte(address, value);
        } else if address <= 0xFEFF {
        } else if address == 0xFF0F {
            self.interupt_flags = InteruptFlags::from_byte(value);
        } else if address == 0xFF46 {
            self.oam.write_byte(address, value);
        } else if address <= 0xFF7F {
            self.io.write_byte(address, value);
        } else if address <= 0xFFFE {
            self.hram[(address - 0xFF80) as usize] = value;
        } else {
            self.interupt_enable = InteruptFlags::from_byte(value);
        }
        proof {
            assert(self@ =~~= spec_write(old(self)@, address, value));
        }
        Ok(())
    }

    /// What a word read at an address returns: the little-endian
    /// composition of the bytes at the address and its successor.
    pub open spec fn spec_read_word(v: BusView, address: u16) -> u16 {
        crate::cpu::spec_pair(
            spec_read(v, crate::wrapping_inc(address)),
            spec_read(v, address),
        )
    }

    /// Read a word, low byte first: a little-endian composition.
    pub fn read_word(&self, address: u16) -> (r: u16)
        requires
            self.wf(),
        ensures
            r == Bus::spec_read_word(self@, address),
    {
        let lo = self.read_byte(address);
        let hi = self.read_byte(address.wrapping_add(1));
        (hi as u16) << 8 | (lo as u16)
    }

    /// Read the byte after the given address.
    pub fn read_next_byte(&self, current: u16) -> (r: u8)
        requires
            self.wf(),
        ensures
            r == spec_read(self@, crate::wrapping_inc(current)),
    {
        self.read_byte(current.wrapping_add(1))
    }

    /// Write a word, low byte first: a little-endian composition. Either
    /// half aimed at ROM is fatal; the bytes before the failing one land.
    pub fn write_word(&mut self, address: u16, word: u16) -> (r: Result<(), EmuError>)
        requires
            old(self).wf(),
        ensures
            final(self).wf(),
            spec_is_rom(address) ==> r == Err::<(), EmuError>(EmuError::ReadOnlyWrite(address))
                && final(self)@ == old(self)@,
            !spec_is_rom(address) && spec_is_rom(crate::wrapping_inc(address)) ==> r == Err::<
                (),
                EmuError,
            >(EmuError::ReadOnlyWrite(crate::wrapping_inc(address))) && final(self)@ == spec_write(
                old(self)@,
                address,
                crate::cpu::spec_lo(word),
            ),
            !spec_is_rom(address) && !spec_is_rom(crate::wrapping_inc(address)) ==> r == Ok::<
                (),
                EmuError,
            >(()) && final(self)@ == spec_write(
                spec_write(old(self)@, address, crate::cpu::spec_lo(word)),
                crate::wrapping_inc(address),
                crate::cpu::spec_hi(word),
            ),
    {
        self.write_byte(address, word as u8)?;
        self.write_byte(address.wrapping_add(1), (word >> 8) as u8)?;
        Ok(())
    }

    /// Load an image into the fixed ROM bank, starting at address zero:
    /// the way a boot image is put in place.
    pub fn load_boot_rom(&mut self, boot_rom: &[u8])
        requires
            old(self).wf(),
            boot_rom@.len() <= 0x4000,
        ensures
            final(self).wf(),
            final(self)@ == (BusView {
                rom: Seq::new(
                    0x4000nat,
                    |i: int|
                        if i < boot_rom@.len() {
                            boot_rom@[i]
                        } else {
                            old(self)@.rom[i]
                        },
                ),
                ..old(self)@
            }),
    {
        let mut i: usize = 0;
        while i < boot_rom.len()
            invariant
                boot_rom@.len() <= 0x4000,
                i <= boot_rom@.len(),
                self.rom@.len() == 0x4000,
                forall|j: int| 0 <= j < i ==> self.rom@[j] == boot_rom@[j],
                forall|j: int| i <= j < 0x4000 ==> self.rom@[j] == old(self)@.rom[j],
                self.banked_rom == old(self).banked_rom,
                self.vram == old(self).vram,
                self.external_ram == old(self).external_ram,
                self.wram == old(self).wram,
                self.hram == old(self).hram,
                self.oam == old(self).oam,
                self.io == old(self).io,
                self.memory_lock == old(self).memory_lock,
                self.current_owner == old(self).current_owner,
                self.interupt_flags == old(self).interupt_flags,
                self.interupt_enable == old(self).interupt_enable,
            decreases boot_rom@.len() - i,
        {
            self.rom[i] = boot_rom[i];
            i = i + 1;
        }
        proof {
            assert(self@ =~~= (BusView {
                rom: Seq::new(
                    0x4000nat,
                    |k: int|
                        if k < boot_rom@.len() {
                            boot_rom@[k]
                        } else {
                            old(self)@.rom[k]
                        },
                ),
                ..old(self)@
            }));
        }
    }

    /// Load a cartridge image into the fixed ROM bank, after the reserved
    /// first page.
    pub fn load_rom(&mut self, rom: &[u8])
        requires
            old(self).wf(),
            rom@.len() + 0x100 <= 0x4000,
        ensures
            final(self).wf(),
            final(self)@ == (BusView {
                rom: Seq::new(
                    0x4000nat,
                    |i: int|
                        if 0x100 <= i < rom@.len() + 0x100 {
                            rom@[i - 0x100]
                        } else {
                            old(self)@.rom[i]
                        },
                ),
                ..old(self)@
            }),
    {
        let mut i: usize = 0;
        while i < rom.len()
            invariant
                rom@.len() + 0x100 <= 0x4000,
                i <= rom@.len(),
                self.rom@.len() == 0x4000,
                forall|j: int| 0x100 <= j < 0x100 + i ==> self.rom@[j] == rom@[j - 0x100],
                forall|j: int|
                    (0 <= j < 0x100 || 0x100 + i <= j < 0x4000) ==> self.rom@[j] == old(
                        self,
                    )@.rom[j],
                self.banked_rom == old(self).banked_rom,
                self.vram == old(self).vram,
                self.external_ram == old(self).external_ram,
                self.wram == old(self).wram,
                self.hram == old(self).hram,
                self.oam == old(self).oam,
                self.io == old(self).io,
                self.memory_lock == old(self).memory_lock,
                self.current_owner == old(self).current_owner,
                self.interupt_flags == old(self).interupt_flags,
                self.interupt_enable == old(self).interupt_enable,
            decreases rom@.len() - i,
        {
            self.rom[0x100 + i] = rom[i];
            i = i + 1;
        }
        proof {
            assert(self@ =~~= (BusView {
                rom: Seq::new(
                    0x4000nat,
                    |k: int|
                        if 0x100 <= k < rom@.len() + 0x100 {
                            rom@[k - 0x100]
                        } else {
                            old(self)@.rom[k]
                        },
                ),
                ..old(self)@
            }));
        }
    }

    /// Advance the sprite-table copy by one byte, if one is running: the
    /// byte at source page : progress moves into the table, and at the end
    /// of the 160th byte the copy clears itself.
    pub fn dma_transfer_step(&mut self)
        requires
            old(self).wf(),
        ensures
            final(self).wf(),
            !old(self)@.oam.transfer ==> final(self)@ == old(self)@,
            old(self)@.oam.transfer && old(self)@.oam.progress >= 160 ==> final(self)@ == (BusView {
                oam: OamView { transfer: false, progress: 0u16, ..old(self)@.oam },
                ..old(self)@
            }),
            old(self)@.oam.transfer && old(self)@.oam.progress < 160 ==> final(self)@ == (BusView {
                oam: OamView {
                    progress: (old(self)@.oam.progress + 1) as u16,
                    ..Oam::spec_write_byte(
                        old(self)@.oam,
                        (0xFE00 + old(self)@.oam.progress) as u16,
                        spec_read(
                            old(self)@,
                            crate::cpu::spec_pair(
                                old(self)@.oam.source_upper_byte,
                                old(self)@.oam.progress as u8,
                            ),
                        ),
                    )
                },
                ..old(self)@
            }),
    {
        if !self.oam.transfer {
            return ;
        }
        if self.oam.progress >= 160 {
            self.oam.progress = 0;
            self.oam.transfer = false;
            return ;
        }
        let source_address: u16 = (self.oam.source_upper_byte as u16) << 8 | (
        self.oam.progress as u16);
        proof {
            let p = self.oam.progress;
            assert(p as u8 as u16 == p) by (bit_vector)
                requires
                    p < 160u16,
            ;
        }
        let value = self.read_byte(source_address);
        let target: u16 = 0xFE00 + self.oam.progress;
        self.oam.write_byte(target, value);
        self.oam.progress = self.oam.progress + 1;
        proof {
            assert(self@ =~~= (BusView {
                oam: OamView {
                    progress: (old(self)@.oam.progress + 1) as u16,
                    ..Oam::spec_write_byte(
                        old(self)@.oam,
                        (0xFE00 + old(self)@.oam.progress) as u16,
                        spec_read(
                            old(self)@,
                            crate::cpu::spec_pair(
                                old(self)@.oam.source_upper_byte,
                                old(self)@.oam.progress as u8,
                            ),
                        ),
                    )
                },
                ..old(self)@
            }));
        }
    }
}

/// A vector of zeroed bytes of the asked-for length.
fn zero_vec(len: usize) -> (r: Vec<u8>)
    ensures
        r@ == Seq::new(len as nat, |i: int| 0u8),
{
    let mut v: Vec<u8> = Vec::new();
    let mut i: usize = 0;
    while i < len
        invariant
            i <= len,
            v@.len() == i,
            forall|j: int| 0 <= j < i ==> v@[j] == 0u8,
        decreases len - i,
    {
        v.push(0);
        i = i + 1;
    }
    proof {
        assert(v@ =~= Seq::new(len as nat, |i: int| 0u8));
    }
    v
}

} // verus!
