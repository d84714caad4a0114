//! The pixel pipeline's timing state machine: one dot per step, 456 dots
//! per scanline, 154 scanlines per frame. Mode transitions assert and
//! release the bus locks, raise the V-blank and STAT interrupt flags, and
//! pace the sprite-table copy. Composing pixels into a frame is a host
//! concern; only the timing and the lock windows live here.
use vstd::prelude::*;

use crate::bus::spec_read;
use crate::bus::spec_write;
use crate::bus::Bus;
use crate::bus::BusView;
use crate::bus::MemoryLockOwner;
use crate::interrupts::InteruptFlags;
use crate::bus::MemoryLock;
use crate::lcd::LCDStatus;
use crate::lcd::SpriteSize;
use crate::lcd::StatRegister;
use crate::oam::ObjectAttribute;

verus! {

/// One of the four monochrome shades a composed pixel can take.
#[derive(Debug, Clone, Copy, PartialEq, Eq, Structural)]
pub enum PixelColor {
    White,
    LightGray,
    DarkGray,
    Black,
}

/// Which palette a composed pixel draws its shade from.
#[derive(Debug, Clone, Copy, PartialEq, Eq, Structural)]
pub enum PixelPalette {
    Palette0,
    Palette1,
    Palette2,
}

/// One composed pixel, as handed to a host that rasterizes.
#[derive(Debug, Clone, Copy, PartialEq, Eq, Structural)]
pub struct Pixel {
    pub color: PixelColor,
    pub palette: PixelPalette,
    pub priority: u8,
    pub bg_priority: bool,
}

/// What the pipeline looks like in specifications.
pub struct PPUView {
    pub dot_counter: u16,
    pub oam_progress: u8,
    pub objects_buffer: Seq<ObjectAttribute>,
}

/// The pipeline's own small state: the dot position inside the scanline,
/// the sprite-scan progress, and the sprites selected for the line.
#[derive(Debug, Clone)]
pub struct PPU {
    pub dot_counter: u16,
    pub oam_progress: u8,
    pub objects_buffer: Vec<ObjectAttribute>,
}

impl View for PPU {
    type V = PPUView;

    open spec fn view(&self) -> PPUView {
        PPUView {
            dot_counter: self.dot_counter,
            oam_progress: self.oam_progress,
            objects_buffer: self.objects_buffer@,
        }
    }
}

/// The mode the scanline position dictates: sprite scan for the first 80
/// dots, pixel transfer until dot 252, horizontal blank for the rest of the
/// line, and vertical blank for the ten lines from 144.
pub open spec fn spec_mode_at(ly: u8, dot: u16) -> u8 {
    if ly >= 144 {
        1u8
    } else if dot < 80 {
        2u8
    } else if dot < 252 {
        3u8
    } else {
        0u8
    }
}

/// How the pipeline and the bus agree while the machine runs: the position
/// counters stay in range, the published mode is the one the position
/// dictates, and the region locks are exactly the ones that mode asserts,
/// held by the pipeline.
pub open spec fn spec_lock_sync(lock: crate::bus::MemoryLock, mode: u8) -> bool {
    &&& (mode == 2 ==> lock.oam == Some(MemoryLockOwner::PPU) && lock.vram is None)
    &&& (mode == 3 ==> lock.oam == Some(MemoryLockOwner::PPU) && lock.vram == Some(
        MemoryLockOwner::PPU,
    ))
    &&& (mode == 0 || mode == 1 ==> lock.oam is None && lock.vram is None)
}

pub open spec fn ppu_sync(p: PPUView, b: BusView) -> bool {
    let ly = b.io.lcd.status.ly;
    let dot = p.dot_counter;
    let mode = b.io.lcd.status.stat.ppu_mode;
    &&& dot < 456
    &&& ly < 154
    &&& mode == spec_mode_at(ly, dot)
    &&& spec_lock_sync(b.memory_lock, mode)
    &&& p.oam_progress <= 40
    &&& p.objects_buffer.len() <= 20
}

/// While the sprite table or the video RAM is held by the pipeline, the
/// processor's view of the locked region is opaque: every read returns
/// 0xFF and every write lands nowhere. This is the lock window the mode
/// machine promises: from the entry into sprite scan until horizontal
/// blank releases the locks.
pub proof fn lemma_lock_window_blocks_cpu(p: PPUView, b: BusView, address: u16, value: u8)
    requires
        ppu_sync(p, b),
        b.current_owner == MemoryLockOwner::CPU,
        b.io.lcd.status.stat.ppu_mode == 2 || b.io.lcd.status.stat.ppu_mode == 3,
        0xFE00 <= address <= 0xFE9F,
    ensures
        spec_read(b, address) == 0xFF,
        spec_write(b, address, value) == b,
{
}

/// The same opacity for the video RAM during pixel transfer.
pub proof fn lemma_transfer_blocks_cpu_vram(p: PPUView, b: BusView, address: u16, value: u8)
    requires
        ppu_sync(p, b),
        b.current_owner == MemoryLockOwner::CPU,
        b.io.lcd.status.stat.ppu_mode == 3,
        0x8000 <= address <= 0x9FFF,
    ensures
        spec_read(b, address) == 0xFF,
        spec_write(b, address, value) == b,
{
}

/// Everything on the bus that one pipeline dot leaves alone.
pub open spec fn spec_ppu_frame(b0: BusView, b1: BusView) -> bool {
    &&& b1.rom == b0.rom
    &&& b1.banked_rom == b0.banked_rom
    &&& b1.vram == b0.vram
    &&& b1.external_ram == b0.external_ram
    &&& b1.wram == b0.wram
    &&& b1.hram == b0.hram
    &&& b1.interupt_enable == b0.interupt_enable
    &&& b1.io.joypad == b0.io.joypad
    &&& b1.io.serial == b0.io.serial
    &&& b1.io.timer_divider == b0.io.timer_divider
    &&& b1.io.audio == b0.io.audio
    &&& b1.io.wave_pattern == b0.io.wave_pattern
    &&& b1.io.lcd.control == b0.io.lcd.control
    &&& b1.io.lcd.pos_scroll == b0.io.lcd.pos_scroll
    &&& b1.io.lcd.palettes == b0.io.lcd.palettes
    &&& b1.io.lcd.status.lyc == b0.io.lcd.status.lyc
    &&& b1.io.vram_bank == b0.io.vram_bank
    &&& b1.io.disable_boot_rom == b0.io.disable_boot_rom
    &&& b1.io.wram_bank == b0.io.wram_bank
    &&& b1.interupt_flags.timer == b0.interupt_flags.timer
    &&& b1.interupt_flags.serial == b0.interupt_flags.serial
    &&& b1.interupt_flags.joypad == b0.interupt_flags.joypad
}


/// What one position advance may touch, said as one equality: the locks,
/// the scanline counter, the published mode, and the V-blank flag; every
/// other part of the bus is carried over unchanged.
pub open spec fn spec_advance_scope(b0: BusView, b1: BusView) -> bool {
    b1 == (BusView {
        memory_lock: b1.memory_lock,
        io: crate::bus::IORegistersView {
            lcd: crate::lcd::LCDRegisters {
                status: crate::lcd::LCDStatus {
                    ly: b1.io.lcd.status.ly,
                    stat: crate::lcd::StatRegister {
                        ppu_mode: b1.io.lcd.status.stat.ppu_mode,
                        ..b0.io.lcd.status.stat
                    },
                    ..b0.io.lcd.status
                },
                ..b0.io.lcd
            },
            ..b0.io
        },
        interupt_flags: InteruptFlags { v_blank: b1.interupt_flags.v_blank, ..b0.interupt_flags },
        ..b0
    })
}


/// The dot position inside the frame, counted from the top: scanline
/// times line length plus the dot inside the line.
pub open spec fn spec_frame_pos(ly: u8, dot: u16) -> int {
    ly * 456 + dot
}

/// The position a run of the given length ends on, wrapping at the
/// frame length of 456 * 154 dots.
pub open spec fn spec_pos_after(pos0: int, dots: int) -> int {
    (pos0 + dots) % 70224
}

/// Whether a run of the given length lands on the first dot of line
/// 144 at some point: the one dot per frame that raises V-blank.
pub open spec fn spec_crosses_v_blank(pos0: int, dots: int) -> bool {
    exists|j: int| 1 <= j <= dots && #[trigger] spec_pos_after(pos0, j) == 65664
}

/// Advancing a wrapped position one dot: the successor inside the
/// frame, zero at the frame end.
proof fn lemma_pos_incr(pos0: int, i: int)
    requires
        0 <= pos0 < 70224,
        0 <= i,
    ensures
        spec_pos_after(pos0, i) + 1 < 70224 ==> spec_pos_after(pos0, i + 1) == spec_pos_after(
            pos0,
            i,
        ) + 1,
        spec_pos_after(pos0, i) + 1 == 70224 ==> spec_pos_after(pos0, i + 1) == 0,
        0 <= spec_pos_after(pos0, i) < 70224,
{
    vstd::arithmetic::div_mod::lemma_mod_bound(pos0 + i, 70224);
    vstd::arithmetic::div_mod::lemma_add_mod_noop(pos0 + i, 1, 70224);
    vstd::arithmetic::div_mod::lemma_small_mod(1nat, 70224nat);
    let c = (pos0 + i) % 70224;
    vstd::arithmetic::div_mod::lemma_add_mod_noop(c, 1, 70224);
    if c + 1 < 70224 {
        vstd::arithmetic::div_mod::lemma_small_mod((c + 1) as nat, 70224nat);
    } else {
        vstd::arithmetic::div_mod::lemma_mod_self_0(70224);
    }
}

impl PPU {
    pub open spec fn wf(self) -> bool {
        self@.dot_counter < 456 && self@.oam_progress <= 40 && self@.objects_buffer.len() <= 20
    }

    /// The pipeline at power-on: the first dot of the first scanline's
    /// sprite scan.
    pub fn new() -> (r: Self)
        ensures
            r.wf(),
            r@.dot_counter == 0,
            r@.oam_progress == 0,
            r@.objects_buffer.len() == 0,
    {
        PPU { dot_counter: 0, oam_progress: 0, objects_buffer: Vec::new() }
    }

    /// Scan the sprite table into the selection buffer: on every even
    /// dot the next descriptor is copied in, two at a time for
    /// double-height sprites, up to ten sprites on a line — twenty in
    /// double-height mode. Everything in the buffer comes verbatim from
    /// the sprite table, in table order.
    fn scan_oam(&mut self, memory: &Bus)
        requires
            old(self).wf(),
            memory.wf(),
        ensures
            final(self).wf(),
            final(self)@.dot_counter == old(self)@.dot_counter,
            ({
                let p = old(self)@.oam_progress as int;
                let buf = old(self)@.objects_buffer;
                let data = memory@.oam.data;
                let tall = memory@.io.lcd.control.obj_size == SpriteSize::Size8x16;
                if old(self)@.dot_counter % 2 != 0 {
                    final(self)@ == old(self)@
                } else if tall && buf.len() + 2 <= 20 && p + 1 < 40 {
                    final(self)@.objects_buffer == buf.push(data[p]).push(data[p + 1])
                        && final(self)@.oam_progress == p + 2
                } else if !tall && buf.len() < 10 && p < 40 {
                    final(self)@.objects_buffer == buf.push(data[p]) && final(self)@.oam_progress
                        == p + 1
                } else {
                    final(self)@ == old(self)@
                }
            }),
    {
        if self.dot_counter % 2 != 0 {
            return ;
        }
        let tall: bool = match memory.io.lcd.control.obj_size {
            SpriteSize::Size8x16 => true,
            SpriteSize::Size8x8 => false,
        };
        if tall {
            if self.objects_buffer.len() + 2 <= 20 && self.oam_progress + 1 < 40 {
                let first: ObjectAttribute = memory.oam.data[self.oam_progress as usize];
                let second: ObjectAttribute = memory.oam.data[(self.oam_progress + 1) as usize];
                self.objects_buffer.push(first);
                self.objects_buffer.push(second);
                self.oam_progress = self.oam_progress + 2;
            }
        } else {
            if self.objects_buffer.len() < 10 && self.oam_progress < 40 {
                let first: ObjectAttribute = memory.oam.data[self.oam_progress as usize];
                self.objects_buffer.push(first);
                self.oam_progress = self.oam_progress + 1;
            }
        }
    }

    /// The duties every dot performs before the position advances: the
    /// LY-compare flag and its interrupt, one byte of the sprite-table
    /// copy, and the sprite scan while in that mode.
    #[verifier::rlimit(100)]
    #[verifier::spinoff_prover]
    fn dot_duties(&mut self, memory: &mut Bus)
        requires
            old(self).wf(),
            old(memory).wf(),
            old(memory)@.current_owner == MemoryLockOwner::PPU,
        ensures
            final(self).wf(),
            final(memory).wf(),
            spec_ppu_frame(old(memory)@, final(memory)@),
            final(self)@.dot_counter == old(self)@.dot_counter,
            final(memory)@.current_owner == MemoryLockOwner::PPU,
            final(memory)@.memory_lock == old(memory)@.memory_lock,
            final(memory)@.io.lcd.status.ly == old(memory)@.io.lcd.status.ly,
            final(memory)@.io.lcd.status.stat.ppu_mode == old(memory)@.io.lcd.status.stat.ppu_mode,
            final(memory)@.io.lcd.status.stat.lyc_interupt == old(
                memory,
            )@.io.lcd.status.stat.lyc_interupt,
            final(memory)@.io.lcd.status.stat.mode_2_oam_interrupt == old(
                memory,
            )@.io.lcd.status.stat.mode_2_oam_interrupt,
            final(memory)@.io.lcd.status.stat.mode_1_vblank_interrupt == old(
                memory,
            )@.io.lcd.status.stat.mode_1_vblank_interrupt,
            final(memory)@.io.lcd.status.stat.mode_0_hblank_interrupt == old(
                memory,
            )@.io.lcd.status.stat.mode_0_hblank_interrupt,
            final(memory)@.interupt_flags.v_blank == old(memory)@.interupt_flags.v_blank,
            final(memory)@.interupt_flags.lcd_stat == (old(memory)@.interupt_flags.lcd_stat || (
            old(memory)@.io.lcd.status.stat.lyc_interupt && old(memory)@.io.lcd.status.ly == old(
                memory,
            )@.io.lcd.status.lyc)),
            final(memory)@.io.lcd.status.stat.lyc_ly == (old(memory)@.io.lcd.status.ly == old(
                memory,
            )@.io.lcd.status.lyc),
    {
        if memory.io.lcd.status.lyc == memory.io.lcd.status.ly {
            memory.io.lcd.status.stat.lyc_ly = true;
        } else {
            memory.io.lcd.status.stat.lyc_ly = false;
        }
        if memory.io.lcd.status.stat.lyc_ly && memory.io.lcd.status.stat.lyc_interupt {
            memory.interupt_flags.lcd_stat = true;
        }
        memory.dma_transfer_step();
        if memory.io.lcd.status.stat.ppu_mode == 2 {
            let ghost before = *memory;
            self.scan_oam(memory);
            proof {
                assert(memory@ == before@);
            }
        }
    }

    /// Move to the next dot and perform the entry work of whatever mode
    /// the new position dictates: sprite scan locks the sprite table and
    /// resets the scan, pixel transfer locks the video RAM as well,
    /// horizontal blank releases both locks, and the entry into vertical
    /// blank raises the V-blank interrupt flag, exactly once per frame.
    fn advance_position(
        &mut self,
        memory_lock: &mut MemoryLock,
        status: &mut LCDStatus,
        interupt_flags: &mut InteruptFlags,
    )
        requires
            old(self).wf(),
            old(status).ly < 154,
            old(status).stat.ppu_mode == spec_mode_at(old(status).ly, old(self)@.dot_counter),
            spec_lock_sync(*old(memory_lock), old(status).stat.ppu_mode),
        ensures
            final(self).wf(),
            final(status).ly < 154,
            final(status).stat.ppu_mode == spec_mode_at(
                final(status).ly,
                final(self)@.dot_counter,
            ),
            spec_lock_sync(*final(memory_lock), final(status).stat.ppu_mode),
            final(status).lyc == old(status).lyc,
            final(status).stat == (StatRegister {
                ppu_mode: final(status).stat.ppu_mode,
                ..old(status).stat
            }),
            *final(interupt_flags) == (InteruptFlags {
                v_blank: final(interupt_flags).v_blank,
                ..*old(interupt_flags)
            }),
            ({
                let ly0 = old(status).ly;
                let dot0 = old(self)@.dot_counter;
                let ly1 = final(status).ly;
                let dot1 = final(self)@.dot_counter;
                &&& (dot0 + 1 < 456 ==> dot1 == dot0 + 1 && ly1 == ly0)
                &&& (dot0 + 1 == 456 && ly0 + 1 < 154 ==> dot1 == 0 && ly1 == ly0 + 1)
                &&& (dot0 + 1 == 456 && ly0 + 1 == 154 ==> dot1 == 0 && ly1 == 0)
            }),
            final(interupt_flags).v_blank == (old(interupt_flags).v_blank || (old(status).ly + 1
                == 144 && old(self)@.dot_counter + 1 == 456)),
    {
        let dot: u16 = self.dot_counter + 1;
        if dot < 456 {
            self.dot_counter = dot;
            if status.ly < 144 {
                if dot == 80 {
                    self.oam_progress = 0;
                    memory_lock.vram = Some(MemoryLockOwner::PPU);
                    status.stat.ppu_mode = 3;
                } else if dot == 252 {
                    memory_lock.vram = None;
                    memory_lock.oam = None;
                    status.stat.ppu_mode = 0;
                }
            }
        } else {
            self.dot_counter = 0;
            let ly: u8 = status.ly + 1;
            if ly == 154 {
                status.ly = 0;
            } else {
                status.ly = ly;
            }
            if status.ly < 144 {
                self.objects_buffer.clear();
                self.oam_progress = 0;
                memory_lock.oam = Some(MemoryLockOwner::PPU);
                memory_lock.vram = None;
                status.stat.ppu_mode = 2;
            } else if status.ly == 144 {
                status.stat.ppu_mode = 1;
                interupt_flags.v_blank = true;
            }
        }
    }

    /// Advance the pipeline by one dot, as the pipeline itself (it takes
    /// the bus). Every dot recomputes the LY-compare flag and may raise the
    /// STAT interrupt, and moves the sprite-table copy along; the dot that
    /// crosses a mode boundary performs that mode's entry work.
    #[verifier::rlimit(100)]
    #[verifier::spinoff_prover]
    pub fn step(&mut self, memory: &mut Bus)
        requires
            old(self).wf(),
            old(memory).wf(),
            ppu_sync(old(self)@, old(memory)@),
        ensures
            final(self).wf(),
            final(memory).wf(),
            ppu_sync(final(self)@, final(memory)@),
            final(memory)@.current_owner == MemoryLockOwner::PPU,
            spec_ppu_frame(old(memory)@, final(memory)@),
            // the position advances by one dot, wrapping at the line and frame ends
            ({
                let ly0 = old(memory)@.io.lcd.status.ly;
                let dot0 = old(self)@.dot_counter;
                let ly1 = final(memory)@.io.lcd.status.ly;
                let dot1 = final(self)@.dot_counter;
                &&& (dot0 + 1 < 456 ==> dot1 == dot0 + 1 && ly1 == ly0)
                &&& (dot0 + 1 == 456 && ly0 + 1 < 154 ==> dot1 == 0 && ly1 == ly0 + 1)
                &&& (dot0 + 1 == 456 && ly0 + 1 == 154 ==> dot1 == 0 && ly1 == 0)
            }),
            // the V-blank flag rises exactly on the entry into line 144
            final(memory)@.interupt_flags.v_blank == (old(memory)@.interupt_flags.v_blank || (old(
                memory,
            )@.io.lcd.status.ly + 1 == 144 && old(self)@.dot_counter + 1 == 456)),
            // the STAT flag rises exactly on an enabled LY-compare match
            final(memory)@.interupt_flags.lcd_stat == (old(memory)@.interupt_flags.lcd_stat || (
            old(memory)@.io.lcd.status.stat.lyc_interupt && old(memory)@.io.lcd.status.ly == old(
                memory,
            )@.io.lcd.status.lyc)),
            // the compare flag is recomputed from the line the dot started on
            final(memory)@.io.lcd.status.stat.lyc_ly == (old(memory)@.io.lcd.status.ly == old(
                memory,
            )@.io.lcd.status.lyc),
    {
        memory.current_owner = MemoryLockOwner::PPU;
        self.dot_duties(memory);
        self.advance_position(
            &mut memory.memory_lock,
            &mut memory.io.lcd.status,
            &mut memory.interupt_flags,
        );
    }

    /// Advance the pipeline by four dots for every processor cycle
    /// spent: the dot clock runs four times the machine cycle clock.
    /// The frame position moves forward by exactly that many dots,
    /// wrapping at the frame length, and the V-blank flag rises exactly
    /// when one of those dots is the entry into line 144.
    pub fn run_for(&mut self, memory: &mut Bus, cycles: u8)
        requires
            old(self).wf(),
            old(memory).wf(),
            ppu_sync(old(self)@, old(memory)@),
        ensures
            final(self).wf(),
            final(memory).wf(),
            ppu_sync(final(self)@, final(memory)@),
            spec_ppu_frame(old(memory)@, final(memory)@),
            spec_frame_pos(final(memory)@.io.lcd.status.ly, final(self)@.dot_counter)
                == spec_pos_after(
                spec_frame_pos(old(memory)@.io.lcd.status.ly, old(self)@.dot_counter),
                4 * cycles,
            ),
            final(memory)@.interupt_flags.v_blank == (old(memory)@.interupt_flags.v_blank
                || spec_crosses_v_blank(
                spec_frame_pos(old(memory)@.io.lcd.status.ly, old(self)@.dot_counter),
                4 * cycles,
            )),
            old(memory)@.interupt_flags.lcd_stat ==> final(memory)@.interupt_flags.lcd_stat,
    {
        let ghost pos0 = spec_frame_pos(old(memory)@.io.lcd.status.ly, old(self)@.dot_counter);
        proof {
            vstd::arithmetic::div_mod::lemma_small_mod(pos0 as nat, 70224nat);
        }
        let mut i: u16 = 0;
        let dots: u16 = (cycles as u16) * 4;
        while i < dots
            invariant
                i <= dots,
                dots == 4 * cycles,
                self.wf(),
                memory.wf(),
                ppu_sync(self@, memory@),
                spec_ppu_frame(old(memory)@, memory@),
                0 <= pos0 < 70224,
                spec_frame_pos(memory@.io.lcd.status.ly, self@.dot_counter) == spec_pos_after(
                    pos0,
                    i as int,
                ),
                memory@.interupt_flags.v_blank == (old(memory)@.interupt_flags.v_blank
                    || spec_crosses_v_blank(pos0, i as int)),
                old(memory)@.interupt_flags.lcd_stat ==> memory@.interupt_flags.lcd_stat,
            decreases dots - i,
        {
            let ghost ly_in = memory@.io.lcd.status.ly;
            let ghost dot_in = self@.dot_counter;
            self.step(memory);
            proof {
                lemma_pos_incr(pos0, i as int);
                let entered = ly_in + 1 == 144 && dot_in + 1 == 456;
                assert(spec_frame_pos(memory@.io.lcd.status.ly, self@.dot_counter)
                    == spec_pos_after(pos0, i + 1));
                assert(entered ==> spec_pos_after(pos0, i + 1) == 65664);
                assert(!entered ==> spec_pos_after(pos0, i + 1) != 65664);
                if entered {
                    assert(spec_pos_after(pos0, (i + 1) as int) == 65664);
                    assert(spec_crosses_v_blank(pos0, (i + 1) as int));
                } else {
                    assert(spec_crosses_v_blank(pos0, (i + 1) as int) == spec_crosses_v_blank(
                        pos0,
                        i as int,
                    )) by {
                        if spec_crosses_v_blank(pos0, (i + 1) as int) {
                            let j = choose|j: int|
                                1 <= j <= i + 1 && #[trigger] spec_pos_after(pos0, j) == 65664;
                            if j == i + 1 {
                                assert(false);
                            } else {
                                assert(1 <= j <= i as int && spec_pos_after(pos0, j) == 65664);
                            }
                        }
                        if spec_crosses_v_blank(pos0, i as int) {
                            let j = choose|j: int|
                                1 <= j <= i && #[trigger] spec_pos_after(pos0, j) == 65664;
                            assert(1 <= j <= i + 1 && spec_pos_after(pos0, j) == 65664);
                        }
                    }
                }
            }
            i = i + 1;
        }
        proof {
            assert(i as int == 4 * cycles);
            assert(spec_frame_pos(memory@.io.lcd.status.ly, self@.dot_counter) == spec_pos_after(
                pos0,
                4 * cycles,
            ));
            assert(memory@.interupt_flags.v_blank == (old(memory)@.interupt_flags.v_blank
                || spec_crosses_v_blank(pos0, 4 * cycles)));
        }
    }
}

} // verus!
