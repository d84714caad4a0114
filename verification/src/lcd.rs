//! The LCD register group: control, status, scroll positions, and the
//! monochrome palettes, each with its byte encoding, plus the per-dot
//! LY-compare interrupt source.
use vstd::prelude::*;

use crate::interrupts::InteruptFlags;

verus! {

#[derive(Debug, Clone, Copy, PartialEq, Eq, Structural)]
pub enum WindowTileMapArea {
    Area0,
    Area1,
}

#[derive(Debug, Clone, Copy, PartialEq, Eq, Structural)]
pub enum BGWindowTileDataArea {
    Area0,
    Area1,
}

#[derive(Debug, Clone, Copy, PartialEq, Eq, Structural)]
pub enum BGTileMapArea {
    Area0,
    Area1,
}

/// Whether sprites are one tile tall or two.
#[derive(Debug, Clone, Copy, PartialEq, Eq, Structural)]
pub enum SpriteSize {
    Size8x8,
    Size8x16,
}

/// The LCD control register's eight bits, decoded.
#[derive(Debug, Clone, Copy, PartialEq, Eq, Structural)]
pub struct LCDControl {
    pub lcd_enable: bool,
    pub window_tile_map_area: WindowTileMapArea,
    pub window_enable: bool,
    pub bg_window_tile_data_area: BGWindowTileDataArea,
    pub bg_tile_map_area: BGTileMapArea,
    pub obj_size: SpriteSize,
    pub obj_enable: bool,
    pub bg_window_enable_priority: bool,
}

impl LCDControl {
    pub fn new() -> (r: Self)
        ensures
            r == LCDControl::spec_power_on(),
    {
        Self {
            lcd_enable: true,
            window_tile_map_area: WindowTileMapArea::Area0,
            window_enable: false,
            bg_window_tile_data_area: BGWindowTileDataArea::Area0,
            bg_tile_map_area: BGTileMapArea::Area0,
            obj_size: SpriteSize::Size8x8,
            obj_enable: false,
            bg_window_enable_priority: false,
        }
    }

    /// The power-on state: display enabled, everything else clear.
    pub open spec fn spec_power_on() -> LCDControl {
        LCDControl {
            lcd_enable: true,
            window_tile_map_area: WindowTileMapArea::Area0,
            window_enable: false,
            bg_window_tile_data_area: BGWindowTileDataArea::Area0,
            bg_tile_map_area: BGTileMapArea::Area0,
            obj_size: SpriteSize::Size8x8,
            obj_enable: false,
            bg_window_enable_priority: false,
        }
    }

    /// The byte the register shows: display enable in bit 7 down to the
    /// background priority bit in bit 0.
    pub open spec fn spec_to_byte(self) -> u8 {
        (if self.lcd_enable { 0b1000_0000u8 } else { 0u8 }) | (if self.window_tile_map_area
            == WindowTileMapArea::Area1 { 0b0100_0000u8 } else { 0u8 }) | (if self.window_enable {
            0b0010_0000u8
        } else {
            0u8
        }) | (if self.bg_window_tile_data_area == BGWindowTileDataArea::Area1 {
            0b0001_0000u8
        } else {
            0u8
        }) | (if self.bg_tile_map_area == BGTileMapArea::Area1 { 0b0000_1000u8 } else { 0u8 }) | (
        if self.obj_size == SpriteSize::Size8x16 { 0b0000_0100u8 } else { 0u8 }) | (if self.obj_enable {
            0b0000_0010u8
        } else {
            0u8
        }) | (if self.bg_window_enable_priority { 0b0000_0001u8 } else { 0u8 })
    }

    /// The control state a byte write selects, one field per bit.
    pub open spec fn spec_from_byte(value: u8) -> LCDControl {
        LCDControl {
            lcd_enable: value & 0b1000_0000 != 0,
            window_tile_map_area: if value & 0b0100_0000 != 0 {
                WindowTileMapArea::Area1
            } else {
                WindowTileMapArea::Area0
            },
            window_enable: value & 0b0010_0000 != 0,
            bg_window_tile_data_area: if value & 0b0001_0000 != 0 {
                BGWindowTileDataArea::Area1
            } else {
                BGWindowTileDataArea::Area0
            },
            bg_tile_map_area: if value & 0b0000_1000 != 0 {
                BGTileMapArea::Area1
            } else {
                BGTileMapArea::Area0
            },
            obj_size: if value & 0b0000_0100 != 0 {
                SpriteSize::Size8x16
            } else {
                SpriteSize::Size8x8
            },
            obj_enable: value & 0b0000_0010 != 0,
            bg_window_enable_priority: value & 0b0000_0001 != 0,
        }
    }

    pub fn to_byte(self) -> (r: u8)
        ensures
            r == self.spec_to_byte(),
    {
        (if self.lcd_enable { 0b1000_0000u8 } else { 0u8 }) | (if self.window_tile_map_area
            == WindowTileMapArea::Area1 { 0b0100_0000u8 } else { 0u8 }) | (if self.window_enable {
            0b0010_0000u8
        } else {
            0u8
        }) | (if self.bg_window_tile_data_area == BGWindowTileDataArea::Area1 {
            0b0001_0000u8
        } else {
            0u8
        }) | (if self.bg_tile_map_area == BGTileMapArea::Area1 { 0b0000_1000u8 } else { 0u8 }) | (
        if self.obj_size == SpriteSize::Size8x16 { 0b0000_0100u8 } else { 0u8 }) | (if self.obj_enable {
            0b0000_0010u8
        } else {
            0u8
        }) | (if self.bg_window_enable_priority { 0b0000_0001u8 } else { 0u8 })
    }

    pub fn from_byte(value: u8) -> (r: Self)
        ensures
            r == LCDControl::spec_from_byte(value),
    {
        LCDControl {
            lcd_enable: value & 0b1000_0000 != 0,
            window_tile_map_area: if value & 0b0100_0000 != 0 {
                WindowTileMapArea::Area1
            } else {
                WindowTileMapArea::Area0
            },
            window_enable: value & 0b0010_0000 != 0,
            bg_window_tile_data_area: if value & 0b0001_0000 != 0 {
                BGWindowTileDataArea::Area1
            } else {
                BGWindowTileDataArea::Area0
            },
            bg_tile_map_area: if value & 0b0000_1000 != 0 {
                BGTileMapArea::Area1
            } else {
                BGTileMapArea::Area0
            },
            obj_size: if value & 0b0000_0100 != 0 {
                SpriteSize::Size8x16
            } else {
                SpriteSize::Size8x8
            },
            obj_enable: value & 0b0000_0010 != 0,
            bg_window_enable_priority: value & 0b0000_0001 != 0,
        }
    }
}

/// The LCD status register: the interrupt source enables, the LY-compare
/// flag, and the pixel pipeline's mode in the low two bits.
#[derive(Debug, Clone, Copy, PartialEq, Eq, Structural)]
pub struct StatRegister {
    pub lyc_interupt: bool,
    pub mode_2_oam_interrupt: bool,
    pub mode_1_vblank_interrupt: bool,
    pub mode_0_hblank_interrupt: bool,
    pub lyc_ly: bool,
    /// Always one of 0, 1, 2, 3.
    pub ppu_mode: u8,
}

impl StatRegister {
    /// The mode field holds only the four encodable values.
    pub open spec fn wf(self) -> bool {
        self.ppu_mode < 4
    }

    pub fn new() -> (r: Self)
        ensures
            r == (StatRegister {
                lyc_interupt: false,
                mode_2_oam_interrupt: false,
                mode_1_vblank_interrupt: false,
                mode_0_hblank_interrupt: false,
                lyc_ly: false,
                ppu_mode: 2u8,
            }),
            r.wf(),
    {
        Self {
            lyc_interupt: false,
            mode_2_oam_interrupt: false,
            mode_1_vblank_interrupt: false,
            mode_0_hblank_interrupt: false,
            lyc_ly: false,
            ppu_mode: 2,
        }
    }

    /// The byte the register shows: enables in bits 6 to 3, the compare flag
    /// in bit 2, the mode in bits 1 and 0.
    pub open spec fn spec_to_byte(self) -> u8 {
        (if self.lyc_interupt { 0b0100_0000u8 } else { 0u8 }) | (if self.mode_2_oam_interrupt {
            0b0010_0000u8
        } else {
            0u8
        }) | (if self.mode_1_vblank_interrupt { 0b0001_0000u8 } else { 0u8 }) | (
        if self.mode_0_hblank_interrupt { 0b0000_1000u8 } else { 0u8 }) | (if self.lyc_ly {
            0b0000_0100u8
        } else {
            0u8
        }) | (self.ppu_mode & 0b0000_0011)
    }

    /// The status a byte write selects; bit 7 is ignored and the mode bits
    /// are masked to their field.
    pub open spec fn spec_from_byte(value: u8) -> StatRegister {
        StatRegister {
            lyc_interupt: value & 0b0100_0000 != 0,
            mode_2_oam_interrupt: value & 0b0010_0000 != 0,
            mode_1_vblank_interrupt: value & 0b0001_0000 != 0,
            mode_0_hblank_interrupt: value & 0b0000_1000 != 0,
            lyc_ly: value & 0b0000_0100 != 0,
            ppu_mode: value & 0b0000_0011,
        }
    }

    pub fn to_byte(self) -> (r: u8)
        ensures
            r == self.spec_to_byte(),
    {
        (if self.lyc_interupt { 0b0100_0000u8 } else { 0u8 }) | (if self.mode_2_oam_interrupt {
            0b0010_0000u8
        } else {
            0u8
        }) | (if self.mode_1_vblank_interrupt { 0b0001_0000u8 } else { 0u8 }) | (
        if self.mode_0_hblank_interrupt { 0b0000_1000u8 } else { 0u8 }) | (if self.lyc_ly {
            0b0000_0100u8
        } else {
            0u8
        }) | (self.ppu_mode & 0b0000_0011)
    }

    pub fn from_byte(value: u8) -> (r: Self)
        ensures
            r == StatRegister::spec_from_byte(value),
            r.wf(),
    {
        proof {
            assert(value & 0b0000_0011 < 4) by (bit_vector);
        }
        StatRegister {
            lyc_interupt: value & 0b0100_0000 != 0,
            mode_2_oam_interrupt: value & 0b0010_0000 != 0,
            mode_1_vblank_interrupt: value & 0b0001_0000 != 0,
            mode_0_hblank_interrupt: value & 0b0000_1000 != 0,
            lyc_ly: value & 0b0000_0100 != 0,
            ppu_mode: value & 0b0000_0011,
        }
    }
}

/// The scanline counter, the compare line, and the status register.
#[derive(Debug, Clone, Copy, PartialEq, Eq, Structural)]
pub struct LCDStatus {
    pub ly: u8,
    pub lyc: u8,
    pub stat: StatRegister,
}

impl LCDStatus {
    pub fn new() -> (r: Self)
        ensures
            r == (LCDStatus {
                ly: 0u8,
                lyc: 0u8,
                stat: StatRegister {
                    lyc_interupt: false,
                    mode_2_oam_interrupt: false,
                    mode_1_vblank_interrupt: false,
                    mode_0_hblank_interrupt: false,
                    lyc_ly: false,
                    ppu_mode: 2u8,
                },
            }),
    {
        Self { ly: 0, lyc: 0, stat: StatRegister::new() }
    }

    /// What a read at one of the three status addresses returns.
    pub open spec fn spec_read_byte(self, address: u16) -> u8 {
        if address == 0xFF41 {
            self.stat.spec_to_byte()
        } else if address == 0xFF44 {
            self.ly
        } else if address == 0xFF45 {
            self.lyc
        } else {
            0u8
        }
    }

    pub fn read_byte(&self, address: u16) -> (r: u8)
        ensures
            r == self.spec_read_byte(address),
    {
        match address {
            0xFF41 => self.stat.to_byte(),
            0xFF44 => self.ly,
            0xFF45 => self.lyc,
            _ => 0,
        }
    }

    /// The status group after a byte write. Only the four interrupt
    /// enables of the status register take a write; the compare flag and
    /// the mode bits belong to the pixel pipeline, and the scanline
    /// counter ignores writes altogether.
    pub open spec fn spec_write_byte(self, address: u16, value: u8) -> LCDStatus {
        if address == 0xFF41 {
            LCDStatus {
                stat: StatRegister {
                    lyc_interupt: value & 0b0100_0000 != 0,
                    mode_2_oam_interrupt: value & 0b0010_0000 != 0,
                    mode_1_vblank_interrupt: value & 0b0001_0000 != 0,
                    mode_0_hblank_interrupt: value & 0b0000_1000 != 0,
                    ..self.stat
                },
                ..self
            }
        } else if address == 0xFF45 {
            LCDStatus { lyc: value, ..self }
        } else {
            self
        }
    }

    pub fn write_byte(&mut self, address: u16, value: u8)
        ensures
            *final(self) == old(self).spec_write_byte(address, value),
    {
        match address {
            0xFF41 => {
                self.stat.lyc_interupt = value & 0b0100_0000 != 0;
                self.stat.mode_2_oam_interrupt = value & 0b0010_0000 != 0;
                self.stat.mode_1_vblank_interrupt = value & 0b0001_0000 != 0;
                self.stat.mode_0_hblank_interrupt = value & 0b0000_1000 != 0;
            },
            0xFF45 => self.lyc = value,
            _ => (),
        }
    }

    /// Raise the STAT interrupt when the compare interrupt is enabled and
    /// the scanline counter matches the compare line.
    pub fn tick(&self, interupt_flags: &mut InteruptFlags)
        ensures
            *final(interupt_flags) == (InteruptFlags {
                lcd_stat: old(interupt_flags).lcd_stat || (self.stat.lyc_interupt && self.ly
                    == self.lyc),
                ..*old(interupt_flags)
            }),
    {
        if self.stat.lyc_interupt {
            if self.ly == self.lyc {
                interupt_flags.lcd_stat = true;
            }
        }
    }
}

/// The four scroll and window position bytes.
#[derive(Debug, Clone, Copy, PartialEq, Eq, Structural)]
pub struct LCDPosScroll {
    pub scy: u8,
    pub scx: u8,
    pub wy: u8,
    pub wx: u8,
}

impl LCDPosScroll {
    pub fn new() -> (r: Self)
        ensures
            r == (LCDPosScroll { scy: 0u8, scx: 0u8, wy: 0u8, wx: 0u8 }),
    {
        Self { scy: 0, scx: 0, wy: 0, wx: 0 }
    }
}

/// One of the four monochrome shades.
#[derive(Debug, Clone, Copy, PartialEq, Eq, Structural)]
pub enum Color {
    White,
    LightGray,
    DarkGray,
    Black,
}

impl Color {
    /// The shade the low two bits of a value select.
    pub open spec fn spec_from_bits(value: u8) -> Color {
        if value & 0b11 == 0 {
            Color::White
        } else if value & 0b11 == 1 {
            Color::LightGray
        } else if value & 0b11 == 2 {
            Color::DarkGray
        } else {
            Color::Black
        }
    }

    pub fn from_bits(value: u8) -> (r: Self)
        ensures
            r == Color::spec_from_bits(value),
    {
        if value & 0b11 == 0 {
            Color::White
        } else if value & 0b11 == 1 {
            Color::LightGray
        } else if value & 0b11 == 2 {
            Color::DarkGray
        } else {
            Color::Black
        }
    }

    /// The two bits encoding this shade.
    pub open spec fn spec_to_bits(self) -> u8 {
        match self {
            Color::White => 0u8,
            Color::LightGray => 1u8,
            Color::DarkGray => 2u8,
            Color::Black => 3u8,
        }
    }

    pub fn to_bits(self) -> (r: u8)
        ensures
            r == self.spec_to_bits(),
    {
        match self {
            Color::White => 0,
            Color::LightGray => 1,
            Color::DarkGray => 2,
            Color::Black => 3,
        }
    }
}

/// A palette byte decoded into its four shades, two bits each.
#[derive(Debug, Clone, Copy, PartialEq, Eq, Structural)]
pub struct ColorPalette {
    pub color3: Color,
    pub color2: Color,
    pub color1: Color,
    pub color0: Color,
}

impl ColorPalette {
    pub fn new() -> (r: Self)
        ensures
            r == (ColorPalette {
                color3: Color::White,
                color2: Color::White,
                color1: Color::White,
                color0: Color::White,
            }),
    {
        Self {
            color3: Color::White,
            color2: Color::White,
            color1: Color::White,
            color0: Color::White,
        }
    }

    /// The byte the palette shows, two bits per shade.
    pub open spec fn spec_to_byte(self) -> u8 {
        self.color3.spec_to_bits() | (self.color2.spec_to_bits() << 2) | (
        self.color1.spec_to_bits() << 4) | (self.color0.spec_to_bits() << 6)
    }

    /// The palette a byte write selects.
    pub open spec fn spec_from_byte(value: u8) -> ColorPalette {
        ColorPalette {
            color3: Color::spec_from_bits(value & 0b0000_0011),
            color2: Color::spec_from_bits((value >> 2) & 0b0000_0011),
            color1: Color::spec_from_bits((value >> 4) & 0b0000_0011),
            color0: Color::spec_from_bits((value >> 6) & 0b0000_0011),
        }
    }

    pub fn to_byte(self) -> (r: u8)
        ensures
            r == self.spec_to_byte(),
    {
        self.color3.to_bits() | (self.color2.to_bits() << 2) | (self.color1.to_bits() << 4) | (
        self.color0.to_bits() << 6)
    }

    pub fn from_byte(value: u8) -> (r: Self)
        ensures
            r == ColorPalette::spec_from_byte(value),
    {
        ColorPalette {
            color3: Color::from_bits(value & 0b0000_0011),
            color2: Color::from_bits((value >> 2) & 0b0000_0011),
            color1: Color::from_bits((value >> 4) & 0b0000_0011),
            color0: Color::from_bits((value >> 6) & 0b0000_0011),
        }
    }
}

/// The three monochrome palettes.
#[derive(Debug, Clone, Copy, PartialEq, Eq, Structural)]
pub struct LCDPalettes {
    pub bgp: ColorPalette,
    pub obp0: ColorPalette,
    pub obp1: ColorPalette,
}

impl LCDPalettes {
    pub fn new() -> (r: Self)
        ensures
            r == (LCDPalettes {
                bgp: ColorPalette {
                    color3: Color::White,
                    color2: Color::White,
                    color1: Color::White,
                    color0: Color::White,
                },
                obp0: ColorPalette {
                    color3: Color::White,
                    color2: Color::White,
                    color1: Color::White,
                    color0: Color::White,
                },
                obp1: ColorPalette {
                    color3: Color::White,
                    color2: Color::White,
                    color1: Color::White,
                    color0: Color::White,
                },
            }),
    {
        Self { bgp: ColorPalette::new(), obp0: ColorPalette::new(), obp1: ColorPalette::new() }
    }
}

/// The whole LCD register group as one addressable block.
#[derive(Debug, Clone, Copy, PartialEq, Eq, Structural)]
pub struct LCDRegisters {
    pub control: LCDControl,
    pub status: LCDStatus,
    pub pos_scroll: LCDPosScroll,
    pub palettes: LCDPalettes,
}

impl LCDRegisters {
    pub fn new() -> (r: Self)
        ensures
            r.control == LCDControl::spec_power_on(),
            r.status.ly == 0,
            r.status.lyc == 0,
            r.status.stat.ppu_mode == 2,
            r.status.stat.lyc_interupt == false,
            r.status.stat.lyc_ly == false,
            r.pos_scroll == (LCDPosScroll { scy: 0u8, scx: 0u8, wy: 0u8, wx: 0u8 }),
    {
        Self {
            control: LCDControl::new(),
            status: LCDStatus::new(),
            pos_scroll: LCDPosScroll::new(),
            palettes: LCDPalettes::new(),
        }
    }

    /// What a read in the LCD block returns; the DMA trigger address is
    /// served by the sprite table, and anything else reads zero.
    pub open spec fn spec_read_byte(self, address: u16) -> u8 {
        if address == 0xFF40 {
            self.control.spec_to_byte()
        } else if address == 0xFF41 || address == 0xFF44 || address == 0xFF45 {
            self.status.spec_read_byte(address)
        } else if address == 0xFF42 {
            self.pos_scroll.scy
        } else if address == 0xFF43 {
            self.pos_scroll.scx
        } else if address == 0xFF47 {
            self.palettes.bgp.spec_to_byte()
        } else if address == 0xFF48 {
            self.palettes.obp0.spec_to_byte()
        } else if address == 0xFF49 {
            self.palettes.obp1.spec_to_byte()
        } else if address == 0xFF4A {
            self.pos_scroll.wy
        } else if address == 0xFF4B {
            self.pos_scroll.wx
        } else {
            0u8
        }
    }

    pub fn read_byte(&self, address: u16) -> (r: u8)
        ensures
            r == self.spec_read_byte(address),
    {
        match address {
            0xFF40 => self.control.to_byte(),
            0xFF41 => self.status.read_byte(address),
            0xFF42 => self.pos_scroll.scy,
            0xFF43 => self.pos_scroll.scx,
            0xFF44 => self.status.ly,
            0xFF45 => self.status.lyc,
            0xFF47 => self.palettes.bgp.to_byte(),
            0xFF48 => self.palettes.obp0.to_byte(),
            0xFF49 => self.palettes.obp1.to_byte(),
            0xFF4A => self.pos_scroll.wy,
            0xFF4B => self.pos_scroll.wx,
            _ => 0,
        }
    }

    /// The register group after a byte write; writes to unassigned
    /// addresses in the block change nothing.
    pub open spec fn spec_write_byte(self, address: u16, value: u8) -> LCDRegisters {
        if address == 0xFF40 {
            LCDRegisters { control: LCDControl::spec_from_byte(value), ..self }
        } else if address == 0xFF41 || address == 0xFF44 || address == 0xFF45 {
            LCDRegisters { status: self.status.spec_write_byte(address, value), ..self }
        } else if address == 0xFF42 {
            LCDRegisters { pos_scroll: LCDPosScroll { scy: value, ..self.pos_scroll }, ..self }
        } else if address == 0xFF43 {
            LCDRegisters { pos_scroll: LCDPosScroll { scx: value, ..self.pos_scroll }, ..self }
        } else if address == 0xFF47 {
            LCDRegisters {
                palettes: LCDPalettes {
                    bgp: ColorPalette::spec_from_byte(value),
                    ..self.palettes
                },
                ..self
            }
        } else if address == 0xFF48 {
            LCDRegisters {
                palettes: LCDPalettes {
                    obp0: ColorPalette::spec_from_byte(value),
                    ..self.palettes
                },
                ..self
            }
        } else if address == 0xFF49 {
            LCDRegisters {
                palettes: LCDPalettes {
                    obp1: ColorPalette::spec_from_byte(value),
                    ..self.palettes
                },
                ..self
            }
        } else if address == 0xFF4A {
            LCDRegisters { pos_scroll: LCDPosScroll { wy: value, ..self.pos_scroll }, ..self }
        } else if address == 0xFF4B {
            LCDRegisters { pos_scroll: LCDPosScroll { wx: value, ..self.pos_scroll }, ..self }
        } else {
            self
        }
    }

    pub fn write_byte(&mut self, address: u16, value: u8)
        ensures
            *final(self) == old(self).spec_write_byte(address, value),
    {
        match address {
            0xFF40 => self.control = LCDControl::from_byte(value),
            0xFF41 => self.status.write_byte(address, value),
            0xFF42 => self.pos_scroll.scy = value,
            0xFF43 => self.pos_scroll.scx = value,
            0xFF44 => self.status.write_byte(address, value),
            0xFF45 => self.status.write_byte(address, value),
            0xFF47 => self.palettes.bgp = ColorPalette::from_byte(value),
            0xFF48 => self.palettes.obp0 = ColorPalette::from_byte(value),
            0xFF49 => self.palettes.obp1 = ColorPalette::from_byte(value),
            0xFF4A => self.pos_scroll.wy = value,
            0xFF4B => self.pos_scroll.wx = value,
            _ => (),
        }
    }
}

} // verus!
