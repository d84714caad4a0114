//! Object attribute memory: forty sprite descriptors of four bytes each,
//! plus the state of the slow copy that fills them from a source page.
use vstd::prelude::*;

verus! {

/// Which monochrome object palette a sprite uses.
#[derive(Debug, Clone, Copy, PartialEq, Eq, Structural)]
pub enum DMGPalette {
    OBP0,
    OBP1,
}

/// Which video RAM bank a sprite's tile lives in.
#[derive(Debug, Clone, Copy, PartialEq, Eq, Structural)]
pub enum VRAMBank {
    Bank0,
    Bank1,
}

/// The color-model palette index in the low three flag bits.
#[derive(Debug, Clone, Copy, PartialEq, Eq, Structural)]
pub enum CGBPalette {
    Palette0,
    Palette1,
    Palette2,
    Palette3,
    Palette4,
    Palette5,
    Palette6,
    Palette7,
}

impl CGBPalette {
    /// The palette the low three bits of a flags byte select.
    pub open spec fn spec_from_bits(value: u8) -> CGBPalette {
        if value & 0b111 == 0 {
            CGBPalette::Palette0
        } else if value & 0b111 == 1 {
            CGBPalette::Palette1
        } else if value & 0b111 == 2 {
            CGBPalette::Palette2
        } else if value & 0b111 == 3 {
            CGBPalette::Palette3
        } else if value & 0b111 == 4 {
            CGBPalette::Palette4
        } else if value & 0b111 == 5 {
            CGBPalette::Palette5
        } else if value & 0b111 == 6 {
            CGBPalette::Palette6
        } else {
            CGBPalette::Palette7
        }
    }

    pub fn from_bits(value: u8) -> (r: Self)
        ensures
            r == CGBPalette::spec_from_bits(value),
    {
        if value & 0b111 == 0 {
            CGBPalette::Palette0
        } else if value & 0b111 == 1 {
            CGBPalette::Palette1
        } else if value & 0b111 == 2 {
            CGBPalette::Palette2
        } else if value & 0b111 == 3 {
            CGBPalette::Palette3
        } else if value & 0b111 == 4 {
            CGBPalette::Palette4
        } else if value & 0b111 == 5 {
            CGBPalette::Palette5
        } else if value & 0b111 == 6 {
            CGBPalette::Palette6
        } else {
            CGBPalette::Palette7
        }
    }

    /// The three bits encoding this palette.
    pub open spec fn spec_to_bits(self) -> u8 {
        match self {
            CGBPalette::Palette0 => 0u8,
            CGBPalette::Palette1 => 1u8,
            CGBPalette::Palette2 => 2u8,
            CGBPalette::Palette3 => 3u8,
            CGBPalette::Palette4 => 4u8,
            CGBPalette::Palette5 => 5u8,
            CGBPalette::Palette6 => 6u8,
            CGBPalette::Palette7 => 7u8,
        }
    }

    pub fn to_bits(self) -> (r: u8)
        ensures
            r == self.spec_to_bits(),
    {
        match self {
            CGBPalette::Palette0 => 0,
            CGBPalette::Palette1 => 1,
            CGBPalette::Palette2 => 2,
            CGBPalette::Palette3 => 3,
            CGBPalette::Palette4 => 4,
            CGBPalette::Palette5 => 5,
            CGBPalette::Palette6 => 6,
            CGBPalette::Palette7 => 7,
        }
    }
}

/// A sprite's flags byte, decoded: priority, the two flips, the palettes,
/// and the bank.
#[derive(Debug, Clone, Copy, PartialEq, Eq, Structural)]
pub struct ObjectAttributeFlags {
    pub priority: bool,
    pub y_flip: bool,
    pub x_flip: bool,
    pub dmg_palette: DMGPalette,
    pub bank: VRAMBank,
    pub cgb_palette: CGBPalette,
}

impl ObjectAttributeFlags {
    pub fn new() -> (r: Self)
        ensures
            r == (ObjectAttributeFlags {
                priority: false,
                y_flip: false,
                x_flip: false,
                dmg_palette: DMGPalette::OBP0,
                bank: VRAMBank::Bank0,
                cgb_palette: CGBPalette::Palette0,
            }),
    {
        Self {
            priority: false,
            y_flip: false,
            x_flip: false,
            dmg_palette: DMGPalette::OBP0,
            bank: VRAMBank::Bank0,
            cgb_palette: CGBPalette::Palette0,
        }
    }

    /// The flag set a byte write selects, one field per bit group.
    pub open spec fn spec_from_byte(byte: u8) -> ObjectAttributeFlags {
        ObjectAttributeFlags {
            priority: byte & 0b1000_0000 != 0,
            y_flip: byte & 0b0100_0000 != 0,
            x_flip: byte & 0b0010_0000 != 0,
            dmg_palette: if byte & 0b0001_0000 != 0 {
                DMGPalette::OBP1
            } else {
                DMGPalette::OBP0
            },
            bank: if byte & 0b0000_1000 != 0 {
                VRAMBank::Bank1
            } else {
                VRAMBank::Bank0
            },
            cgb_palette: CGBPalette::spec_from_bits(byte & 0b0000_0111),
        }
    }

    /// The byte the flags encode to.
    pub open spec fn spec_to_byte(self) -> u8 {
        (if self.priority { 0b1000_0000u8 } else { 0u8 }) | (if self.y_flip {
            0b0100_0000u8
        } else {
            0u8
        }) | (if self.x_flip { 0b0010_0000u8 } else { 0u8 }) | (if self.dmg_palette
            == DMGPalette::OBP1 { 0b0001_0000u8 } else { 0u8 }) | (if self.bank == VRAMBank::Bank1 {
            0b0000_1000u8
        } else {
            0u8
        }) | self.cgb_palette.spec_to_bits()
    }

    pub fn from_byte(byte: u8) -> (r: Self)
        ensures
            r == ObjectAttributeFlags::spec_from_byte(byte),
    {
        ObjectAttributeFlags {
            priority: byte & 0b1000_0000 != 0,
            y_flip: byte & 0b0100_0000 != 0,
            x_flip: byte & 0b0010_0000 != 0,
            dmg_palette: if byte & 0b0001_0000 != 0 {
                DMGPalette::OBP1
            } else {
                DMGPalette::OBP0
            },
            bank: if byte & 0b0000_1000 != 0 {
                VRAMBank::Bank1
            } else {
                VRAMBank::Bank0
            },
            cgb_palette: CGBPalette::from_bits(byte & 0b0000_0111),
        }
    }

    pub fn to_byte(self) -> (r: u8)
        ensures
            r == self.spec_to_byte(),
    {
        (if self.priority { 0b1000_0000u8 } else { 0u8 }) | (if self.y_flip {
            0b0100_0000u8
        } else {
            0u8
        }) | (if self.x_flip { 0b0010_0000u8 } else { 0u8 }) | (if self.dmg_palette
            == DMGPalette::OBP1 { 0b0001_0000u8 } else { 0u8 }) | (if self.bank == VRAMBank::Bank1 {
            0b0000_1000u8
        } else {
            0u8
        }) | self.cgb_palette.to_bits()
    }
}

/// Encoding the flags a byte decodes to gives the byte back: every one of
/// the eight bits is kept.
pub proof fn lemma_object_flags_roundtrip(byte: u8)
    ensures
        ObjectAttributeFlags::spec_from_byte(byte).spec_to_byte() == byte,
{
    let f = ObjectAttributeFlags::spec_from_byte(byte);
    let p: u8 = if f.priority { 0b1000_0000u8 } else { 0u8 };
    let y: u8 = if f.y_flip { 0b0100_0000u8 } else { 0u8 };
    let x: u8 = if f.x_flip { 0b0010_0000u8 } else { 0u8 };
    let d: u8 = if f.dmg_palette == DMGPalette::OBP1 { 0b0001_0000u8 } else { 0u8 };
    let b: u8 = if f.bank == VRAMBank::Bank1 { 0b0000_1000u8 } else { 0u8 };
    let c = f.cgb_palette.spec_to_bits();
    assert((byte & 0b0000_0111) & 0b0000_0111 == byte & 0b0000_0111 && byte & 0b0000_0111 < 8)
        by (bit_vector);
    assert(c == byte & 0b0000_0111);
    assert(p | y | x | d | b | c == byte) by (bit_vector)
        requires
            p == (if byte & 0b1000_0000 != 0 { 0b1000_0000u8 } else { 0u8 }),
            y == (if byte & 0b0100_0000 != 0 { 0b0100_0000u8 } else { 0u8 }),
            x == (if byte & 0b0010_0000 != 0 { 0b0010_0000u8 } else { 0u8 }),
            d == (if byte & 0b0001_0000 != 0 { 0b0001_0000u8 } else { 0u8 }),
            b == (if byte & 0b0000_1000 != 0 { 0b0000_1000u8 } else { 0u8 }),
            c == byte & 0b0000_0111,
    ;
}

/// One sprite descriptor: screen position, tile index, and flags.
#[derive(Debug, Clone, Copy, PartialEq, Eq, Structural)]
pub struct ObjectAttribute {
    pub y: u8,
    pub x: u8,
    pub index: u8,
    pub flags: ObjectAttributeFlags,
}

impl ObjectAttribute {
    pub fn new() -> (r: Self)
        ensures
            r == ObjectAttribute::spec_clear(),
    {
        Self { y: 0, x: 0, index: 0, flags: ObjectAttributeFlags::new() }
    }

    /// The descriptor with every byte clear.
    pub open spec fn spec_clear() -> ObjectAttribute {
        ObjectAttribute {
            y: 0u8,
            x: 0u8,
            index: 0u8,
            flags: ObjectAttributeFlags {
                priority: false,
                y_flip: false,
                x_flip: false,
                dmg_palette: DMGPalette::OBP0,
                bank: VRAMBank::Bank0,
                cgb_palette: CGBPalette::Palette0,
            },
        }
    }

    /// The byte at one of the descriptor's four offsets.
    pub open spec fn spec_read_byte(self, offset: u16) -> u8 {
        if offset == 0 {
            self.y
        } else if offset == 1 {
            self.x
        } else if offset == 2 {
            self.index
        } else {
            self.flags.spec_to_byte()
        }
    }

    pub fn read_byte(&self, offset: u16) -> (r: u8)
        requires
            offset < 4,
        ensures
            r == self.spec_read_byte(offset),
    {
        match offset {
            0 => self.y,
            1 => self.x,
            2 => self.index,
            _ => self.flags.to_byte(),
        }
    }

    /// The descriptor after a byte write at one of its four offsets.
    pub open spec fn spec_write_byte(self, offset: u16, value: u8) -> ObjectAttribute {
        if offset == 0 {
            ObjectAttribute { y: value, ..self }
        } else if offset == 1 {
            ObjectAttribute { x: value, ..self }
        } else if offset == 2 {
            ObjectAttribute { index: value, ..self }
        } else {
            ObjectAttribute { flags: ObjectAttributeFlags::spec_from_byte(value), ..self }
        }
    }

    pub fn write_byte(&mut self, offset: u16, value: u8)
        requires
            offset < 4,
        ensures
            *final(self) == old(self).spec_write_byte(offset, value),
    {
        match offset {
            0 => self.y = value,
            1 => self.x = value,
            2 => self.index = value,
            _ => self.flags = ObjectAttributeFlags::from_byte(value),
        }
    }
}

/// What the sprite table looks like in specifications: the copy state and
/// the forty descriptors.
pub struct OamView {
    pub transfer: bool,
    pub progress: u16,
    pub source_upper_byte: u8,
    pub data: Seq<ObjectAttribute>,
}

/// The sprite table and the state of the byte-by-byte copy that fills it:
/// a source page, a progress count, and whether a copy is running.
#[derive(Debug, Clone)]
pub struct Oam {
    pub transfer: bool,
    pub progress: u16,
    pub source_upper_byte: u8,
    pub data: Vec<ObjectAttribute>,
}

impl View for Oam {
    type V = OamView;

    open spec fn view(&self) -> OamView {
        OamView {
            transfer: self.transfer,
            progress: self.progress,
            source_upper_byte: self.source_upper_byte,
            data: self.data@,
        }
    }
}

impl Oam {
    /// Exactly forty descriptors, and the copy never runs past them.
    pub open spec fn wf(self) -> bool {
        self.data@.len() == 40 && self.progress <= 160
    }

    pub fn new() -> (r: Self)
        ensures
            r.wf(),
            r@.transfer == false,
            r@.progress == 0,
            r@.source_upper_byte == 0,
            r@.data == Seq::new(40nat, |i: int| ObjectAttribute::spec_clear()),
    {
        let mut data: Vec<ObjectAttribute> = Vec::new();
        let mut i: usize = 0;
        while i < 40
            invariant
                i <= 40,
                data@.len() == i,
                forall|j: int| 0 <= j < i ==> data@[j] == ObjectAttribute::spec_clear(),
            decreases 40 - i,
        {
            data.push(ObjectAttribute::new());
            i = i + 1;
        }
        proof {
            assert(data@ =~= Seq::new(40nat, |i: int| ObjectAttribute::spec_clear()));
        }
        Oam { transfer: false, progress: 0, source_upper_byte: 0, data }
    }

    /// What a read returns: the latched source page at the trigger address,
    /// or one byte of a descriptor inside the table.
    pub open spec fn spec_read_byte(v: OamView, address: u16) -> u8 {
        if address == 0xFF46 {
            v.source_upper_byte
        } else if 0xFE00 <= address <= 0xFE9F {
            v.data[(address - 0xFE00) / 4].spec_read_byte(((address - 0xFE00) % 4) as u16)
        } else {
            0u8
        }
    }

    pub fn read_byte(&self, address: u16) -> (r: u8)
        requires
            self.wf(),
        ensures
            r == Oam::spec_read_byte(self@, address),
    {
        if address == 0xFF46 {
            self.source_upper_byte
        } else if 0xFE00 <= address && address <= 0xFE9F {
            let offset: u16 = address - 0xFE00;
            self.data[(offset / 4) as usize].read_byte(offset % 4)
        } else {
            0
        }
    }

    /// The table after a write: the trigger address latches a source page
    /// and starts a copy; an address inside the table changes one byte of
    /// one descriptor.
    pub open spec fn spec_write_byte(v: OamView, address: u16, value: u8) -> OamView {
        if address == 0xFF46 {
            OamView { transfer: true, source_upper_byte: value, ..v }
        } else if 0xFE00 <= address <= 0xFE9F {
            let i = (address - 0xFE00) / 4;
            OamView {
                data: v.data.update(
                    i,
                    v.data[i].spec_write_byte(((address - 0xFE00) % 4) as u16, value),
                ),
                ..v
            }
        } else {
            v
        }
    }

    pub fn write_byte(&mut self, address: u16, value: u8)
        requires
            old(self).wf(),
        ensures
            final(self).wf(),
            final(self)@ == Oam::spec_write_byte(old(self)@, address, value),
    {
        if address == 0xFF46 {
            self.transfer = true;
            self.source_upper_byte = value;
        } else if 0xFE00 <= address && address <= 0xFE9F {
            let offset: u16 = address - 0xFE00;
            let i: usize = (offset / 4) as usize;
            let mut oa: ObjectAttribute = self.data[i];
            oa.write_byte(offset % 4, value);
            self.data[i] = oa;
        }
        proof {
            assert(self@ =~= Oam::spec_write_byte(old(self)@, address, value));
        }
    }
}

} // verus!
