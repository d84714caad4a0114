//! The audio registers and the wave pattern RAM, modeled as a passive byte
//! store: sound synthesis itself is a host concern.
use vstd::prelude::*;

verus! {

/// The twenty-one named audio registers.
#[derive(Debug, Clone, Copy, PartialEq, Eq, Structural)]
pub struct AudioRegisters {
    pub nr52: u8,
    pub nr51: u8,
    pub nr50: u8,
    pub nr10: u8,
    pub nr11: u8,
    pub nr12: u8,
    pub nr13: u8,
    pub nr14: u8,
    pub nr21: u8,
    pub nr22: u8,
    pub nr23: u8,
    pub nr24: u8,
    pub nr30: u8,
    pub nr31: u8,
    pub nr32: u8,
    pub nr33: u8,
    pub nr34: u8,
    pub nr41: u8,
    pub nr42: u8,
    pub nr43: u8,
    pub nr44: u8,
}

impl AudioRegisters {
    pub fn new() -> (r: Self)
        ensures
            r == AudioRegisters::spec_clear(),
    {
        Self {
            nr52: 0,
            nr51: 0,
            nr50: 0,
            nr10: 0,
            nr11: 0,
            nr12: 0,
            nr13: 0,
            nr14: 0,
            nr21: 0,
            nr22: 0,
            nr23: 0,
            nr24: 0,
            nr30: 0,
            nr31: 0,
            nr32: 0,
            nr33: 0,
            nr34: 0,
            nr41: 0,
            nr42: 0,
            nr43: 0,
            nr44: 0,
        }
    }

    /// Every audio register cleared, the power-on state.
    pub open spec fn spec_clear() -> AudioRegisters {
        AudioRegisters {
            nr52: 0u8,
            nr51: 0u8,
            nr50: 0u8,
            nr10: 0u8,
            nr11: 0u8,
            nr12: 0u8,
            nr13: 0u8,
            nr14: 0u8,
            nr21: 0u8,
            nr22: 0u8,
            nr23: 0u8,
            nr24: 0u8,
            nr30: 0u8,
            nr31: 0u8,
            nr32: 0u8,
            nr33: 0u8,
            nr34: 0u8,
            nr41: 0u8,
            nr42: 0u8,
            nr43: 0u8,
            nr44: 0u8,
        }
    }

    /// What a read in the audio block returns; the unassigned holes and any
    /// address outside the block read the neutral value zero.
    pub open spec fn spec_read_byte(self, address: u16) -> u8 {
        if address == 0xFF10 {
            self.nr10
        } else if address == 0xFF11 {
            self.nr11
        } else if address == 0xFF12 {
            self.nr12
        } else if address == 0xFF13 {
            self.nr13
        } else if address == 0xFF14 {
            self.nr14
        } else if address == 0xFF16 {
            self.nr21
        } else if address == 0xFF17 {
            self.nr22
        } else if address == 0xFF18 {
            self.nr23
        } else if address == 0xFF19 {
            self.nr24
        } else if address == 0xFF1A {
            self.nr30
        } else if address == 0xFF1B {
            self.nr31
        } else if address == 0xFF1C {
            self.nr32
        } else if address == 0xFF1D {
            self.nr33
        } else if address == 0xFF1E {
            self.nr34
        } else if address == 0xFF20 {
            self.nr41
        } else if address == 0xFF21 {
            self.nr42
        } else if address == 0xFF22 {
            self.nr43
        } else if address == 0xFF23 {
            self.nr44
        } else if address == 0xFF24 {
            self.nr50
        } else if address == 0xFF25 {
            self.nr51
        } else if address == 0xFF26 {
            self.nr52
        } else {
            0u8
        }
    }

    pub fn read_byte(&self, address: u16) -> (r: u8)
        ensures
            r == self.spec_read_byte(address),
    {
        match address {
            0xFF10 => self.nr10,
            0xFF11 => self.nr11,
            0xFF12 => self.nr12,
            0xFF13 => self.nr13,
            0xFF14 => self.nr14,
            0xFF16 => self.nr21,
            0xFF17 => self.nr22,
            0xFF18 => self.nr23,
            0xFF19 => self.nr24,
            0xFF1A => self.nr30,
            0xFF1B => self.nr31,
            0xFF1C => self.nr32,
            0xFF1D => self.nr33,
            0xFF1E => self.nr34,
            0xFF20 => self.nr41,
            0xFF21 => self.nr42,
            0xFF22 => self.nr43,
            0xFF23 => self.nr44,
            0xFF24 => self.nr50,
            0xFF25 => self.nr51,
            0xFF26 => self.nr52,
            _ => 0,
        }
    }

    /// The register block after a byte write; writes to the unassigned holes
    /// and outside the block change nothing.
    pub open spec fn spec_write_byte(self, address: u16, value: u8) -> AudioRegisters {
        if address == 0xFF10 {
            AudioRegisters { nr10: value, ..self }
        } else if address == 0xFF11 {
            AudioRegisters { nr11: value, ..self }
        } else if address == 0xFF12 {
            AudioRegisters { nr12: value, ..self }
        } else if address == 0xFF13 {
            AudioRegisters { nr13: value, ..self }
        } else if address == 0xFF14 {
            AudioRegisters { nr14: value, ..self }
        } else if address == 0xFF16 {
            AudioRegisters { nr21: value, ..self }
        } else if address == 0xFF17 {
            AudioRegisters { nr22: value, ..self }
        } else if address == 0xFF18 {
            AudioRegisters { nr23: value, ..self }
        } else if address == 0xFF19 {
            AudioRegisters { nr24: value, ..self }
        } else if address == 0xFF1A {
            AudioRegisters { nr30: value, ..self }
        } else if address == 0xFF1B {
            AudioRegisters { nr31: value, ..self }
        } else if address == 0xFF1C {
            AudioRegisters { nr32: value, ..self }
        } else if address == 0xFF1D {
            AudioRegisters { nr33: value, ..self }
        } else if address == 0xFF1E {
            AudioRegisters { nr34: value, ..self }
        } else if address == 0xFF20 {
            AudioRegisters { nr41: value, ..self }
        } else if address == 0xFF21 {
            AudioRegisters { nr42: value, ..self }
        } else if address == 0xFF22 {
            AudioRegisters { nr43: value, ..self }
        } else if address == 0xFF23 {
            AudioRegisters { nr44: value, ..self }
        } else if address == 0xFF24 {
            AudioRegisters { nr50: value, ..self }
        } else if address == 0xFF25 {
            AudioRegisters { nr51: value, ..self }
        } else if address == 0xFF26 {
            AudioRegisters { nr52: value, ..self }
        } else {
            self
        }
    }

    pub fn write_byte(&mut self, address: u16, value: u8)
        ensures
            *final(self) == old(self).spec_write_byte(address, value),
    {
        match address {
            0xFF10 => self.nr10 = value,
            0xFF11 => self.nr11 = value,
            0xFF12 => self.nr12 = value,
            0xFF13 => self.nr13 = value,
            0xFF14 => self.nr14 = value,
            0xFF16 => self.nr21 = value,
            0xFF17 => self.nr22 = value,
            0xFF18 => self.nr23 = value,
            0xFF19 => self.nr24 = value,
            0xFF1A => self.nr30 = value,
            0xFF1B => self.nr31 = value,
            0xFF1C => self.nr32 = value,
            0xFF1D => self.nr33 = value,
            0xFF1E => self.nr34 = value,
            0xFF20 => self.nr41 = value,
            0xFF21 => self.nr42 = value,
            0xFF22 => self.nr43 = value,
            0xFF23 => self.nr44 = value,
            0xFF24 => self.nr50 = value,
            0xFF25 => self.nr51 = value,
            0xFF26 => self.nr52 = value,
            _ => (),
        }
    }
}

/// The sixteen bytes of wave pattern RAM.
#[derive(Debug, Clone)]
pub struct WavePattern {
    pub wave_pattern: Vec<u8>,
}

impl View for WavePattern {
    type V = Seq<u8>;

    open spec fn view(&self) -> Seq<u8> {
        self.wave_pattern@
    }
}

impl WavePattern {
    /// The store holds exactly its sixteen bytes.
    pub open spec fn wf(self) -> bool {
        self@.len() == 16
    }

    pub fn new() -> (r: Self)
        ensures
            r.wf(),
            r@ == Seq::new(16nat, |i: int| 0u8),
    {
        let mut v: Vec<u8> = Vec::new();
        let mut i: usize = 0;
        while i < 16
            invariant
                i <= 16,
                v@.len() == i,
                forall|j: int| 0 <= j < i ==> v@[j] == 0u8,
            decreases 16 - i,
        {
            v.push(0);
            i = i + 1;
        }
        proof {
            assert(v@ =~= Seq::new(16nat, |i: int| 0u8));
        }
        WavePattern { wave_pattern: v }
    }

    /// What a read in the wave RAM returns; outside it, the neutral zero.
    pub open spec fn spec_read_byte(self, address: u16) -> u8 {
        if 0xFF30 <= address <= 0xFF3F {
            self@[address - 0xFF30]
        } else {
            0u8
        }
    }

    pub fn read_byte(&self, address: u16) -> (r: u8)
        requires
            self.wf(),
        ensures
            r == self.spec_read_byte(address),
    {
        if 0xFF30 <= address && address <= 0xFF3F {
            self.wave_pattern[(address - 0xFF30) as usize]
        } else {
            0
        }
    }

    /// The wave RAM contents after a byte write; writes outside it change
    /// nothing.
    pub open spec fn spec_write_byte(self, address: u16, value: u8) -> Seq<u8> {
        if 0xFF30 <= address <= 0xFF3F {
            self@.update(address - 0xFF30, value)
        } else {
            self@
        }
    }

    pub fn write_byte(&mut self, address: u16, value: u8)
        requires
            old(self).wf(),
        ensures
            final(self).wf(),
            final(self)@ == old(self).spec_write_byte(address, value),
    {
        if 0xFF30 <= address && address <= 0xFF3F {
            self.wave_pattern[(address - 0xFF30) as usize] = value;
        }
    }
}

} // verus!
