//! The free-running divider and the programmable timer. One tick per CPU
//! cycle: DIV steps every 256 cycles; TIMA steps at the selected rate while
//! enabled, and on overflow reloads from TMA and raises the timer interrupt.
use vstd::prelude::*;

use crate::interrupts::InteruptFlags;

verus! {

/// The timer rate selected by the low two bits of the control register,
/// named by the resulting frequency.
#[derive(Debug, Clone, Copy, PartialEq, Eq, Structural)]
pub enum ClockSelect {
    Hz4096,
    Hz262144,
    Hz65536,
    Hz16384,
}

/// The timer control register: an enable bit and the rate select.
#[derive(Debug, Clone, Copy, PartialEq, Eq, Structural)]
pub struct TimerControl {
    pub timer_enable: bool,
    pub clock_select: ClockSelect,
}

impl TimerControl {
    pub fn new() -> (r: Self)
        ensures
            r == (TimerControl { timer_enable: false, clock_select: ClockSelect::Hz4096 }),
    {
        Self { timer_enable: false, clock_select: ClockSelect::Hz4096 }
    }

    /// The byte the register shows: enable in bit 2, rate in bits 0 and 1.
    pub open spec fn spec_to_byte(self) -> u8 {
        (if self.timer_enable { 0b0000_0100u8 } else { 0u8 }) | (match self.clock_select {
            ClockSelect::Hz4096 => 0u8,
            ClockSelect::Hz262144 => 1u8,
            ClockSelect::Hz65536 => 2u8,
            ClockSelect::Hz16384 => 3u8,
        })
    }

    /// The control state a byte write selects; bits 3 to 7 are ignored.
    pub open spec fn spec_from_byte(value: u8) -> TimerControl {
        TimerControl {
            timer_enable: value & 0b0000_0100 != 0,
            clock_select: if value & 0b0000_0011 == 0 {
                ClockSelect::Hz4096
            } else if value & 0b0000_0011 == 1 {
                ClockSelect::Hz262144
            } else if value & 0b0000_0011 == 2 {
                ClockSelect::Hz65536
            } else {
                ClockSelect::Hz16384
            },
        }
    }

    pub fn to_byte(self) -> (r: u8)
        ensures
            r == self.spec_to_byte(),
    {
        (if self.timer_enable { 0b0000_0100u8 } else { 0u8 }) | (match self.clock_select {
            ClockSelect::Hz4096 => 0u8,
            ClockSelect::Hz262144 => 1u8,
            ClockSelect::Hz65536 => 2u8,
            ClockSelect::Hz16384 => 3u8,
        })
    }

    pub fn from_byte(value: u8) -> (r: Self)
        ensures
            r == TimerControl::spec_from_byte(value),
    {
        TimerControl {
            timer_enable: value & 0b0000_0100 != 0,
            clock_select: if value & 0b0000_0011 == 0 {
                ClockSelect::Hz4096
            } else if value & 0b0000_0011 == 1 {
                ClockSelect::Hz262144
            } else if value & 0b0000_0011 == 2 {
                ClockSelect::Hz65536
            } else {
                ClockSelect::Hz16384
            },
        }
    }

    /// How many CPU cycles pass between two timer steps at this rate.
    pub open spec fn spec_period(self) -> u16 {
        match self.clock_select {
            ClockSelect::Hz4096 => 1024u16,
            ClockSelect::Hz262144 => 16u16,
            ClockSelect::Hz65536 => 64u16,
            ClockSelect::Hz16384 => 256u16,
        }
    }

    pub fn period(self) -> (r: u16)
        ensures
            r == self.spec_period(),
    {
        match self.clock_select {
            ClockSelect::Hz4096 => 1024,
            ClockSelect::Hz262144 => 16,
            ClockSelect::Hz65536 => 64,
            ClockSelect::Hz16384 => 256,
        }
    }
}

/// The divider and timer registers with their sub-cycle counters. Writing
/// the divider address clears both the visible divider byte and its own
/// sub-cycle counter; the timer's sub-cycle counter is a separate count and
/// is not disturbed by that write.
#[derive(Debug, Clone, Copy, PartialEq, Eq, Structural)]
pub struct TimeDividerRegister {
    /// Cycles counted since the divider last stepped; always below 256.
    pub div_counter: u16,
    /// Cycles counted since the timer last stepped.
    pub tima_counter: u16,
    pub div: u8,
    pub tima: u8,
    pub tma: u8,
    pub tac: TimerControl,
}

impl TimeDividerRegister {
    /// The power-on state: everything cleared, timer disabled.
    pub open spec fn spec_power_on() -> TimeDividerRegister {
        TimeDividerRegister {
            div_counter: 0u16,
            tima_counter: 0u16,
            div: 0u8,
            tima: 0u8,
            tma: 0u8,
            tac: TimerControl { timer_enable: false, clock_select: ClockSelect::Hz4096 },
        }
    }

    pub fn new() -> (r: Self)
        ensures
            r == (TimeDividerRegister {
                div_counter: 0u16,
                tima_counter: 0u16,
                div: 0u8,
                tima: 0u8,
                tma: 0u8,
                tac: TimerControl { timer_enable: false, clock_select: ClockSelect::Hz4096 },
            }),
    {
        Self { div_counter: 0, tima_counter: 0, div: 0, tima: 0, tma: 0, tac: TimerControl::new() }
    }

    /// Step the visible divider byte once, wrapping silently.
    pub fn incr_div(&mut self)
        ensures
            *final(self) == (TimeDividerRegister {
                div: vstd::wrapping::u8_specs::wrapping_add(old(self).div, 1),
                ..*old(self)
            }),
    {
        self.div = self.div.wrapping_add(1);
    }

    /// Step the timer once: on overflow it reloads from TMA and raises the
    /// timer interrupt flag; otherwise it just counts.
    pub fn incr_tima(&mut self, interupt_flags: &mut InteruptFlags)
        ensures
            old(self).tima == 0xFF ==> *final(self) == (TimeDividerRegister {
                tima: old(self).tma,
                ..*old(self)
            }) && *final(interupt_flags) == (InteruptFlags { timer: true, ..*old(interupt_flags) }),
            old(self).tima < 0xFF ==> *final(self) == (TimeDividerRegister {
                tima: (old(self).tima + 1) as u8,
                ..*old(self)
            }) && *final(interupt_flags) == *old(interupt_flags),
    {
        if self.tima == 0xFF {
            self.tima = self.tma;
            interupt_flags.timer = true;
        } else {
            self.tima = self.tima + 1;
        }
    }

    /// The timer state one cycle later, apart from the timer step itself:
    /// the counter either advances or wraps to zero at the selected period.
    pub open spec fn spec_tima_ticks(self) -> bool {
        self.tac.timer_enable && self.tima_counter + 1 >= self.tac.spec_period()
    }

    /// Count one cycle toward the timer: while enabled, the counter steps,
    /// and each time it reaches the selected period the timer itself steps.
    pub fn tick_tima(&mut self, interupt_flags: &mut InteruptFlags)
        requires
            old(self).tima_counter < 1024,
        ensures
            final(self).div_counter == old(self).div_counter,
            final(self).div == old(self).div,
            final(self).tma == old(self).tma,
            final(self).tac == old(self).tac,
            final(self).tima_counter < 1024,
            !old(self).tac.timer_enable ==> *final(self) == *old(self) && *final(interupt_flags)
                == *old(interupt_flags),
            old(self).tac.timer_enable && !old(self).spec_tima_ticks() ==> *final(self) == (
            TimeDividerRegister { tima_counter: (old(self).tima_counter + 1) as u16, ..*old(self) })
                && *final(interupt_flags) == *old(interupt_flags),
            old(self).spec_tima_ticks() ==> {
                &&& final(self).tima_counter == 0
                &&& (old(self).tima == 0xFF ==> final(self).tima == old(self).tma
                    && *final(interupt_flags) == (InteruptFlags { timer: true, ..*old(interupt_flags) }))
                &&& (old(self).tima < 0xFF ==> final(self).tima == old(self).tima + 1
                    && *final(interupt_flags) == *old(interupt_flags))
            },
    {
        if self.tac.timer_enable {
            let next: u16 = self.tima_counter + 1;
            if next >= self.tac.period() {
                self.tima_counter = 0;
                self.incr_tima(interupt_flags);
            } else {
                self.tima_counter = next;
            }
        }
    }

    /// Count one cycle toward the divider: every 256th cycle steps DIV.
    pub fn tick_div(&mut self)
        requires
            old(self).div_counter < 256,
        ensures
            final(self).tima_counter == old(self).tima_counter,
            final(self).tima == old(self).tima,
            final(self).tma == old(self).tma,
            final(self).tac == old(self).tac,
            final(self).div_counter < 256,
            old(self).div_counter + 1 < 256 ==> *final(self) == (TimeDividerRegister {
                div_counter: (old(self).div_counter + 1) as u16,
                ..*old(self)
            }),
            old(self).div_counter + 1 == 256 ==> *final(self) == (TimeDividerRegister {
                div_counter: 0u16,
                div: vstd::wrapping::u8_specs::wrapping_add(old(self).div, 1),
                ..*old(self)
            }),
    {
        let next: u16 = self.div_counter + 1;
        if next == 256 {
            self.div_counter = 0;
            self.incr_div();
        } else {
            self.div_counter = next;
        }
    }

    /// Both counters are within their periods.
    pub open spec fn wf(self) -> bool {
        self.div_counter < 256 && self.tima_counter < 1024
    }

    /// Advance the timer subsystem by one CPU cycle.
    pub fn tick(&mut self, interupt_flags: &mut InteruptFlags)
        requires
            old(self).wf(),
        ensures
            final(self).wf(),
            (*final(self), *final(interupt_flags)) == spec_tick1(*old(self), *old(interupt_flags)),
            final(self).tma == old(self).tma,
            final(self).tac == old(self).tac,
            final(interupt_flags).timer == (old(interupt_flags).timer
                || (old(self).spec_tima_ticks() && old(self).tima == 0xFF)),
            old(self).spec_tima_ticks() && old(self).tima == 0xFF ==> final(self).tima
                == old(self).tma,
            old(self).spec_tima_ticks() && old(self).tima < 0xFF ==> final(self).tima
                == old(self).tima + 1,
            !old(self).spec_tima_ticks() ==> final(self).tima == old(self).tima,
            *final(interupt_flags) == (InteruptFlags {
                timer: final(interupt_flags).timer,
                ..*old(interupt_flags)
            }),
    {
        self.tick_tima(interupt_flags);
        self.tick_div();
    }

    /// Writing the divider address clears the visible byte and its counter.
    pub fn write_div(&mut self)
        ensures
            *final(self) == (TimeDividerRegister { div: 0u8, div_counter: 0u16, ..*old(self) }),
    {
        self.div = 0;
        self.div_counter = 0;
    }

    /// What a read at one of the four timer addresses returns; any other
    /// address reads the neutral value zero.
    pub open spec fn spec_read_byte(self, address: u16) -> u8 {
        if address == 0xFF04 {
            self.div
        } else if address == 0xFF05 {
            self.tima
        } else if address == 0xFF06 {
            self.tma
        } else if address == 0xFF07 {
            self.tac.spec_to_byte()
        } else {
            0u8
        }
    }

    pub fn read_byte(&self, address: u16) -> (r: u8)
        ensures
            r == self.spec_read_byte(address),
    {
        match address {
            0xFF04 => self.div,
            0xFF05 => self.tima,
            0xFF06 => self.tma,
            0xFF07 => self.tac.to_byte(),
            _ => 0,
        }
    }

    /// The timer state after a byte write; writes elsewhere change nothing.
    pub open spec fn spec_write_byte(self, address: u16, value: u8) -> TimeDividerRegister {
        if address == 0xFF04 {
            TimeDividerRegister { div: 0u8, div_counter: 0u16, ..self }
        } else if address == 0xFF05 {
            TimeDividerRegister { tima: value, ..self }
        } else if address == 0xFF06 {
            TimeDividerRegister { tma: value, ..self }
        } else if address == 0xFF07 {
            TimeDividerRegister { tac: TimerControl::spec_from_byte(value), ..self }
        } else {
            self
        }
    }

    pub fn write_byte(&mut self, address: u16, value: u8)
        ensures
            *final(self) == old(self).spec_write_byte(address, value),
    {
        match address {
            0xFF04 => self.write_div(),
            0xFF05 => self.tima = value,
            0xFF06 => self.tma = value,
            0xFF07 => self.tac = TimerControl::from_byte(value),
            _ => (),
        }
    }
}


/// One cycle of the timer subsystem as a function: what `tick` does to
/// the registers and the pending flags.
pub open spec fn spec_tick1(t: TimeDividerRegister, f: InteruptFlags) -> (
    TimeDividerRegister,
    InteruptFlags,
) {
    let stepped = t.tac.timer_enable && t.tima_counter + 1 >= t.tac.spec_period();
    let tt = if stepped {
        TimeDividerRegister {
            tima_counter: 0u16,
            tima: if t.tima == 0xFF {
                t.tma
            } else {
                (t.tima + 1) as u8
            },
            ..t
        }
    } else if t.tac.timer_enable {
        TimeDividerRegister { tima_counter: (t.tima_counter + 1) as u16, ..t }
    } else {
        t
    };
    let ff = if stepped && t.tima == 0xFF {
        InteruptFlags { timer: true, ..f }
    } else {
        f
    };
    let td = if tt.div_counter + 1 == 256 {
        TimeDividerRegister {
            div_counter: 0u16,
            div: vstd::wrapping::u8_specs::wrapping_add(tt.div, 1),
            ..tt
        }
    } else {
        TimeDividerRegister { div_counter: (tt.div_counter + 1) as u16, ..tt }
    };
    (td, ff)
}

/// The timer subsystem after a number of cycles: `tick` iterated.
pub open spec fn spec_timer_after(t: TimeDividerRegister, f: InteruptFlags, n: nat) -> (
    TimeDividerRegister,
    InteruptFlags,
)
    decreases n,
{
    if n == 0 {
        (t, f)
    } else {
        let prev = spec_timer_after(t, f, (n - 1) as nat);
        spec_tick1(prev.0, prev.1)
    }
}

} // verus!
