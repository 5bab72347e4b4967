use vstd::prelude::*;

use crate::apu::envelope::Envelope;
use crate::apu::length_counter::LengthCounter;

verus! {

/// The timer periods that the low four bits of $400E select.
pub open spec fn noise_period(index: u8) -> u16 {
    match index {
        0 => 4,
        1 => 8,
        2 => 16,
        3 => 32,
        4 => 64,
        5 => 96,
        6 => 128,
        7 => 160,
        8 => 202,
        9 => 254,
        10 => 380,
        11 => 508,
        12 => 762,
        13 => 1016,
        14 => 2034,
        _ => 4068,
    }
}

fn noise_period_lookup(index: u8) -> (r: u16)
    ensures
        r == noise_period(index),
{
    match index {
        0 => 4,
        1 => 8,
        2 => 16,
        3 => 32,
        4 => 64,
        5 => 96,
        6 => 128,
        7 => 160,
        8 => 202,
        9 => 254,
        10 => 380,
        11 => 508,
        12 => 762,
        13 => 1016,
        14 => 2034,
        _ => 4068,
    }
}

/// One step of the 15-bit feedback shift register: shift right and feed
/// bit 0 xor bit 6 (short mode) or bit 1 (long mode) into bit 14.
pub open spec fn lfsr_step(shift: u16, mode: bool) -> u16 {
    let tap: u16 = if mode {
        6
    } else {
        1
    };
    (shift >> 1u16) | ((((shift >> tap) & 1) ^ (shift & 1)) << 14u16)
}

/// The noise channel ($400C-$400F).
pub struct NoiseChannel {
    pub envelope: Envelope,
    pub length_counter: LengthCounter,
    pub mode: bool,
    pub period: u16,
    pub counter: u16,
    pub shift: u16,
}

impl NoiseChannel {
    /// A fresh channel: a fresh envelope and length counter, mode 0, period
    /// and timer 0, and the shift register at 1.
    pub open spec fn initial() -> NoiseChannel {
        NoiseChannel {
            envelope: Envelope::initial(),
            length_counter: LengthCounter::initial(),
            mode: false,
            period: 0,
            counter: 0,
            shift: 1,
        }
    }

    pub open spec fn wf(&self) -> bool {
        self.envelope.wf()
    }

    /// The envelope level while the length counter runs and bit 0 of the
    /// shift register is clear, else 0.
    pub open spec fn output(&self) -> u8 {
        if self.length_counter.counter > 0 && self.shift & 1 == 0 {
            self.envelope.volume_of()
        } else {
            0
        }
    }

    /// The channel after a write of `data` to `addr`.
    pub open spec fn after_write(self, addr: u16, data: u8) -> NoiseChannel {
        if addr == 0x400C {
            NoiseChannel {
                length_counter: LengthCounter { pending_halt: data & 0b0010_0000 != 0, ..self.length_counter },
                envelope: self.envelope.after_write(data),
                ..self
            }
        } else if addr == 0x400E {
            NoiseChannel { mode: data & 0b1000_0000 != 0, period: noise_period(data % 16), ..self }
        } else if addr == 0x400F {
            NoiseChannel {
                length_counter: self.length_counter.after_write(data),
                envelope: Envelope { start: true, ..self.envelope },
                ..self
            }
        } else {
            self
        }
    }

    /// The channel after a timer clock.
    pub open spec fn after_tick_sequencer(self) -> NoiseChannel {
        if self.counter > 0 {
            NoiseChannel { counter: (self.counter - 1) as u16, ..self }
        } else {
            NoiseChannel { counter: self.period, shift: lfsr_step(self.shift, self.mode), ..self }
        }
    }

    /// The channel after a quarter-frame clock.
    pub open spec fn after_tick_quarter(self) -> NoiseChannel {
        NoiseChannel { envelope: self.envelope.after_tick(), ..self }
    }

    /// The channel after a half-frame clock.
    pub open spec fn after_tick_half(self) -> NoiseChannel {
        NoiseChannel { length_counter: self.length_counter.after_tick(), ..self }
    }

    pub open spec fn after_set_enabled(self, value: bool) -> NoiseChannel {
        NoiseChannel { length_counter: self.length_counter.after_set_enabled(value), ..self }
    }

    pub open spec fn after_update(self) -> NoiseChannel {
        NoiseChannel { length_counter: self.length_counter.after_update(), ..self }
    }

    pub fn new() -> (n: NoiseChannel)
        ensures
            n == NoiseChannel::initial(),
            n.wf(),
    {
        NoiseChannel {
            envelope: Envelope::new(),
            length_counter: LengthCounter::new(),
            mode: false,
            period: 0,
            counter: 0,
            shift: 1,
        }
    }

    /// $400C: halt and envelope; $400E: mode and period; $400F: length and
    /// envelope restart. Other addresses are ignored.
    pub fn write(&mut self, addr: u16, data: u8)
        requires
            old(self).wf(),
        ensures
            final(self).wf(),
            addr == 0x400C ==> final(self).length_counter.pending_halt == (data & 0b0010_0000 != 0)
                && final(self).envelope.volume == data % 16,
            addr == 0x400E ==> final(self).mode == (data & 0b1000_0000 != 0) && final(self).period
                == noise_period(data % 16),
            addr == 0x400F ==> final(self).envelope.start,
            addr != 0x400C && addr != 0x400E && addr != 0x400F ==> *final(self) == *old(self),
            final(self).shift == old(self).shift,
            final(self).counter == old(self).counter,
            *final(self) == old(self).after_write(addr, data),
    {
        if addr == 0x400C {
            self.length_counter.set_halt(data & 0b0010_0000 != 0);
            self.envelope.write(data);
        } else if addr == 0x400E {
            self.mode = data & 0b1000_0000 != 0;
            let i = data & 0b1111;
            assert(i == data % 16) by (bit_vector)
                requires
                    i == data & 0b1111,
            ;
            self.period = noise_period_lookup(i);
        } else if addr == 0x400F {
            self.length_counter.write(data);
            self.envelope.start();
        }
    }

    pub fn sample(&self) -> (r: u8)
        requires
            self.wf(),
        ensures
            r == self.output(),
            r <= 15,
    {
        if self.length_counter.active() && self.shift & 1 == 0 {
            self.envelope.get_volume()
        } else {
            0
        }
    }

    /// Timer clock: counts down; at 0 it reloads and steps the shift register.
    pub fn tick_sequencer(&mut self)
        requires
            old(self).wf(),
        ensures
            final(self).wf(),
            old(self).counter > 0 ==> final(self).counter == old(self).counter - 1 && final(self).shift
                == old(self).shift,
            old(self).counter == 0 ==> final(self).counter == old(self).period && final(self).shift
                == lfsr_step(old(self).shift, old(self).mode),
            final(self).envelope == old(self).envelope,
            final(self).length_counter == old(self).length_counter,
            final(self).mode == old(self).mode,
            final(self).period == old(self).period,
            *final(self) == old(self).after_tick_sequencer(),
    {
        if self.counter > 0 {
            self.counter = self.counter - 1;
            return ;
        }
        self.counter = self.period;
        let tap: u16 = if self.mode { 6 } else { 1 };
        let b1 = (self.shift >> tap) & 1;
        let b2 = self.shift & 1;
        self.shift = (self.shift >> 1u16) | ((b1 ^ b2) << 14u16);
    }

    pub fn tick_quarter(&mut self)
        requires
            old(self).wf(),
        ensures
            final(self).wf(),
            final(self).length_counter == old(self).length_counter,
            final(self).shift == old(self).shift,
            *final(self) == old(self).after_tick_quarter(),
    {
        self.envelope.tick();
    }

    pub fn tick_half(&mut self)
        requires
            old(self).wf(),
        ensures
            final(self).wf(),
            final(self).length_counter.counter == if !old(self).length_counter.halt
                && old(self).length_counter.counter > 0 {
                (old(self).length_counter.counter - 1) as int
            } else {
                old(self).length_counter.counter as int
            },
            final(self).envelope == old(self).envelope,
            final(self).shift == old(self).shift,
            *final(self) == old(self).after_tick_half(),
    {
        self.length_counter.tick();
    }

    pub fn playing(&mut self) -> (r: bool)
        ensures
            r == (old(self).length_counter.counter > 0),
            *final(self) == *old(self),
    {
        self.length_counter.playing()
    }

    pub fn set_enabled(&mut self, value: bool)
        requires
            old(self).wf(),
        ensures
            final(self).wf(),
            final(self).length_counter.enabled == value,
            !value ==> final(self).length_counter.counter == 0,
            value ==> final(self).length_counter.counter == old(self).length_counter.counter,
            final(self).envelope == old(self).envelope,
            final(self).shift == old(self).shift,
            *final(self) == old(self).after_set_enabled(value),
    {
        self.length_counter.set_enabled(value);
    }

    pub fn update(&mut self)
        requires
            old(self).wf(),
        ensures
            final(self).wf(),
            final(self).length_counter.halt == old(self).length_counter.pending_halt,
            final(self).length_counter.counter == old(self).length_counter.counter,
            final(self).envelope == old(self).envelope,
            final(self).shift == old(self).shift,
            *final(self) == old(self).after_update(),
    {
        self.length_counter.update();
    }
}


/// When the timer reloads, the 15-bit shift register moves right by one and
/// bit 14 receives bit 0 xor bit 1 of the old value in the normal mode, bit
/// 0 xor bit 6 in the short mode; it stays within 15 bits.
pub proof fn law_noise_feedback(n: NoiseChannel)
    requires
        n.counter == 0,
        n.shift < 0x8000,
    ensures
        n.after_tick_sequencer().shift & 0x3FFF == n.shift >> 1u16,
        n.after_tick_sequencer().shift < 0x8000,
        !n.mode ==> (n.after_tick_sequencer().shift >> 14u16) & 1 == (n.shift & 1) ^ ((n.shift >> 1u16) & 1),
        n.mode ==> (n.after_tick_sequencer().shift >> 14u16) & 1 == (n.shift & 1) ^ ((n.shift >> 6u16) & 1),
        n.after_tick_sequencer().counter == n.period,
{
    let old = n.shift;
    let tap: u16 = if n.mode { 6 } else { 1 };
    lemma_lfsr_bits(old, tap);
}

/// The bits of one step of the shift register with feedback from bit `tap`.
proof fn lemma_lfsr_bits(old: u16, tap: u16)
    by (bit_vector)
    requires
        old < 0x8000,
    ensures
        ((old >> 1u16) | ((((old >> tap) & 1) ^ (old & 1)) << 14u16)) & 0x3FFF == old >> 1u16,
        ((old >> 1u16) | ((((old >> tap) & 1) ^ (old & 1)) << 14u16)) < 0x8000,
        (((old >> 1u16) | ((((old >> tap) & 1) ^ (old & 1)) << 14u16)) >> 14u16) & 1 == (old & 1) ^ ((old >> tap) & 1),
{
}

} // verus!
