use vstd::prelude::*;

use crate::apu::sequencer::Sequencer;

verus! {

/// How a pulse channel negates the change of its sweep: the first pulse
/// channel subtracts one more (ones' complement), the second does not.
#[derive(Clone, Copy, PartialEq, Eq, Structural, Debug)]
pub enum SweepNegationMode {
    OnesCompliment,
    TwosCompliment,
}

/// The sweep unit of a pulse channel: every few half frames it moves the
/// channel's period up or down by the period shifted right.
pub struct Sweep {
    pub enabled: bool,
    pub period: u8,
    pub negate: bool,
    pub shift: u8,
    pub reload: bool,
    pub divider: u8,
    pub negation_mode: SweepNegationMode,
}

/// The period that the sweep aims at from `current` (never below zero).
pub open spec fn sweep_target(sweep: Sweep, current: u16) -> int {
    let change = current as int / pow2_shift(sweep.shift);
    if sweep.negate {
        let extra = if sweep.negation_mode == SweepNegationMode::OnesCompliment {
            1int
        } else {
            0
        };
        if current - change - extra < 0 {
            0
        } else {
            current - change - extra
        }
    } else {
        current + change
    }
}

/// 2 to the power of a shift of at most 7.
pub open spec fn pow2_shift(s: u8) -> int {
    if s == 0 {
        1
    } else if s == 1 {
        2
    } else if s == 2 {
        4
    } else if s == 3 {
        8
    } else if s == 4 {
        16
    } else if s == 5 {
        32
    } else if s == 6 {
        64
    } else {
        128
    }
}

/// A right shift by at most 7 divides by the matching power of two.
proof fn lemma_shift_right_cases(c: u32)
    by (bit_vector)
    ensures
        c >> 0u32 == c / 1,
        c >> 1u32 == c / 2,
        c >> 2u32 == c / 4,
        c >> 3u32 == c / 8,
        c >> 4u32 == c / 16,
        c >> 5u32 == c / 32,
        c >> 6u32 == c / 64,
        c >> 7u32 == c / 128,
{
}

proof fn lemma_shift_right(c: u32, s: u8)
    requires
        s < 8,
    ensures
        (c >> (s as u32)) as int == c as int / pow2_shift(s),
{
    lemma_shift_right_cases(c);
}

impl Sweep {
    /// The sweep after a write of `data`.
    pub open spec fn after_write(self, data: u8) -> Sweep {
        Sweep {
            enabled: data & 0x80 != 0,
            period: (data / 16) % 8,
            negate: data & 0x08 != 0,
            shift: data % 8,
            reload: true,
            ..self
        }
    }

    /// The channel period after a half-frame clock of the sweep: the target
    /// when the divider expires, the sweep is enabled, the shift is non-zero
    /// and the channel is not muted (period at least 8, target within 11
    /// bits); otherwise unchanged.
    pub open spec fn swept_period(self, period: u16) -> u16 {
        if self.divider == 0 && self.enabled && self.shift > 0 && period >= 8 && sweep_target(self, period) <= 0x7FF {
            sweep_target(self, period) as u16
        } else {
            period
        }
    }

    /// The sweep after a half-frame clock: the divider reloads when it has
    /// expired or a reload is pending, else counts down.
    pub open spec fn after_tick(self) -> Sweep {
        if self.divider == 0 || self.reload {
            Sweep { divider: self.period, reload: false, ..self }
        } else {
            Sweep { divider: (self.divider - 1) as u8, ..self }
        }
    }

    /// Period and shift are three-bit fields.
    pub open spec fn wf(&self) -> bool {
        self.period < 8 && self.shift < 8
    }

    pub fn new(negation_mode: SweepNegationMode) -> (s: Sweep)
        ensures
            s == (Sweep {
                enabled: false,
                period: 0,
                negate: false,
                shift: 0,
                reload: false,
                divider: 0,
                negation_mode: negation_mode,
            }),
            s.wf(),
    {
        Sweep { enabled: false, period: 0, negate: false, shift: 0, reload: false, divider: 0, negation_mode }
    }

    /// Bit 7 enables, bits 4-6 are the divider period, bit 3 negates and
    /// bits 0-2 are the shift; the divider reloads at the next clock.
    pub fn write(&mut self, data: u8)
        ensures
            *final(self) == old(self).after_write(data),
            final(self).wf(),
    {
        let p = (data >> 4u8) & 0b111;
        let s = data & 0b111;
        assert(p == (data / 16) % 8 && s == data % 8) by (bit_vector)
            requires
                p == (data >> 4u8) & 0b111,
                s == data & 0b111,
        ;
        self.enabled = data & 0x80 != 0;
        self.period = p;
        self.negate = data & 0x08 != 0;
        self.shift = s;
        self.reload = true;
    }

    /// The target period computed from `current`.
    pub fn target(&self, current: u16) -> (r: u32)
        requires
            self.wf(),
        ensures
            r == sweep_target(*self, current),
    {
        let c = current as u32;
        let sh = self.shift as u32;
        let change = c >> sh;
        proof {
            lemma_shift_right(c, self.shift);
        }
        if self.negate {
            let extra: u32 = match self.negation_mode {
                SweepNegationMode::OnesCompliment => 1,
                SweepNegationMode::TwosCompliment => 0,
            };
            if c < change + extra {
                0
            } else {
                c - change - extra
            }
        } else {
            c + change
        }
    }

    /// Half-frame clock: when the divider expires, the sweep is enabled, the
    /// shift is non-zero and the channel is not muted (period at least 8,
    /// target within 11 bits), the channel's period becomes the target.
    pub fn tick(&mut self, sequencer: &mut Sequencer)
        requires
            old(self).wf(),
        ensures
            final(self).wf(),
            *final(sequencer) == (Sequencer { period: old(self).swept_period(old(sequencer).period), ..*old(sequencer) }),
            *final(self) == old(self).after_tick(),
    {
        let target = self.target(sequencer.period);
        if self.divider == 0 && self.enabled && self.shift > 0 && sequencer.period >= 8 && target <= 0x7FF {
            sequencer.period = target as u16;
        }
        if self.divider == 0 || self.reload {
            self.divider = self.period;
            self.reload = false;
        } else {
            self.divider = self.divider - 1;
        }
    }
}

} // verus!
