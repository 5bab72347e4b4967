use vstd::prelude::*;

verus! {

/// The lengths that a write of bits 3-7 of the fourth register of a channel
/// loads into its length counter.
pub open spec fn length_table(index: u8) -> u8 {
    match index {
        0 => 10,
        1 => 254,
        2 => 20,
        3 => 2,
        4 => 40,
        5 => 4,
        6 => 80,
        7 => 6,
        8 => 160,
        9 => 8,
        10 => 60,
        11 => 10,
        12 => 14,
        13 => 12,
        14 => 26,
        15 => 14,
        16 => 12,
        17 => 16,
        18 => 24,
        19 => 18,
        20 => 48,
        21 => 20,
        22 => 96,
        23 => 22,
        24 => 192,
        25 => 24,
        26 => 72,
        27 => 26,
        28 => 16,
        29 => 28,
        30 => 32,
        _ => 30,
    }
}

pub fn length_lookup(index: u8) -> (r: u8)
    ensures
        r == length_table(index),
{
    match index {
        0 => 10,
        1 => 254,
        2 => 20,
        3 => 2,
        4 => 40,
        5 => 4,
        6 => 80,
        7 => 6,
        8 => 160,
        9 => 8,
        10 => 60,
        11 => 10,
        12 => 14,
        13 => 12,
        14 => 26,
        15 => 14,
        16 => 12,
        17 => 16,
        18 => 24,
        19 => 18,
        20 => 48,
        21 => 20,
        22 => 96,
        23 => 22,
        24 => 192,
        25 => 24,
        26 => 72,
        27 => 26,
        28 => 16,
        29 => 28,
        30 => 32,
        _ => 30,
    }
}

/// The length counter that silences a channel when it runs out: loaded from
/// the length table, clocked down every half frame unless halted, forced to
/// zero while the channel is disabled. A change of the halt flag takes
/// effect at the next `update`.
pub struct LengthCounter {
    pub enabled: bool,
    pub halt: bool,
    pub pending_halt: bool,
    pub counter: u8,
}

impl LengthCounter {
    /// A fresh length counter: disabled, not halted, at 0.
    pub open spec fn initial() -> LengthCounter {
        LengthCounter { enabled: false, halt: false, pending_halt: false, counter: 0 }
    }

    /// The counter after a write of the length index in bits 3-7 of `data`.
    pub open spec fn after_write(self, data: u8) -> LengthCounter {
        if self.enabled {
            LengthCounter { counter: length_table(data / 8), ..self }
        } else {
            self
        }
    }

    /// The counter after a half-frame clock.
    pub open spec fn after_tick(self) -> LengthCounter {
        if !self.halt && self.counter > 0 {
            LengthCounter { counter: (self.counter - 1) as u8, ..self }
        } else {
            self
        }
    }

    /// The counter after the channel is enabled or disabled.
    pub open spec fn after_set_enabled(self, value: bool) -> LengthCounter {
        if value {
            LengthCounter { enabled: true, ..self }
        } else {
            LengthCounter { enabled: false, counter: 0, ..self }
        }
    }

    /// The counter after a pending halt flag takes effect.
    pub open spec fn after_update(self) -> LengthCounter {
        LengthCounter { halt: self.pending_halt, ..self }
    }

    pub fn new() -> (l: LengthCounter)
        ensures
            l == LengthCounter::initial(),
    {
        LengthCounter { enabled: false, halt: false, pending_halt: false, counter: 0 }
    }

    pub fn set_halt(&mut self, halt: bool)
        ensures
            *final(self) == (LengthCounter { pending_halt: halt, ..*old(self) }),
    {
        self.pending_halt = halt;
    }

    /// Loads the length selected by bits 3-7 of `data`, if the channel is
    /// enabled.
    pub fn write(&mut self, data: u8)
        ensures
            *final(self) == old(self).after_write(data),
    {
        if self.enabled {
            let i = data >> 3u8;
            assert(i == data / 8) by (bit_vector)
                requires
                    i == data >> 3u8,
            ;
            self.counter = length_lookup(i);
        }
    }

    /// Half-frame clock: counts down unless halted or already zero.
    pub fn tick(&mut self)
        ensures
            *final(self) == old(self).after_tick(),
    {
        if !self.halt && self.counter > 0 {
            self.counter = self.counter - 1;
        }
    }

    /// Whether the channel may sound.
    pub fn active(&self) -> (r: bool)
        ensures
            r == (self.counter > 0),
    {
        self.counter > 0
    }

    /// Whether the length counter is non-zero, as $4015 reports it.
    pub fn playing(&self) -> (r: bool)
        ensures
            r == (self.counter > 0),
    {
        self.counter > 0
    }

    /// Disabling the channel clears the counter at once.
    pub fn set_enabled(&mut self, value: bool)
        ensures
            *final(self) == old(self).after_set_enabled(value),
    {
        self.enabled = value;
        if !value {
            self.counter = 0;
        }
    }

    /// Applies a pending change of the halt flag.
    pub fn update(&mut self)
        ensures
            *final(self) == old(self).after_update(),
    {
        self.halt = self.pending_halt;
    }
}

} // verus!
