use vstd::prelude::*;

verus! {

/// The sequence the frame counter runs: four steps, or five steps without
/// an interrupt.
#[derive(Clone, Copy, PartialEq, Eq, Structural, Debug)]
pub enum Mode {
    Zero,
    One,
}

/// Which units a frame-counter step clocks: none, the quarter-frame units
/// (envelopes, linear counter), or those and the half-frame units (length
/// counters, sweeps).
#[derive(Clone, Copy, PartialEq, Eq, Structural, Debug)]
pub enum FrameCounterResult {
    Idle,
    Quarter,
    Half,
}

/// The APU frame counter ($4017).
pub struct FrameCounter {
    pub counter: isize,
    pub irq_enabled: bool,
    pub pub_irq_flag: bool,
    pub prv_irq_flag: bool,
    pub mode: Mode,
}

/// The step that the four-step sequence signals at a counter value.
pub open spec fn mode_zero_step(counter: int) -> FrameCounterResult {
    if counter == 7_459 || counter == 22_373 {
        FrameCounterResult::Quarter
    } else if counter == 14_915 {
        FrameCounterResult::Half
    } else {
        FrameCounterResult::Idle
    }
}

/// The step that the five-step sequence signals at a counter value.
pub open spec fn mode_one_step(counter: int) -> FrameCounterResult {
    if counter == 7_459 || counter == 22_373 {
        FrameCounterResult::Quarter
    } else if counter == 14_915 || counter == 37_283 {
        FrameCounterResult::Half
    } else {
        FrameCounterResult::Idle
    }
}

impl FrameCounter {
    /// The frame counter after a write of `value` to $4017 on CPU cycle
    /// `cycles`.
    pub open spec fn after_write(self, value: u8, cycles: usize) -> FrameCounter {
        FrameCounter {
            irq_enabled: value & 0b0100_0000 == 0,
            pub_irq_flag: self.pub_irq_flag && value & 0b0100_0000 == 0,
            prv_irq_flag: self.prv_irq_flag && value & 0b0100_0000 == 0,
            mode: if value & 0b1000_0000 == 0 {
                Mode::Zero
            } else {
                Mode::One
            },
            counter: if cycles % 2 == 0 {
                0isize
            } else {
                -1isize
            },
        }
    }

    /// The step a write of `value` to $4017 clocks at once.
    pub open spec fn write_step(value: u8) -> FrameCounterResult {
        if value & 0b1000_0000 == 0 {
            FrameCounterResult::Idle
        } else {
            FrameCounterResult::Half
        }
    }

    /// The frame counter after one clock of the four-step sequence.
    pub open spec fn after_tick(self) -> FrameCounter {
        let irq = self.counter == 29_830 || self.counter == 29_831;
        let prv = if irq {
            self.prv_irq_flag || self.irq_enabled
        } else {
            self.prv_irq_flag
        };
        FrameCounter {
            prv_irq_flag: prv,
            pub_irq_flag: if self.counter == 29_831 {
                prv
            } else {
                self.pub_irq_flag
            },
            counter: if self.counter == 29_831 {
                2isize
            } else {
                self.counter
            },
            ..self
        }
    }

    pub fn new() -> (f: FrameCounter)
        ensures
            f == (FrameCounter {
                counter: 0,
                irq_enabled: true,
                pub_irq_flag: false,
                prv_irq_flag: false,
                mode: Mode::Zero,
            }),
    {
        FrameCounter { counter: 0, irq_enabled: true, pub_irq_flag: false, prv_irq_flag: false, mode: Mode::Zero }
    }

    /// A write to $4017: bit 6 inhibits the interrupt (and clears its
    /// flags), bit 7 picks the five-step mode, which clocks every unit at
    /// once. The counter restarts at 0 on an even cycle, -1 on an odd one.
    pub fn write(&mut self, value: u8, cycles: usize) -> (r: FrameCounterResult)
        ensures
            final(self).irq_enabled == (value & 0b0100_0000 == 0),
            final(self).pub_irq_flag == (old(self).pub_irq_flag && value & 0b0100_0000 == 0),
            final(self).prv_irq_flag == (old(self).prv_irq_flag && value & 0b0100_0000 == 0),
            final(self).mode == if value & 0b1000_0000 == 0 { Mode::Zero } else { Mode::One },
            final(self).counter == if cycles % 2 == 0 { 0isize } else { -1isize },
            r == if value & 0b1000_0000 == 0 { FrameCounterResult::Idle } else { FrameCounterResult::Half },
            r == FrameCounter::write_step(value),
            *final(self) == old(self).after_write(value, cycles),
    {
        self.irq_enabled = value & 0b0100_0000 == 0;
        if !self.irq_enabled {
            self.pub_irq_flag = false;
            self.prv_irq_flag = false;
        }
        if value & 0b1000_0000 == 0 {
            self.mode = Mode::Zero;
        } else {
            self.mode = Mode::One;
        }
        let c = cycles;
        let odd = c & 1;
        assert(odd == c % 2) by (bit_vector)
            requires
                odd == c & 1,
        ;
        self.counter = if odd == 0 { 0 } else { -1 };
        match self.mode {
            Mode::Zero => FrameCounterResult::Idle,
            Mode::One => FrameCounterResult::Half,
        }
    }

    /// The four-step sequence at the current counter value: quarter and half
    /// frames, the interrupt at 29 830 and 29 831, and the restart at 2.
    pub fn tick(&mut self) -> (r: FrameCounterResult)
        ensures
            r == mode_zero_step(old(self).counter as int),
            old(self).counter == 29_830 || old(self).counter == 29_831 ==> final(self).prv_irq_flag == (
            old(self).prv_irq_flag || old(self).irq_enabled),
            old(self).counter != 29_830 && old(self).counter != 29_831 ==> final(self).prv_irq_flag
                == old(self).prv_irq_flag,
            final(self).pub_irq_flag == if old(self).counter == 29_831 {
                old(self).prv_irq_flag || old(self).irq_enabled
            } else {
                old(self).pub_irq_flag
            },
            final(self).counter == if old(self).counter == 29_831 { 2isize } else { old(self).counter },
            final(self).irq_enabled == old(self).irq_enabled,
            final(self).mode == old(self).mode,
            *final(self) == old(self).after_tick(),
    {
        if self.counter == 7_459 {
            FrameCounterResult::Quarter
        } else if self.counter == 14_915 {
            FrameCounterResult::Half
        } else if self.counter == 22_373 {
            FrameCounterResult::Quarter
        } else if self.counter == 29_830 {
            self.set_irq();
            FrameCounterResult::Idle
        } else if self.counter == 29_831 {
            self.set_irq();
            self.pub_irq_flag = self.prv_irq_flag;
            self.counter = 2;
            FrameCounterResult::Idle
        } else {
            FrameCounterResult::Idle
        }
    }

    /// The five-step sequence at the current counter value; at 37 283 the
    /// counter rolls over to 1.
    pub fn tick_mode_one(&mut self) -> (r: FrameCounterResult)
        ensures
            r == mode_one_step(old(self).counter as int),
            final(self).counter == if old(self).counter == 37_283 { 1isize } else { old(self).counter },
            final(self).irq_enabled == old(self).irq_enabled,
            final(self).pub_irq_flag == old(self).pub_irq_flag,
            final(self).prv_irq_flag == old(self).prv_irq_flag,
            final(self).mode == old(self).mode,
    {
        if self.counter == 7_459 {
            FrameCounterResult::Quarter
        } else if self.counter == 14_915 {
            FrameCounterResult::Half
        } else if self.counter == 22_373 {
            FrameCounterResult::Quarter
        } else if self.counter == 37_283 {
            self.counter = 1;
            FrameCounterResult::Half
        } else {
            FrameCounterResult::Idle
        }
    }

    /// Raises the interrupt flag when interrupts are enabled.
    pub fn set_irq(&mut self)
        ensures
            final(self).prv_irq_flag == (old(self).prv_irq_flag || old(self).irq_enabled),
            final(self).irq_enabled == old(self).irq_enabled,
            final(self).pub_irq_flag == old(self).pub_irq_flag,
            final(self).counter == old(self).counter,
            final(self).mode == old(self).mode,
    {
        if self.irq_enabled {
            self.prv_irq_flag = true;
        }
    }
}

} // verus!
