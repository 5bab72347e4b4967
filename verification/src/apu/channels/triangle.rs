use vstd::prelude::*;

use crate::apu::length_counter::LengthCounter;
use crate::apu::sequencer::Sequencer;

verus! {

/// The 32-step triangle: 15 down to 0, then 0 up to 15.
pub open spec fn triangle_waveform(step: int) -> u8 {
    if step < 16 {
        (15 - step) as u8
    } else {
        (step - 16) as u8
    }
}

/// The triangle channel ($4008-$400B).
pub struct TriangleChannel {
    pub length_counter: LengthCounter,
    pub sequencer: Sequencer,
    pub linear_counter_start: bool,
    pub linear_counter_period: u8,
    pub linear_counter: u8,
    pub control_flag: bool,
}

impl TriangleChannel {
    /// A fresh channel: a fresh length counter, a 32-step timer at 0, the
    /// linear counter and its control cleared.
    pub open spec fn initial() -> TriangleChannel {
        TriangleChannel {
            length_counter: LengthCounter::initial(),
            sequencer: Sequencer { counter: 0, period: 0, step: 0, steps: 32 },
            linear_counter_start: false,
            linear_counter_period: 0,
            linear_counter: 0,
            control_flag: false,
        }
    }

    pub open spec fn wf(&self) -> bool {
        self.sequencer.wf() && self.sequencer.steps == 32
    }

    /// The channel sounds while both its length counter and its linear
    /// counter are non-zero.
    pub open spec fn is_active(&self) -> bool {
        self.length_counter.counter > 0 && self.linear_counter > 0
    }

    /// The output level: the waveform step while active and the period is
    /// above 2, else 0.
    pub open spec fn output(&self) -> u8 {
        if self.is_active() && self.sequencer.period > 2 {
            triangle_waveform(self.sequencer.step as int)
        } else {
            0
        }
    }

    /// The channel after a write of `data` to `addr`.
    pub open spec fn after_write(self, addr: u16, data: u8) -> TriangleChannel {
        if addr == 0x4008 {
            TriangleChannel {
                control_flag: data & 0b1000_0000 != 0,
                length_counter: LengthCounter { pending_halt: data & 0b1000_0000 != 0, ..self.length_counter },
                linear_counter_period: data % 128,
                ..self
            }
        } else if addr == 0x400A {
            TriangleChannel { sequencer: self.sequencer.with_period_lo(data), ..self }
        } else if addr == 0x400B {
            TriangleChannel {
                length_counter: self.length_counter.after_write(data),
                sequencer: self.sequencer.with_period_hi(data),
                linear_counter_start: true,
                ..self
            }
        } else {
            self
        }
    }

    /// The channel after a timer clock.
    pub open spec fn after_tick_sequencer(self) -> TriangleChannel {
        TriangleChannel { sequencer: self.sequencer.after_tick(self.is_active()), ..self }
    }

    /// The channel after a quarter-frame clock of the linear counter.
    pub open spec fn after_tick_quarter(self) -> TriangleChannel {
        let start = self.control_flag && self.linear_counter_start;
        TriangleChannel {
            linear_counter: if start {
                self.linear_counter_period
            } else {
                self.linear_counter
            },
            linear_counter_start: start,
            ..self
        }
    }

    /// The channel after a half-frame clock.
    pub open spec fn after_tick_half(self) -> TriangleChannel {
        TriangleChannel { length_counter: self.length_counter.after_tick(), ..self }
    }

    pub open spec fn after_set_enabled(self, value: bool) -> TriangleChannel {
        TriangleChannel { length_counter: self.length_counter.after_set_enabled(value), ..self }
    }

    pub open spec fn after_update(self) -> TriangleChannel {
        TriangleChannel { length_counter: self.length_counter.after_update(), ..self }
    }

    pub fn new() -> (t: TriangleChannel)
        ensures
            t == TriangleChannel::initial(),
            t.wf(),
    {
        TriangleChannel {
            length_counter: LengthCounter::new(),
            sequencer: Sequencer::new(32),
            linear_counter_start: false,
            linear_counter_period: 0,
            linear_counter: 0,
            control_flag: false,
        }
    }

    /// $4008: control flag (also the length halt) and linear reload value;
    /// $400A: period low; $400B: length, period high, linear reload. Other
    /// addresses are ignored.
    pub fn write(&mut self, addr: u16, data: u8)
        requires
            old(self).wf(),
        ensures
            final(self).wf(),
            addr == 0x4008 ==> final(self).control_flag == (data & 0b1000_0000 != 0)
                && final(self).length_counter.pending_halt == (data & 0b1000_0000 != 0)
                && final(self).linear_counter_period == data % 128,
            addr == 0x400A ==> final(self).sequencer.period == old(self).sequencer.period - old(
                self,
            ).sequencer.period % 256 + data,
            addr == 0x400B ==> final(self).sequencer.period == old(self).sequencer.period % 256 + (data % 8) * 256
                && final(self).linear_counter_start,
            addr != 0x4008 && addr != 0x400A && addr != 0x400B ==> *final(self) == *old(self),
            *final(self) == old(self).after_write(addr, data),
    {
        if addr == 0x4008 {
            self.control_flag = data & 0b1000_0000 != 0;
            self.length_counter.set_halt(data & 0b1000_0000 != 0);
            let p = data & 0b0111_1111;
            assert(p == data % 128) by (bit_vector)
                requires
                    p == data & 0b0111_1111,
            ;
            self.linear_counter_period = p;
        } else if addr == 0x400A {
            self.sequencer.set_period_lo(data);
        } else if addr == 0x400B {
            self.length_counter.write(data);
            let h = data & 0b111;
            assert(h % 8 == data % 8) by (bit_vector)
                requires
                    h == data & 0b111,
            ;
            self.sequencer.set_period_hi(h);
            self.linear_counter_start = true;
        }
    }

    pub fn sample(&self) -> (r: u8)
        requires
            self.wf(),
        ensures
            r == self.output(),
            r <= 15,
    {
        if self.active() && self.sequencer.period > 2 {
            let step = self.sequencer.get_step();
            if step < 16 {
                15 - step as u8
            } else {
                (step - 16) as u8
            }
        } else {
            0
        }
    }

    /// Timer clock: the waveform only moves while the channel is active.
    pub fn tick_sequencer(&mut self)
        requires
            old(self).wf(),
        ensures
            final(self).wf(),
            final(self).sequencer.step == if old(self).sequencer.counter == 0 && old(self).is_active() {
                (old(self).sequencer.step + 1) % 32
            } else {
                old(self).sequencer.step as int
            },
            final(self).length_counter == old(self).length_counter,
            final(self).linear_counter == old(self).linear_counter,
            *final(self) == old(self).after_tick_sequencer(),
    {
        let a = self.active();
        self.sequencer.tick(a);
    }

    /// Quarter-frame clock of the linear counter: without the control flag
    /// the reload request is dropped; with a pending reload the counter
    /// takes the reload value.
    pub fn tick_quarter(&mut self)
        requires
            old(self).wf(),
        ensures
            final(self).wf(),
            final(self).linear_counter == if old(self).control_flag && old(self).linear_counter_start {
                old(self).linear_counter_period
            } else {
                old(self).linear_counter
            },
            final(self).linear_counter_start == (old(self).control_flag && old(self).linear_counter_start),
            final(self).length_counter == old(self).length_counter,
            final(self).sequencer == old(self).sequencer,
            *final(self) == old(self).after_tick_quarter(),
    {
        if !self.control_flag {
            self.linear_counter_start = false;
        }
        if self.linear_counter_start {
            self.linear_counter = self.linear_counter_period;
            return ;
        }
        if self.linear_counter > 0 {
            self.linear_counter_start = false;
        }
    }

    pub fn tick_half(&mut self)
        requires
            old(self).wf(),
        ensures
            final(self).wf(),
            final(self).length_counter.counter == if !old(self).length_counter.halt
                && old(self).length_counter.counter > 0 {
                (old(self).length_counter.counter - 1) as int
            } else {
                old(self).length_counter.counter as int
            },
            final(self).sequencer == old(self).sequencer,
            final(self).linear_counter == old(self).linear_counter,
            *final(self) == old(self).after_tick_half(),
    {
        self.length_counter.tick();
    }

    pub fn active(&self) -> (r: bool)
        ensures
            r == self.is_active(),
    {
        self.length_counter.active() && self.linear_counter > 0
    }

    pub fn playing(&mut self) -> (r: bool)
        ensures
            r == (old(self).length_counter.counter > 0),
            *final(self) == *old(self),
    {
        self.length_counter.playing()
    }

    pub fn set_enabled(&mut self, value: bool)
        requires
            old(self).wf(),
        ensures
            final(self).wf(),
            final(self).length_counter.enabled == value,
            !value ==> final(self).length_counter.counter == 0,
            value ==> final(self).length_counter.counter == old(self).length_counter.counter,
            final(self).sequencer == old(self).sequencer,
            final(self).linear_counter == old(self).linear_counter,
            *final(self) == old(self).after_set_enabled(value),
    {
        self.length_counter.set_enabled(value);
    }

    pub fn update(&mut self)
        requires
            old(self).wf(),
        ensures
            final(self).wf(),
            final(self).length_counter.halt == old(self).length_counter.pending_halt,
            final(self).length_counter.counter == old(self).length_counter.counter,
            final(self).sequencer == old(self).sequencer,
            final(self).linear_counter == old(self).linear_counter,
            *final(self) == old(self).after_update(),
    {
        self.length_counter.update();
    }
}

} // verus!
