use vstd::prelude::*;

use crate::apu::envelope::Envelope;
use crate::apu::length_counter::LengthCounter;
use crate::apu::sequencer::Sequencer;
use crate::apu::sweep::{Sweep, SweepNegationMode};

verus! {

/// The four duty cycles of the pulse channels, eight steps each.
pub open spec fn pulse_waveform(duty: int, step: int) -> u8 {
    if duty == 0 {
        if step == 1 { 1 } else { 0 }
    } else if duty == 1 {
        if step == 1 || step == 2 { 1 } else { 0 }
    } else if duty == 2 {
        if 1 <= step <= 4 { 1 } else { 0 }
    } else {
        if step == 1 || step == 2 { 0 } else { 1 }
    }
}

pub fn pulse_waveform_at(duty: usize, step: usize) -> (r: u8)
    ensures
        r == pulse_waveform(duty as int, step as int),
{
    if duty == 0 {
        if step == 1 { 1 } else { 0 }
    } else if duty == 1 {
        if step == 1 || step == 2 { 1 } else { 0 }
    } else if duty == 2 {
        if 1 <= step && step <= 4 { 1 } else { 0 }
    } else {
        if step == 1 || step == 2 { 0 } else { 1 }
    }
}

/// A square-wave channel ($4000-$4003 or $4004-$4007).
pub struct PulseChannel {
    pub sweep: Sweep,
    pub envelope: Envelope,
    pub sequencer: Sequencer,
    pub length_counter: LengthCounter,
    pub duty_cycle: usize,
}

impl PulseChannel {
    /// A fresh channel: sweep off (with the given negation), a fresh
    /// envelope and length counter, an eight-step timer at 0, duty 0.
    pub open spec fn initial(sweep_neg_mode: SweepNegationMode) -> PulseChannel {
        PulseChannel {
            sweep: Sweep {
                enabled: false,
                period: 0,
                negate: false,
                shift: 0,
                reload: false,
                divider: 0,
                negation_mode: sweep_neg_mode,
            },
            envelope: Envelope::initial(),
            sequencer: Sequencer { counter: 0, period: 0, step: 0, steps: 8 },
            length_counter: LengthCounter::initial(),
            duty_cycle: 0,
        }
    }

    pub open spec fn wf(&self) -> bool {
        &&& self.sweep.wf()
        &&& self.envelope.wf()
        &&& self.sequencer.wf()
        &&& self.sequencer.steps == 8
        &&& self.duty_cycle < 4
    }

    /// The level the channel outputs: the waveform step scaled by the
    /// envelope, silent when the length counter is zero or the period is
    /// below 8.
    pub open spec fn output(&self) -> u8 {
        if self.length_counter.counter > 0 && self.sequencer.period >= 8 {
            (pulse_waveform(self.duty_cycle as int, self.sequencer.step as int) * self.envelope.volume_of()) as u8
        } else {
            0
        }
    }

    /// The channel after a write of `data` to register `addr % 4`.
    pub open spec fn after_write(self, addr: u16, data: u8) -> PulseChannel {
        let reg = addr % 4;
        if reg == 0 {
            PulseChannel {
                duty_cycle: (data / 64) as usize,
                envelope: self.envelope.after_write(data),
                length_counter: LengthCounter { pending_halt: data & 0b0010_0000 != 0, ..self.length_counter },
                ..self
            }
        } else if reg == 1 {
            PulseChannel { sweep: self.sweep.after_write(data), ..self }
        } else if reg == 2 {
            PulseChannel { sequencer: self.sequencer.with_period_lo(data), ..self }
        } else {
            PulseChannel {
                length_counter: self.length_counter.after_write(data),
                sequencer: self.sequencer.with_period_hi(data),
                envelope: Envelope { start: true, ..self.envelope },
                ..self
            }
        }
    }

    /// The channel after a quarter-frame clock.
    pub open spec fn after_tick_quarter(self) -> PulseChannel {
        PulseChannel { envelope: self.envelope.after_tick(), ..self }
    }

    /// The channel after a half-frame clock.
    pub open spec fn after_tick_half(self) -> PulseChannel {
        PulseChannel {
            length_counter: self.length_counter.after_tick(),
            sweep: self.sweep.after_tick(),
            sequencer: Sequencer { period: self.sweep.swept_period(self.sequencer.period), ..self.sequencer },
            ..self
        }
    }

    /// The channel after a timer clock.
    pub open spec fn after_tick_sequencer(self) -> PulseChannel {
        PulseChannel { sequencer: self.sequencer.after_tick(true), ..self }
    }

    pub open spec fn after_set_enabled(self, value: bool) -> PulseChannel {
        PulseChannel { length_counter: self.length_counter.after_set_enabled(value), ..self }
    }

    pub open spec fn after_update(self) -> PulseChannel {
        PulseChannel { length_counter: self.length_counter.after_update(), ..self }
    }

    pub fn new(sweep_neg_mode: SweepNegationMode) -> (p: PulseChannel)
        ensures
            p == PulseChannel::initial(sweep_neg_mode),
            p.wf(),
            p.output() == 0,
    {
        PulseChannel {
            sweep: Sweep::new(sweep_neg_mode),
            envelope: Envelope::new(),
            sequencer: Sequencer::new(8),
            length_counter: LengthCounter::new(),
            duty_cycle: 0,
        }
    }

    /// A write to one of the four registers, selected by `addr % 4`: duty,
    /// envelope and halt; sweep; period low; length and period high (which
    /// also restarts the envelope).
    pub fn write(&mut self, addr: u16, data: u8)
        requires
            old(self).wf(),
        ensures
            final(self).wf(),
            addr % 4 == 0 ==> final(self).duty_cycle == data / 64 && final(self).envelope.volume == data % 16
                && final(self).length_counter.pending_halt == (data & 0b0010_0000 != 0),
            addr % 4 == 1 ==> final(self).sweep.shift == data % 8 && final(self).sweep.reload,
            addr % 4 == 2 ==> final(self).sequencer.period == old(self).sequencer.period - old(
                self,
            ).sequencer.period % 256 + data,
            addr % 4 == 3 ==> final(self).sequencer.period == old(self).sequencer.period % 256 + (data % 8) * 256
                && final(self).envelope.start,
            *final(self) == old(self).after_write(addr, data),
    {
        let reg = addr % 4;
        if reg == 0 {
            let d = data >> 6u8;
            assert(d == data / 64) by (bit_vector)
                requires
                    d == data >> 6u8,
            ;
            self.duty_cycle = d as usize;
            self.envelope.write(data);
            self.length_counter.set_halt(data & 0b0010_0000 != 0);
        } else if reg == 1 {
            self.sweep.write(data);
        } else if reg == 2 {
            self.sequencer.set_period_lo(data);
        } else {
            self.length_counter.write(data);
            self.sequencer.set_period_hi(data);
            self.envelope.start();
        }
    }

    pub fn sample(&self) -> (r: u8)
        requires
            self.wf(),
        ensures
            r == self.output(),
            r <= 15,
    {
        if self.length_counter.active() && self.sequencer.period >= 8 {
            pulse_waveform_at(self.duty_cycle, self.sequencer.get_step()) * self.envelope.get_volume()
        } else {
            0
        }
    }

    /// Quarter-frame clock: the envelope.
    pub fn tick_quarter(&mut self)
        requires
            old(self).wf(),
        ensures
            final(self).wf(),
            final(self).sequencer == old(self).sequencer,
            final(self).length_counter == old(self).length_counter,
            final(self).sweep == old(self).sweep,
            final(self).duty_cycle == old(self).duty_cycle,
            *final(self) == old(self).after_tick_quarter(),
    {
        self.envelope.tick();
    }

    /// Half-frame clock: the length counter and the sweep.
    pub fn tick_half(&mut self)
        requires
            old(self).wf(),
        ensures
            final(self).wf(),
            final(self).envelope == old(self).envelope,
            final(self).duty_cycle == old(self).duty_cycle,
            *final(self) == old(self).after_tick_half(),
    {
        self.length_counter.tick();
        self.sweep.tick(&mut self.sequencer);
    }

    /// Timer clock: the waveform step moves on when the timer reloads.
    pub fn tick_sequencer(&mut self)
        requires
            old(self).wf(),
        ensures
            final(self).wf(),
            final(self).sequencer.step == if old(self).sequencer.counter == 0 {
                (old(self).sequencer.step + 1) % 8
            } else {
                old(self).sequencer.step as int
            },
            final(self).envelope == old(self).envelope,
            final(self).length_counter == old(self).length_counter,
            final(self).sweep == old(self).sweep,
            final(self).duty_cycle == old(self).duty_cycle,
            *final(self) == old(self).after_tick_sequencer(),
    {
        self.sequencer.tick(true);
    }

    pub fn playing(&mut self) -> (r: bool)
        ensures
            r == (old(self).length_counter.counter > 0),
            *final(self) == *old(self),
    {
        self.length_counter.playing()
    }

    pub fn set_enabled(&mut self, value: bool)
        requires
            old(self).wf(),
        ensures
            final(self).wf(),
            final(self).length_counter.enabled == value,
            !value ==> final(self).length_counter.counter == 0,
            value ==> final(self).length_counter.counter == old(self).length_counter.counter,
            final(self).sequencer == old(self).sequencer,
            final(self).envelope == old(self).envelope,
            final(self).sweep == old(self).sweep,
            final(self).duty_cycle == old(self).duty_cycle,
            *final(self) == old(self).after_set_enabled(value),
    {
        self.length_counter.set_enabled(value);
    }

    pub fn update(&mut self)
        requires
            old(self).wf(),
        ensures
            final(self).wf(),
            final(self).length_counter.halt == old(self).length_counter.pending_halt,
            final(self).length_counter.counter == old(self).length_counter.counter,
            final(self).sequencer == old(self).sequencer,
            final(self).envelope == old(self).envelope,
            final(self).sweep == old(self).sweep,
            final(self).duty_cycle == old(self).duty_cycle,
            *final(self) == old(self).after_update(),
    {
        self.length_counter.update();
    }
}

} // verus!
