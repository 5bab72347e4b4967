use vstd::prelude::*;

pub mod channels;
pub mod envelope;
pub mod frame_counter;
pub mod length_counter;
pub mod sequencer;
pub mod sweep;
pub mod laws;

use channels::dmc::DMCChannel;
use channels::noise::NoiseChannel;
use channels::pulse::PulseChannel;
use channels::triangle::TriangleChannel;
use frame_counter::{FrameCounter, FrameCounterResult, Mode, mode_zero_step};
use sweep::SweepNegationMode;

verus! {

/// The output levels of the five channels at one moment (each 0-15, the
/// delta channel 0-127), from which the mixer computes a sample.
#[derive(Clone, Copy, PartialEq, Eq, Structural, Debug)]
pub struct ChannelLevels {
    pub pulse_0: u8,
    pub pulse_1: u8,
    pub triangle: u8,
    pub noise: u8,
    pub dmc: u8,
}

/// The audio processing unit: frame counter and five channels. Every 40th
/// CPU cycle the channel levels are appended to `buffer` for the mixer.
pub struct APU {
    pub buffer: Vec<ChannelLevels>,
    pub frame_counter: FrameCounter,
    pub pulse_0: PulseChannel,
    pub pulse_1: PulseChannel,
    pub triangle: TriangleChannel,
    pub noise: NoiseChannel,
    pub dmc: DMCChannel,
}

/// The byte that a read of $4015 returns.
pub open spec fn status_byte(apu: &APU) -> u8 {
    (if apu.dmc.irq_flag {
        0b1000_0000u8
    } else {
        0
    }) | (if apu.frame_counter.prv_irq_flag {
        0b0100_0000u8
    } else {
        0
    }) | (if apu.dmc.current_length > 0 {
        0b0001_0000u8
    } else {
        0
    }) | (if apu.noise.length_counter.counter > 0 {
        0b0000_1000u8
    } else {
        0
    }) | (if apu.triangle.length_counter.counter > 0 {
        0b0000_0100u8
    } else {
        0
    }) | (if apu.pulse_1.length_counter.counter > 0 {
        0b0000_0010u8
    } else {
        0
    }) | (if apu.pulse_0.length_counter.counter > 0 {
        0b0000_0001u8
    } else {
        0
    })
}

impl APU {
    /// The four tone channels are well formed.
    pub open spec fn channels_wf(&self) -> bool {
        &&& self.pulse_0.wf()
        &&& self.pulse_1.wf()
        &&& self.triangle.wf()
        &&& self.noise.wf()
    }

    /// Every channel can be clocked.
    pub open spec fn wf(&self) -> bool {
        self.channels_wf() && self.dmc.can_tick()
    }

    pub open spec fn levels(&self) -> ChannelLevels {
        ChannelLevels {
            pulse_0: self.pulse_0.output(),
            pulse_1: self.pulse_1.output(),
            triangle: self.triangle.output(),
            noise: self.noise.output(),
            dmc: self.dmc.output,
        }
    }

    /// The APU after the units that a frame-counter step clocks: the
    /// quarter-frame units (pulse envelopes, triangle linear counter), or for
    /// a half frame those, the noise envelope, and then the length counters
    /// and sweeps.
    pub open spec fn after_frame_step(self, r: FrameCounterResult) -> APU {
        match r {
            FrameCounterResult::Quarter => APU {
                pulse_0: self.pulse_0.after_tick_quarter(),
                pulse_1: self.pulse_1.after_tick_quarter(),
                triangle: self.triangle.after_tick_quarter(),
                ..self
            },
            FrameCounterResult::Half => APU {
                pulse_0: self.pulse_0.after_tick_quarter().after_tick_half(),
                pulse_1: self.pulse_1.after_tick_quarter().after_tick_half(),
                triangle: self.triangle.after_tick_quarter().after_tick_half(),
                noise: self.noise.after_tick_quarter().after_tick_half(),
                ..self
            },
            FrameCounterResult::Idle => self,
        }
    }

    /// The APU after one CPU cycle, but for the sample buffer: the triangle
    /// timer, on odd cycles the other timers, the frame counter and the
    /// units its step clocks, then the pending halt flags.
    pub open spec fn after_clock(self, cycles: usize) -> APU {
        let a1 = APU { triangle: self.triangle.after_tick_sequencer(), ..self };
        let a2 = if cycles % 2 == 1 {
            APU {
                pulse_0: a1.pulse_0.after_tick_sequencer(),
                pulse_1: a1.pulse_1.after_tick_sequencer(),
                noise: a1.noise.after_tick_sequencer(),
                dmc: a1.dmc.after_tick_sequencer(),
                ..a1
            }
        } else {
            a1
        };
        let a3 = APU { frame_counter: self.frame_counter.after_tick(), ..a2 }.after_frame_step(
            mode_zero_step(self.frame_counter.counter as int),
        );
        APU {
            pulse_0: a3.pulse_0.after_update(),
            pulse_1: a3.pulse_1.after_update(),
            triangle: a3.triangle.after_update(),
            noise: a3.noise.after_update(),
            ..a3
        }
    }

    /// Every unit of the two APUs is in the same state; the sample buffers
    /// may differ.
    pub open spec fn same_units(self, other: APU) -> bool {
        &&& self.frame_counter == other.frame_counter
        &&& self.pulse_0 == other.pulse_0
        &&& self.pulse_1 == other.pulse_1
        &&& self.triangle == other.triangle
        &&& self.noise == other.noise
        &&& self.dmc == other.dmc
    }

    /// The APU after the CPU cycles `from + 1`, ..., `from + k`, but for the
    /// sample buffer.
    pub open spec fn clocked(self, from: int, k: nat) -> APU
        decreases k,
    {
        if k == 0 {
            self
        } else {
            self.clocked(from, (k - 1) as nat).after_clock((from + k) as usize)
        }
    }

    /// The samples those cycles append to the buffer: the channel levels
    /// after every cycle whose number is a multiple of 40.
    pub open spec fn samples(self, from: int, k: nat) -> Seq<ChannelLevels>
        decreases k,
    {
        if k == 0 {
            Seq::empty()
        } else {
            let earlier = self.samples(from, (k - 1) as nat);
            if (from + k) % 40 == 0 {
                earlier.push(self.clocked(from, k).levels())
            } else {
                earlier
            }
        }
    }

    pub fn new(prg_rom: Vec<u8>) -> (apu: APU)
        ensures
            apu.wf(),
            apu.buffer@.len() == 0,
            apu.dmc.prg_rom@ == prg_rom@,
            apu.pulse_0 == PulseChannel::initial(SweepNegationMode::OnesCompliment),
            apu.pulse_1 == PulseChannel::initial(SweepNegationMode::TwosCompliment),
            apu.triangle == TriangleChannel::initial(),
            apu.noise == NoiseChannel::initial(),
            apu.frame_counter == (FrameCounter {
                counter: 0,
                irq_enabled: true,
                pub_irq_flag: false,
                prv_irq_flag: false,
                mode: Mode::Zero,
            }),
            apu.levels() == (ChannelLevels { pulse_0: 0, pulse_1: 0, triangle: 0, noise: 0, dmc: 0 }),
            !apu.dmc.irq_enabled && !apu.dmc.irq_flag && !apu.dmc.enabled && !apu.dmc.looping,
            apu.dmc.output == 0 && apu.dmc.sample_address == 0 && apu.dmc.sample_length == 0,
            apu.dmc.current_address == 0 && apu.dmc.current_length == 0,
            apu.dmc.shift_register == 0 && apu.dmc.bit_count == 0 && apu.dmc.period == 0,
            apu.dmc.counter == 0 && apu.dmc.cpu_stall_cycles == 0,
    {
        APU {
            buffer: Vec::new(),
            frame_counter: FrameCounter::new(),
            pulse_0: PulseChannel::new(SweepNegationMode::OnesCompliment),
            pulse_1: PulseChannel::new(SweepNegationMode::TwosCompliment),
            triangle: TriangleChannel::new(),
            noise: NoiseChannel::new(),
            dmc: DMCChannel::new(prg_rom),
        }
    }

    /// Reads $4015: interrupt flags and which channels are playing. The
    /// frame interrupt flags are cleared.
    pub fn read(&mut self) -> (r: u8)
        ensures
            r == status_byte(old(self)),
            !final(self).frame_counter.prv_irq_flag,
            !final(self).frame_counter.pub_irq_flag,
            old(self).channels_wf() ==> final(self).channels_wf(),
            final(self).frame_counter.counter == old(self).frame_counter.counter,
            final(self).frame_counter.irq_enabled == old(self).frame_counter.irq_enabled,
            final(self).frame_counter.mode == old(self).frame_counter.mode,
            final(self).pulse_0 == old(self).pulse_0,
            final(self).pulse_1 == old(self).pulse_1,
            final(self).triangle == old(self).triangle,
            final(self).noise == old(self).noise,
            final(self).dmc == old(self).dmc,
            final(self).buffer@ == old(self).buffer@,
    {
        let irq: u8 = if self.dmc.irq_flag { 0b1000_0000 } else { 0 };
        let frame_irq: u8 = if self.frame_counter.prv_irq_flag { 0b0100_0000 } else { 0 };
        let dmc: u8 = if self.dmc.playing() { 0b0001_0000 } else { 0 };
        let noise: u8 = if self.noise.playing() { 0b0000_1000 } else { 0 };
        let triangle: u8 = if self.triangle.playing() { 0b0000_0100 } else { 0 };
        let pulse_1: u8 = if self.pulse_1.playing() { 0b0000_0010 } else { 0 };
        let pulse_0: u8 = if self.pulse_0.playing() { 0b0000_0001 } else { 0 };
        let result = irq | frame_irq | dmc | noise | triangle | pulse_1 | pulse_0;
        self.frame_counter.prv_irq_flag = false;
        self.frame_counter.pub_irq_flag = false;
        result
    }

    pub fn write_to_pulse_0(&mut self, addr: u16, data: u8)
        requires
            old(self).channels_wf(),
        ensures
            final(self).channels_wf(),
            final(self).pulse_1 == old(self).pulse_1,
            final(self).triangle == old(self).triangle,
            final(self).noise == old(self).noise,
            final(self).dmc == old(self).dmc,
            final(self).frame_counter == old(self).frame_counter,
            final(self).buffer@ == old(self).buffer@,
            final(self).pulse_0 == old(self).pulse_0.after_write(addr, data),
    {
        self.pulse_0.write(addr, data);
    }

    pub fn write_to_pulse_1(&mut self, addr: u16, data: u8)
        requires
            old(self).channels_wf(),
        ensures
            final(self).channels_wf(),
            final(self).pulse_0 == old(self).pulse_0,
            final(self).triangle == old(self).triangle,
            final(self).noise == old(self).noise,
            final(self).dmc == old(self).dmc,
            final(self).frame_counter == old(self).frame_counter,
            final(self).buffer@ == old(self).buffer@,
            final(self).pulse_1 == old(self).pulse_1.after_write(addr, data),
    {
        self.pulse_1.write(addr, data);
    }

    pub fn write_to_triangle(&mut self, addr: u16, data: u8)
        requires
            old(self).channels_wf(),
        ensures
            final(self).channels_wf(),
            final(self).pulse_0 == old(self).pulse_0,
            final(self).pulse_1 == old(self).pulse_1,
            final(self).noise == old(self).noise,
            final(self).dmc == old(self).dmc,
            final(self).frame_counter == old(self).frame_counter,
            final(self).buffer@ == old(self).buffer@,
            final(self).triangle == old(self).triangle.after_write(addr, data),
    {
        self.triangle.write(addr, data);
    }

    pub fn write_to_noise(&mut self, addr: u16, data: u8)
        requires
            old(self).channels_wf(),
        ensures
            final(self).channels_wf(),
            final(self).pulse_0 == old(self).pulse_0,
            final(self).pulse_1 == old(self).pulse_1,
            final(self).triangle == old(self).triangle,
            final(self).dmc == old(self).dmc,
            final(self).frame_counter == old(self).frame_counter,
            final(self).buffer@ == old(self).buffer@,
            final(self).noise == old(self).noise.after_write(addr, data),
    {
        self.noise.write(addr, data);
    }

    /// A write to the delta channel. Clocking it afterwards needs
    /// `dmc.can_tick()` again, which a new period, address or length can
    /// break.
    pub fn write_to_dmc(&mut self, addr: u16, data: u8)
        requires
            old(self).channels_wf(),
        ensures
            final(self).channels_wf(),
            final(self).pulse_0 == old(self).pulse_0,
            final(self).pulse_1 == old(self).pulse_1,
            final(self).triangle == old(self).triangle,
            final(self).noise == old(self).noise,
            final(self).frame_counter == old(self).frame_counter,
            final(self).buffer@ == old(self).buffer@,
            final(self).dmc == old(self).dmc.after_write(addr, data),
    {
        self.dmc.write(addr, data);
    }

    /// $4015: bits 0-4 enable the pulse, triangle, noise and delta channels.
    pub fn set_status(&mut self, data: u8)
        requires
            old(self).channels_wf(),
        ensures
            final(self).channels_wf(),
            final(self).pulse_0.length_counter.enabled == (data & 0b0000_0001 != 0),
            final(self).pulse_1.length_counter.enabled == (data & 0b0000_0010 != 0),
            final(self).triangle.length_counter.enabled == (data & 0b0000_0100 != 0),
            final(self).noise.length_counter.enabled == (data & 0b0000_1000 != 0),
            final(self).dmc.enabled == (data & 0b0001_0000 != 0),
            final(self).pulse_0.length_counter.counter == if data & 0b0000_0001 != 0 {
                old(self).pulse_0.length_counter.counter
            } else {
                0
            },
            final(self).pulse_1.length_counter.counter == if data & 0b0000_0010 != 0 {
                old(self).pulse_1.length_counter.counter
            } else {
                0
            },
            final(self).triangle.length_counter.counter == if data & 0b0000_0100 != 0 {
                old(self).triangle.length_counter.counter
            } else {
                0
            },
            final(self).noise.length_counter.counter == if data & 0b0000_1000 != 0 {
                old(self).noise.length_counter.counter
            } else {
                0
            },
            final(self).dmc.current_length == if data & 0b0001_0000 == 0 {
                0
            } else if old(self).dmc.current_length == 0 {
                old(self).dmc.sample_length
            } else {
                old(self).dmc.current_length
            },
            !final(self).dmc.irq_flag,
            final(self).pulse_0 == old(self).pulse_0.after_set_enabled(data & 0b0000_0001 != 0),
            final(self).pulse_1 == old(self).pulse_1.after_set_enabled(data & 0b0000_0010 != 0),
            final(self).triangle == old(self).triangle.after_set_enabled(data & 0b0000_0100 != 0),
            final(self).noise == old(self).noise.after_set_enabled(data & 0b0000_1000 != 0),
            final(self).dmc == old(self).dmc.after_set_enabled(data & 0b0001_0000 != 0),
            final(self).dmc.prg_rom@ == old(self).dmc.prg_rom@,
            final(self).frame_counter == old(self).frame_counter,
            final(self).buffer@ == old(self).buffer@,
    {
        self.pulse_0.set_enabled(data & 0b0000_0001 != 0);
        self.pulse_1.set_enabled(data & 0b0000_0010 != 0);
        self.triangle.set_enabled(data & 0b0000_0100 != 0);
        self.noise.set_enabled(data & 0b0000_1000 != 0);
        self.dmc.set_enabled(data & 0b001_0000 != 0);
    }

    /// $4017: reprograms the frame counter; in five-step mode every unit is
    /// clocked at once.
    pub fn set_frame_counter(&mut self, data: u8, cycles: usize)
        requires
            old(self).channels_wf(),
        ensures
            final(self).channels_wf(),
            final(self).frame_counter.irq_enabled == (data & 0b0100_0000 == 0),
            final(self).frame_counter.counter == if cycles % 2 == 0 { 0isize } else { -1isize },
            final(self).dmc == old(self).dmc,
            final(self).buffer@ == old(self).buffer@,
            *final(self) == (APU { frame_counter: old(self).frame_counter.after_write(data, cycles), ..*old(self) }).after_frame_step(
                FrameCounter::write_step(data),
            ),
    {
        let result: FrameCounterResult = self.frame_counter.write(data, cycles);
        self.update(result);
    }

    /// Clocks the quarter-frame units (pulse envelopes, triangle linear
    /// counter) or, for a half frame, the quarter-frame units with the noise
    /// envelope and then the length counters and sweeps.
    fn update(&mut self, result: FrameCounterResult)
        requires
            old(self).channels_wf(),
        ensures
            final(self).channels_wf(),
            result == FrameCounterResult::Idle ==> *final(self) == *old(self),
            *final(self) == old(self).after_frame_step(result),
            final(self).dmc == old(self).dmc,
            final(self).frame_counter == old(self).frame_counter,
            final(self).buffer@ == old(self).buffer@,
    {
        match result {
            FrameCounterResult::Quarter => {
                self.pulse_0.tick_quarter();
                self.pulse_1.tick_quarter();
                self.triangle.tick_quarter();
            },
            FrameCounterResult::Half => {
                self.pulse_0.tick_quarter();
                self.pulse_1.tick_quarter();
                self.triangle.tick_quarter();
                self.noise.tick_quarter();
                self.pulse_0.tick_half();
                self.pulse_1.tick_half();
                self.triangle.tick_half();
                self.noise.tick_half();
            },
            FrameCounterResult::Idle => {},
        }
    }

    /// One CPU cycle: the triangle timer runs every cycle, the other
    /// timers every other (odd) cycle; then the frame counter, the pending
    /// halt flags, and every 40th cycle a sample of the channel levels.
    pub fn tick(&mut self, cycles: usize)
        requires
            old(self).wf(),
        ensures
            final(self).wf(),
            final(self).dmc == if cycles % 2 == 1 && old(self).dmc.enabled {
                old(self).dmc.after_read().after_shift()
            } else {
                old(self).dmc
            },
            final(self).buffer@ == if cycles % 40 == 0 {
                old(self).buffer@.push(final(self).levels())
            } else {
                old(self).buffer@
            },
            final(self).frame_counter.counter == if old(self).frame_counter.counter == 29_831 {
                2isize
            } else {
                old(self).frame_counter.counter
            },
            final(self).pulse_0 == old(self).after_clock(cycles).pulse_0,
            final(self).pulse_1 == old(self).after_clock(cycles).pulse_1,
            final(self).triangle == old(self).after_clock(cycles).triangle,
            final(self).noise == old(self).after_clock(cycles).noise,
            final(self).dmc == old(self).after_clock(cycles).dmc,
            final(self).frame_counter == old(self).after_clock(cycles).frame_counter,
            final(self).levels() == old(self).after_clock(cycles).levels(),
            final(self).same_units(old(self).after_clock(cycles)),
    {
        self.triangle.tick_sequencer();
        if cycles % 2 == 1 {
            self.pulse_0.tick_sequencer();
            self.pulse_1.tick_sequencer();
            self.noise.tick_sequencer();
            self.dmc.tick_sequencer();
        }
        let r = self.frame_counter.tick();
        self.update(r);
        self.pulse_0.update();
        self.pulse_1.update();
        self.triangle.update();
        self.noise.update();
        if cycles % 40 == 0 {
            let s = self.levels_now();
            self.buffer.push(s);
        }
    }

    /// The channel levels at this moment.
    pub fn levels_now(&self) -> (r: ChannelLevels)
        requires
            self.channels_wf(),
        ensures
            r == self.levels(),
    {
        ChannelLevels {
            pulse_0: self.pulse_0.sample(),
            pulse_1: self.pulse_1.sample(),
            triangle: self.triangle.sample(),
            noise: self.noise.sample(),
            dmc: self.dmc.sample(),
        }
    }
}

} // verus!

verus! {

/// A cycle of the APU depends on its units alone, not on its sample buffer.
pub proof fn lemma_clock_ignores_buffer(a: APU, b: APU, cycles: usize)
    requires
        a.same_units(b),
    ensures
        a.after_clock(cycles).same_units(b.after_clock(cycles)),
        a.after_clock(cycles).levels() == b.after_clock(cycles).levels(),
{
}


/// Each bit of the $4015 read reports one thing: bit 0 pulse 1, bit 1
/// pulse 2, bit 2 the triangle and bit 3 the noise channel playing (length
/// counter above 0), bit 4 DMC sample bytes remaining, bit 5 nothing, bit 6
/// the frame interrupt and bit 7 the DMC interrupt.
pub proof fn law_status_bits(apu: APU)
    ensures
        (status_byte(&apu) & 0b0000_0001 != 0) == (apu.pulse_0.length_counter.counter > 0),
        (status_byte(&apu) & 0b0000_0010 != 0) == (apu.pulse_1.length_counter.counter > 0),
        (status_byte(&apu) & 0b0000_0100 != 0) == (apu.triangle.length_counter.counter > 0),
        (status_byte(&apu) & 0b0000_1000 != 0) == (apu.noise.length_counter.counter > 0),
        (status_byte(&apu) & 0b0001_0000 != 0) == (apu.dmc.current_length > 0),
        status_byte(&apu) & 0b0010_0000 == 0,
        (status_byte(&apu) & 0b0100_0000 != 0) == apu.frame_counter.prv_irq_flag,
        (status_byte(&apu) & 0b1000_0000 != 0) == apu.dmc.irq_flag,
{
    let b7 = apu.dmc.irq_flag;
    let b6 = apu.frame_counter.prv_irq_flag;
    let b4 = apu.dmc.current_length > 0;
    let b3 = apu.noise.length_counter.counter > 0;
    let b2 = apu.triangle.length_counter.counter > 0;
    let b1 = apu.pulse_1.length_counter.counter > 0;
    let b0 = apu.pulse_0.length_counter.counter > 0;
    let r = status_byte(&apu);
    assert(r == (if b7 { 0x80u8 } else { 0 }) | (if b6 { 0x40u8 } else { 0 }) | (if b4 { 0x10u8 } else { 0 }) | (if b3 {
        0x08u8
    } else {
        0
    }) | (if b2 { 0x04u8 } else { 0 }) | (if b1 { 0x02u8 } else { 0 }) | (if b0 { 0x01u8 } else { 0 }));
    assert((r & 1 != 0) == b0 && (r & 2 != 0) == b1 && (r & 4 != 0) == b2 && (r & 8 != 0) == b3 && (r & 0x10 != 0) == b4
        && r & 0x20 == 0 && (r & 0x40 != 0) == b6 && (r & 0x80 != 0) == b7) by (bit_vector)
        requires
            r == (if b7 { 0x80u8 } else { 0 }) | (if b6 { 0x40u8 } else { 0 }) | (if b4 { 0x10u8 } else { 0 }) | (
            if b3 {
                0x08u8
            } else {
                0
            }) | (if b2 { 0x04u8 } else { 0 }) | (if b1 { 0x02u8 } else { 0 }) | (if b0 { 0x01u8 } else { 0 }),
    ;
}

} // verus!
