use vstd::prelude::*;

use super::channels::pulse::{pulse_waveform, PulseChannel};
use super::channels::triangle::{triangle_waveform, TriangleChannel};
use super::channels::noise::NoiseChannel;
use super::channels::dmc::DMCChannel;
use super::envelope::Envelope;
use super::length_counter::LengthCounter;
use super::sweep::{sweep_target, Sweep, SweepNegationMode};

verus! {

/// The four pulse duty cycles are high for 1, 2, 4 and 6 of their 8 steps
/// (12.5 %, 25 %, 50 % and 75 %); the first three start their high part at
/// step 1 and each contains the shorter ones, and the 75 % cycle is the 25 %
/// cycle inverted.
pub proof fn law_pulse_duty_cycles()
    ensures
        forall|d: int|
            0 <= d < 4 ==> #[trigger] pulse_waveform(d, 0) + pulse_waveform(d, 1) + pulse_waveform(d, 2) + pulse_waveform(
                d,
                3,
            ) + pulse_waveform(d, 4) + pulse_waveform(d, 5) + pulse_waveform(d, 6) + pulse_waveform(d, 7) == if d == 0 {
                1int
            } else if d == 1 {
                2
            } else if d == 2 {
                4
            } else {
                6
            },
        forall|d: int, s: int| 0 <= d < 4 && 0 <= s < 8 ==> #[trigger] pulse_waveform(d, s) <= 1,
        forall|d: int| 0 <= d < 3 ==> #[trigger] pulse_waveform(d, 1) == 1 && pulse_waveform(d, 0) == 0,
        forall|s: int|
            0 <= s < 8 ==> #[trigger] pulse_waveform(0, s) <= pulse_waveform(1, s) && pulse_waveform(1, s) <= pulse_waveform(
                2,
                s,
            ),
        forall|s: int| 0 <= s < 8 ==> #[trigger] pulse_waveform(3, s) == 1 - pulse_waveform(1, s),
{
}

/// A pulse channel is silent while its length counter is 0 or its period
/// is below 8; otherwise it outputs the envelope level on the high steps of
/// its duty cycle and 0 on the low ones.
pub proof fn law_pulse_output(p: PulseChannel)
    ensures
        p.length_counter.counter == 0 || p.sequencer.period < 8 ==> p.output() == 0,
        p.length_counter.counter > 0 && p.sequencer.period >= 8 ==> p.output() == if pulse_waveform(
            p.duty_cycle as int,
            p.sequencer.step as int,
        ) == 1 {
            p.envelope.volume_of()
        } else {
            0
        },
{
    let w = pulse_waveform(p.duty_cycle as int, p.sequencer.step as int);
    assert(w == 0 || w == 1);
    assert(w == 1 ==> (w * p.envelope.volume_of()) as u8 == p.envelope.volume_of());
    assert(w == 0 ==> (w * p.envelope.volume_of()) as u8 == 0);
}

/// The triangle wave falls from 15 to 0 over steps 0-15 and rises from 0 to
/// 15 over steps 16-31: each step is one below the one before in the first
/// half, one above in the second, and the two halves mirror each other.
pub proof fn law_triangle_wave()
    ensures
        triangle_waveform(0) == 15,
        forall|s: int| 0 <= s < 15 ==> #[trigger] triangle_waveform(s + 1) + 1 == triangle_waveform(s),
        triangle_waveform(15) == 0 && triangle_waveform(16) == 0,
        forall|s: int| 16 <= s < 31 ==> #[trigger] triangle_waveform(s + 1) == triangle_waveform(s) + 1,
        forall|s: int| 0 <= s < 32 ==> #[trigger] triangle_waveform(s) == triangle_waveform(31 - s),
{
}

/// The triangle is silent unless both its length counter and its linear
/// counter are running and its period exceeds 2; then it outputs the wave
/// at its step.
pub proof fn law_triangle_output(t: TriangleChannel)
    ensures
        t.length_counter.counter > 0 && t.linear_counter > 0 && t.sequencer.period > 2 ==> t.output()
            == triangle_waveform(t.sequencer.step as int),
        t.length_counter.counter == 0 || t.linear_counter == 0 || t.sequencer.period <= 2 ==> t.output() == 0,
{
}

/// The noise channel outputs the envelope level while its length counter
/// runs and bit 0 of its shift register is clear, and 0 otherwise.
pub proof fn law_noise_output(n: NoiseChannel)
    ensures
        n.output() == if n.length_counter.counter > 0 && n.shift % 2 == 0 { n.envelope.volume_of() } else { 0 },
{
    crate::bits::lemma_split_word(n.shift);
}

/// The envelope gives its fixed volume (bits 0-3 of the last write) when
/// bit 4 of that write was set, and its decaying level otherwise; bit 5
/// makes the decay loop. A started envelope restarts at 15, and while the
/// divider has not expired the level holds.
pub proof fn law_envelope(e: Envelope, data: u8)
    ensures
        e.after_write(data).constant_volume == ((data / 16) % 2 == 1),
        e.after_write(data).looping == ((data / 32) % 2 == 1),
        e.after_write(data).volume == data % 16,
        e.constant_volume ==> e.volume_of() == e.volume,
        !e.constant_volume ==> e.volume_of() == e.decay,
        e.start ==> e.after_tick().decay == 15 && !e.after_tick().start,
        !e.start && e.divider > 0 ==> e.after_tick().decay == e.decay && e.after_tick().divider + 1 == e.divider,
        !e.start && e.divider == 0 ==> e.after_tick().divider == e.volume && e.after_tick().decay == if e.decay > 0 {
            e.decay - 1
        } else if e.looping {
            15
        } else {
            0
        },
{
    crate::bits::lemma_byte_tests(data);
}

/// The length counter counts down by one per half-frame clock unless it is
/// halted or already 0, and disabling the channel clears it; a write loads
/// it only while the channel is enabled.
pub proof fn law_length_counter(l: LengthCounter, data: u8)
    ensures
        !l.halt && l.counter > 0 ==> l.after_tick().counter + 1 == l.counter,
        l.halt || l.counter == 0 ==> l.after_tick().counter == l.counter,
        l.after_set_enabled(false).counter == 0,
        l.after_set_enabled(true).counter == l.counter,
        !l.enabled ==> l.after_write(data).counter == l.counter,
{
}

/// The sweep's target: the period moved by the period shifted right by the
/// shift count, upwards, or downwards when negating; pulse 1 (ones'
/// complement) goes down by one more than pulse 2 (two's complement), and
/// the target never goes below 0.
pub proof fn law_sweep_target(s: Sweep, current: u16)
    requires
        s.shift < 8,
    ensures
        !s.negate ==> sweep_target(s, current) == current + (current >> (s.shift as u16)),
        s.negate && s.negation_mode == SweepNegationMode::TwosCompliment ==> sweep_target(s, current) == if current
            - (current >> (s.shift as u16)) < 0 {
            0
        } else {
            current - (current >> (s.shift as u16))
        },
        s.negate && s.negation_mode == SweepNegationMode::OnesCompliment ==> sweep_target(s, current) == if current
            - (current >> (s.shift as u16)) - 1 < 0 {
            0
        } else {
            current - (current >> (s.shift as u16)) - 1
        },
{
    crate::bits::lemma_split_word(current);
    let k = s.shift as u16;
    assert(k == 0 ==> current >> k == current >> 0u16);
    assert(k == 1 ==> current >> k == current >> 1u16);
    assert(k == 2 ==> current >> k == current >> 2u16);
    assert(k == 3 ==> current >> k == current >> 3u16);
    assert(k == 4 ==> current >> k == current >> 4u16);
    assert(k == 5 ==> current >> k == current >> 5u16);
    assert(k == 6 ==> current >> k == current >> 6u16);
    assert(k == 7 ==> current >> k == current >> 7u16);
}

/// Each timer expiry of the delta channel with bits left moves the output
/// by 2, up for a 1 bit and down for a 0 bit, and never leaves 0-127; the
/// bit is shifted out of the shift register.
pub proof fn law_dmc_delta(d: DMCChannel)
    requires
        d.output <= 127,
        d.counter == 0,
        d.bit_count > 0,
    ensures
        ({
            let out = d.after_shift().output;
            &&& out <= 127
            &&& d.shift_register % 2 == 1 && d.output <= 125 ==> out == d.output + 2
            &&& d.shift_register % 2 == 0 && d.output >= 2 ==> out + 2 == d.output
            &&& d.shift_register % 2 == 1 && d.output > 125 || d.shift_register % 2 == 0 && d.output < 2 ==> out == d.output
            &&& d.after_shift().shift_register == d.shift_register / 2
            &&& d.after_shift().bit_count + 1 == d.bit_count
        }),
{
}

} // verus!
