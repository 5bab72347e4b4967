use pnes::apu::channels::dmc::DMCChannel;
use pnes::apu::channels::noise::NoiseChannel;
use pnes::apu::channels::pulse::{pulse_waveform_at, PulseChannel};
use pnes::apu::channels::triangle::TriangleChannel;
use pnes::apu::envelope::Envelope;
use pnes::apu::frame_counter::{FrameCounter, FrameCounterResult};
use pnes::apu::length_counter::{length_lookup, LengthCounter};
use pnes::apu::sequencer::Sequencer;
use pnes::apu::sweep::SweepNegationMode;
use pnes::apu::APU;

#[test]
fn length_table_entries() {
    assert_eq!(length_lookup(0), 10);
    assert_eq!(length_lookup(1), 254);
    assert_eq!(length_lookup(24), 192);
    assert_eq!(length_lookup(31), 30);
}

#[test]
fn length_counter_loads_only_when_enabled() {
    let mut l = LengthCounter::new();
    l.write(0b0000_1000);
    assert_eq!(l.counter, 0);
    l.set_enabled(true);
    l.write(0b0000_1000);
    assert_eq!(l.counter, 254);
    l.tick();
    assert_eq!(l.counter, 253);
    l.set_halt(true);
    l.tick();
    assert_eq!(l.counter, 252);
    l.update();
    l.tick();
    assert_eq!(l.counter, 252);
    l.set_enabled(false);
    assert_eq!(l.counter, 0);
    assert!(!l.playing());
}

#[test]
fn envelope_decays_and_loops() {
    let mut e = Envelope::new();
    e.write(0b0010_0001); // loop, decay period 1
    e.start();
    e.tick();
    assert_eq!(e.get_volume(), 15);
    e.tick(); // divider 1 -> 0
    assert_eq!(e.get_volume(), 15);
    e.tick(); // divider expires: 14
    assert_eq!(e.get_volume(), 14);
    let mut c = Envelope::new();
    c.write(0b0001_0111); // constant volume 7
    assert_eq!(c.get_volume(), 7);
}

#[test]
fn envelope_wraps_to_15_when_looping() {
    let mut e = Envelope::new();
    e.write(0b0010_0000); // loop, period 0
    e.start();
    e.tick();
    for _ in 0..15 {
        e.tick();
    }
    assert_eq!(e.get_volume(), 0);
    e.tick();
    assert_eq!(e.get_volume(), 15);
}

#[test]
fn sequencer_steps_on_reload() {
    let mut s = Sequencer::new(8);
    s.set_period_lo(0x02);
    s.set_period_hi(0xF9);
    assert_eq!(s.period, 0x102);
    assert!(s.tick(true));
    assert_eq!(s.get_step(), 1);
    assert_eq!(s.counter, 0x102);
    assert!(!s.tick(true));
    assert_eq!(s.counter, 0x101);
}

#[test]
fn pulse_register_writes() {
    let mut p = PulseChannel::new(SweepNegationMode::OnesCompliment);
    p.set_enabled(true);
    p.write(0x4000, 0b1011_1111);
    assert_eq!(p.duty_cycle, 2);
    p.write(0x4002, 0x34);
    p.write(0x4003, 0b0000_1010);
    assert_eq!(p.sequencer.period, 0x234);
    assert_eq!(p.length_counter.counter, 254);
    assert!(p.envelope.start);
    assert!(p.playing());
}

#[test]
fn pulse_waveforms() {
    let duty2: Vec<u8> = (0..8).map(|s| pulse_waveform_at(2, s)).collect();
    assert_eq!(duty2, vec![0, 1, 1, 1, 1, 0, 0, 0]);
    let duty3: Vec<u8> = (0..8).map(|s| pulse_waveform_at(3, s)).collect();
    assert_eq!(duty3, vec![1, 0, 0, 1, 1, 1, 1, 1]);
}

#[test]
fn pulse_sample_follows_envelope() {
    let mut p = PulseChannel::new(SweepNegationMode::TwosCompliment);
    p.set_enabled(true);
    p.write(0x4000, 0b0001_1001); // duty 0, constant volume 9
    p.write(0x4002, 0x10);
    p.write(0x4003, 0x00);
    // step 0 of duty 0 is low
    assert_eq!(p.sample(), 0);
    p.tick_sequencer();
    assert_eq!(p.sequencer.step, 1);
    assert_eq!(p.sample(), 9);
}

#[test]
fn pulse_sweep_moves_period() {
    let mut p = PulseChannel::new(SweepNegationMode::TwosCompliment);
    p.write(0x4002, 0x00);
    p.write(0x4003, 0x01); // period $100
    p.write(0x4001, 0b1000_0001); // enabled, divider 0, shift 1
    p.tick_half(); // divider reloads (pending reload)
    assert_eq!(p.sequencer.period, 0x180);
}

#[test]
fn triangle_linear_counter() {
    let mut t = TriangleChannel::new();
    t.set_enabled(true);
    t.write(0x4008, 0b1000_0101);
    t.write(0x400B, 0x00);
    assert!(t.linear_counter_start);
    t.tick_quarter();
    assert_eq!(t.linear_counter, 5);
    assert!(t.active());
}

#[test]
fn noise_register_writes_and_shift() {
    let mut n = NoiseChannel::new();
    n.set_enabled(true);
    n.write(0x400E, 0b1000_0011);
    assert!(n.mode);
    assert_eq!(n.period, 32);
    n.write(0x400F, 0x00);
    assert_eq!(n.length_counter.counter, 10);
    assert_eq!(n.shift, 1);
    n.tick_sequencer();
    // bit 0 (1) xor bit 6 (0) goes into bit 14
    assert_eq!(n.shift, 0x4000);
    assert_eq!(n.counter, 32);
}

#[test]
fn dmc_writes() {
    let mut d = DMCChannel::new(vec![0u8; 0x10000]);
    d.write(0x4010, 0b1000_1111);
    assert!(d.irq_enabled);
    assert!(d.looping);
    assert_eq!(d.period, 27);
    d.write(0x4011, 0xFF);
    assert_eq!(d.sample(), 0x7F);
    d.write(0x4012, 0x01);
    assert_eq!(d.sample_address, 0xC040);
    d.write(0x4013, 0x02);
    assert_eq!(d.sample_length, 33);
    d.set_enabled(true);
    assert!(d.playing());
    assert_eq!(d.current_address, 0xC040);
    assert_eq!(d.current_length, 33);
    d.set_enabled(false);
    assert!(!d.playing());
}

#[test]
fn dmc_reads_a_byte_and_shifts() {
    let mut rom = vec![0u8; 0x10000];
    rom[0xC000] = 0b0000_0001;
    let mut d = DMCChannel::new(rom);
    d.write(0x4010, 0x0F); // period 27
    d.write(0x4011, 10);
    d.write(0x4012, 0x00);
    d.write(0x4013, 0x00); // one byte
    d.set_enabled(true);
    d.tick_sequencer();
    assert_eq!(d.reset_stall_cycles(), 4);
    assert_eq!(d.reset_stall_cycles(), 0);
    assert_eq!(d.current_length, 0);
    // the first bit is 1: the output goes up by 2
    assert_eq!(d.sample(), 12);
    assert_eq!(d.bit_count, 7);
}

#[test]
fn dmc_fetches_a_byte_when_only_it_is_in_rom() {
    // the sample runs past the end of the ROM; only its first byte is there
    let mut rom = vec![0u8; 0xC001];
    rom[0xC000] = 0b0000_0000;
    let mut d = DMCChannel::new(rom);
    d.write(0x4010, 0x00); // period 214
    d.write(0x4011, 40);
    d.write(0x4012, 0x00);
    d.write(0x4013, 0x01); // 17 bytes
    d.set_enabled(true);
    d.tick_sequencer();
    assert_eq!(d.reset_stall_cycles(), 4);
    assert_eq!(d.current_address, 0xC001);
    assert_eq!(d.current_length, 16);
    // the first bit is 0: the output goes down by 2 and the timer reloads
    assert_eq!(d.sample(), 38);
    assert_eq!(d.counter, 213);
}

#[test]
fn sequencer_reloads_once_per_period() {
    let mut s = Sequencer::new(8);
    s.set_period_lo(3);
    s.counter = 2;
    let fired: Vec<bool> = (0..4).map(|_| s.tick(true)).collect();
    assert_eq!(fired, vec![false, false, true, false]);
    assert_eq!(fired.iter().filter(|f| **f).count(), 1);
    assert_eq!(s.get_step(), 1);
}

#[test]
fn frame_counter_sequence() {
    let mut f = FrameCounter::new();
    f.counter = 7_459;
    assert_eq!(f.tick(), FrameCounterResult::Quarter);
    f.counter = 14_915;
    assert_eq!(f.tick(), FrameCounterResult::Half);
    f.counter = 29_830;
    assert_eq!(f.tick(), FrameCounterResult::Idle);
    assert!(f.prv_irq_flag);
    f.counter = 29_831;
    f.tick();
    assert!(f.pub_irq_flag);
    assert_eq!(f.counter, 2);
}

#[test]
fn frame_counter_write() {
    let mut f = FrameCounter::new();
    f.prv_irq_flag = true;
    assert_eq!(f.write(0b1100_0000, 3), FrameCounterResult::Half);
    assert!(!f.irq_enabled);
    assert!(!f.prv_irq_flag);
    assert_eq!(f.counter, -1);
    assert_eq!(f.write(0, 4), FrameCounterResult::Idle);
    assert_eq!(f.counter, 0);
    f.counter = 37_283;
    assert_eq!(f.tick_mode_one(), FrameCounterResult::Half);
    assert_eq!(f.counter, 1);
}

#[test]
fn apu_status_and_buffer() {
    let mut apu = APU::new(vec![0u8; 0x8000]);
    apu.set_status(0b0000_0101);
    apu.write_to_pulse_0(0x4003, 0b0000_1000);
    apu.write_to_triangle(0x400B, 0b0000_1000);
    apu.write_to_pulse_1(0x4007, 0b0000_1000);
    assert_eq!(apu.read() & 0b0001_1111, 0b0000_0101);
    for c in 1..=80usize {
        apu.tick(c);
    }
    assert_eq!(apu.buffer.len(), 2);
    let levels = apu.levels_now();
    assert_eq!(apu.buffer[1], levels);
}

#[test]
fn apu_frame_irq_is_read_and_cleared() {
    let mut apu = APU::new(vec![0u8; 0x8000]);
    apu.frame_counter.counter = 29_830;
    apu.tick(1);
    assert_eq!(apu.read() & 0b0100_0000, 0b0100_0000);
    assert_eq!(apu.read() & 0b0100_0000, 0);
}

#[test]
fn five_step_write_clocks_half_frame() {
    let mut apu = APU::new(vec![0u8; 0x8000]);
    apu.set_status(0b0000_0001);
    apu.write_to_pulse_0(0x4003, 0b0000_1000);
    assert_eq!(apu.pulse_0.length_counter.counter, 254);
    apu.set_frame_counter(0b1000_0000, 0);
    assert_eq!(apu.pulse_0.length_counter.counter, 253);
}
