use vstd::prelude::*;

use rand::Rng;

use crate::apu::{APU, ChannelLevels, status_byte, lemma_clock_ignores_buffer};
use crate::apu::channels::pulse::PulseChannel;
use crate::apu::frame_counter::{FrameCounter, Mode};
use crate::apu::channels::noise::NoiseChannel;
use crate::apu::channels::triangle::TriangleChannel;
use crate::apu::sweep::SweepNegationMode;
use crate::cartridge::{Rom, slice_to_vec};
use crate::joypad::{Joypad, report};
use crate::mappers::mapper::Mapper;
use crate::mappers::mapper0::{Mapper0, prg_offset};
use crate::ppu::{PPU, mirror_spec, palette_index, increment_of, tick_relation};
use crate::ppu::registers::status::VBLANK_STARTED;
use crate::render::frame::Frame;

verus! {

/// Byte-wide access to a 16-bit address space.
pub trait Mem {
    /// Whether reading `addr` stays within what exists.
    spec fn read_ok(&self, addr: u16) -> bool;

    /// Whether writing `data` at `addr` stays within what exists.
    spec fn write_ok(&self, addr: u16, data: u8) -> bool;

    /// Whether reading the word at `pos` stays within what exists.
    spec fn read16_ok(&self, pos: u16) -> bool;

    /// Whether writing the word at `pos` stays within what exists.
    spec fn write16_ok(&self, pos: u16, data: u16) -> bool;

    fn mem_read(&mut self, addr: u16) -> u8
        requires
            old(self).read_ok(addr),
    ;

    fn mem_write(&mut self, addr: u16, data: u8)
        requires
            old(self).write_ok(addr, data),
    ;

    fn mem_read_u16(&mut self, pos: u16) -> u16
        requires
            old(self).read16_ok(pos),
    ;

    fn mem_write_u16(&mut self, pos: u16, data: u16)
        requires
            old(self).write16_ok(pos, data),
    ;
}

/// `rand::rng().random_range(0..bound)`: a number drawn from the thread's
/// generator, which the crate documents to lie in `0..bound` (it panics on an
/// empty range, which `bound > 0` rules out). Which number comes is left open.
#[verifier::external_body]
fn random_below(bound: u8) -> (r: u8)
    requires
        bound > 0,
    ensures
        r < bound,
{
    rand::rng().random_range(0..bound)
}

/// `data` plus `k`, wrapping at 256: the byte a write delivers when `k` was
/// drawn for it.
pub open spec fn corrupt_value(data: u8, k: u8) -> u8 {
    ((data + k) % 256) as u8
}

/// Whether `k` is an amount a write can draw: 0 when there is no
/// corruption, otherwise anything below `corruption`.
pub open spec fn drawn(corruption: u8, k: u8) -> bool {
    if corruption == 0 {
        k == 0
    } else {
        k < corruption
    }
}

/// Adds the drawn amount `k` to a written byte, wrapping at 256.
pub fn corrupt_by(data: u8, k: u8) -> (r: u8)
    ensures
        r == corrupt_value(data, k),
{
    data.wrapping_add(k)
}

/// The registers at $2000-$3FFF repeat every eight bytes.
pub open spec fn in_ppu_registers(addr: u16) -> bool {
    0x2000 <= addr <= 0x3FFF
}

/// The PPU register that an address in $2000-$3FFF selects.
pub open spec fn ppu_register(addr: u16) -> u16 {
    (0x2000 + addr % 8) as u16
}

/// The CPU's 2 KiB of RAM is mirrored four times in $0000-$1FFF.
pub open spec fn ram_index(addr: u16) -> int {
    addr as int % 0x800
}

/// Whether a pulse channel is well formed, tested field by field.
fn pulse_ok(p: &PulseChannel) -> (r: bool)
    ensures
        r == p.wf(),
{
    p.sweep.period < 8 && p.sweep.shift < 8 && p.envelope.volume < 16 && p.envelope.decay < 16
        && p.sequencer.steps == 8 && p.sequencer.step < p.sequencer.steps && p.duty_cycle < 4
}

/// The CPU's view of the console: RAM, PPU and APU registers, the
/// controller and the cartridge.
pub struct Bus {
    pub cpu_vram: [u8; 2048],
    pub mapper: Mapper0,
    pub ppu: PPU,
    pub apu: APU,
    pub joypad1: Joypad,
    pub frame: Frame,
    pub cycles: usize,
    pub corruption: u8,
}

impl Bus {
    pub open spec fn wf(&self) -> bool {
        self.ppu.wf() && self.apu.channels_wf()
    }

    /// An OAM DMA from `page` reads only what exists: for the PPU register
    /// pages every PPUDATA read of the 32 it makes, for the cartridge pages
    /// every byte of the page.
    pub open spec fn dma_ok(&self, page: u8) -> bool {
        &&& (0x20 <= page < 0x40) ==> forall|k: int|
            0 <= k < 32 ==> #[trigger] self.ppu.read_ok_at(
                ((self.ppu.address.addr() + k * increment_of(self.ppu.control@)) % 0x4000) as u16,
            )
        &&& page >= 0x80 ==> forall|i: int|
            0 <= i < 256 ==> #[trigger] self.mapper.prg_readable((page * 256 + i) as u16)
    }

    /// Builds the console for a cartridge. Only mapper 0 exists.
    pub fn new(rom: Rom) -> (bus: Bus)
        requires
            rom.mapper == 0,
        ensures
            bus.wf(),
            bus.apu.wf(),
            bus.ppu.chr_rom@ == rom.chr_rom@,
            bus.ppu.mirroring == rom.mirroring,
            bus.mapper.prg_rom@ == rom.prg_rom@,
            bus.mapper.chr_rom@ == rom.chr_rom@,
            bus.mapper.mirroring == rom.mirroring,
            bus.apu.dmc.prg_rom@ == rom.prg_rom@,
            forall|i: int| 0 <= i < 2048 ==> bus.cpu_vram@[i] == 0,
            bus.cycles == 0,
            bus.corruption == 0,
            bus.frame.data.len() == 256 * 240 * 3,
            forall|i: int| 0 <= i < bus.frame.data.len() ==> bus.frame.data@[i] == 0,
            !bus.joypad1.strobe && bus.joypad1.index == 0 && bus.joypad1.status == 0,
            bus.apu.buffer@.len() == 0,
            bus.ppu.scanline() == 0 && bus.ppu.cycle() == 0 && bus.ppu.nmi_interrupt is None,
            bus.ppu.address.addr() == 0 && bus.ppu.address.expects_hi(),
            bus.ppu.control@ == 0 && bus.ppu.mask@ == 0 && bus.ppu.status@ == 0,
            forall|i: int| 0 <= i < 2048 ==> bus.ppu.vram@[i] == 0,
            forall|i: int| 0 <= i < 256 ==> bus.ppu.oam_data@[i] == 0,
            forall|i: int| 0 <= i < 32 ==> bus.ppu.palette_table@[i] == 0,
            bus.ppu.scroll.scroll_x == 0 && bus.ppu.scroll.scroll_y == 0 && !bus.ppu.scroll.latch,
            bus.ppu.oam_addr == 0 && bus.ppu.data_buffer() == 0,
            bus.apu.pulse_0 == PulseChannel::initial(SweepNegationMode::OnesCompliment),
            bus.apu.pulse_1 == PulseChannel::initial(SweepNegationMode::TwosCompliment),
            bus.apu.triangle == TriangleChannel::initial(),
            bus.apu.noise == NoiseChannel::initial(),
            bus.apu.frame_counter == (FrameCounter {
                counter: 0,
                irq_enabled: true,
                pub_irq_flag: false,
                prv_irq_flag: false,
                mode: Mode::Zero,
            }),
            !bus.apu.dmc.irq_enabled && !bus.apu.dmc.irq_flag && !bus.apu.dmc.enabled && !bus.apu.dmc.looping,
            bus.apu.dmc.output == 0 && bus.apu.dmc.sample_address == 0 && bus.apu.dmc.sample_length == 0,
            bus.apu.dmc.current_address == 0 && bus.apu.dmc.current_length == 0,
            bus.apu.dmc.shift_register == 0 && bus.apu.dmc.bit_count == 0 && bus.apu.dmc.period == 0,
            bus.apu.dmc.counter == 0 && bus.apu.dmc.cpu_stall_cycles == 0,
    {
        let prg_copy = slice_to_vec(&rom.prg_rom, 0, rom.prg_rom.len());
        let chr_copy = slice_to_vec(&rom.chr_rom, 0, rom.chr_rom.len());
        assert(prg_copy@ == rom.prg_rom@);
        assert(chr_copy@ == rom.chr_rom@);
        let ppu = PPU::new(chr_copy, rom.mirroring);
        let apu = APU::new(prg_copy);
        let mapper = Mapper0::new(rom.prg_rom, rom.chr_rom, rom.mirroring);
        Bus {
            cpu_vram: [0u8; 2048],
            mapper,
            ppu,
            apu,
            joypad1: Joypad::new(),
            frame: Frame::new(),
            cycles: 0,
            corruption: 0,
        }
    }

    fn read_prg_rom(&self, addr: u16) -> (r: u8)
        requires
            self.mapper.prg_readable(addr),
        ensures
            r == self.mapper.prg_rom@[prg_offset(self.mapper.prg_rom.len() as int, addr)],
    {
        self.mapper.read_prg_rom(addr)
    }

    fn write_prg_rom(&mut self, addr: u16, data: u8)
        ensures
            *final(self) == *old(self),
    {
        self.mapper.write_prg_rom(addr, data);
    }

    pub fn read_chr_rom(&self, addr: u16) -> (r: u8)
        requires
            self.mapper.chr_readable(addr),
        ensures
            r == self.mapper.chr_rom@[(addr as int) % (self.mapper.chr_rom.len() as int)],
    {
        self.mapper.read_chr_rom(addr)
    }

    pub fn write_chr_rom(&mut self, addr: u16, data: u8)
        ensures
            *final(self) == *old(self),
    {
        self.mapper.write_chr_rom(addr, data);
    }

    /// The amount a write adds to its byte: a random number below
    /// `corruption`, or 0 when there is no corruption (then nothing is drawn).
    fn draw_corruption(&self) -> (k: u8)
        ensures
            drawn(self.corruption, k),
    {
        if self.corruption != 0 {
            random_below(self.corruption)
        } else {
            0
        }
    }

    /// Whether `tick(cycles)` may run: the console is well formed, the DMC
    /// channel can be clocked, at most 85 cycles are asked for and the
    /// cycle count does not overflow.
    pub fn tick_ok(&self, cycles: u8) -> (r: bool)
        ensures
            r == (self.wf() && self.apu.dmc.can_tick() && cycles <= 85 && self.cycles + cycles <= usize::MAX),
    {
        let d = &self.apu.dmc;
        let dmc_ok = (!d.enabled || d.period >= 1) && (d.current_length == 0 || d.current_address as usize
            + d.current_length as usize <= d.prg_rom.len()) && (!d.looping || d.sample_address as usize
            + d.sample_length as usize <= d.prg_rom.len()) && d.output <= 127;
        let t = &self.apu.triangle.sequencer;
        let n = &self.apu.noise.envelope;
        self.ppu.cycles < 341 && self.ppu.scanline < 262 && pulse_ok(&self.apu.pulse_0) && pulse_ok(
            &self.apu.pulse_1,
        ) && t.steps == 32 && t.step < t.steps && n.volume < 16 && n.decay < 16 && dmc_ok && cycles <= 85
            && self.cycles <= usize::MAX - cycles as usize
    }

    /// Runs the APU for `cycles` CPU cycles and the PPU for three times as
    /// many; true when the PPU finished a frame.
    pub fn tick(&mut self, cycles: u8) -> (new_frame: bool)
        requires
            old(self).wf(),
            old(self).apu.dmc.can_tick(),
            cycles <= 85,
            old(self).cycles + cycles <= usize::MAX,
        ensures
            final(self).wf(),
            final(self).apu.dmc.can_tick(),
            final(self).cycles == old(self).cycles + cycles,
            new_frame == (old(self).ppu.cycle() + 3 * cycles >= 341 && old(self).ppu.scanline() + 1 == 262),
            final(self).cpu_vram@ == old(self).cpu_vram@,
            final(self).mapper == old(self).mapper,
            final(self).joypad1 == old(self).joypad1,
            final(self).frame == old(self).frame,
            final(self).corruption == old(self).corruption,
            final(self).ppu.chr_rom@ == old(self).ppu.chr_rom@,
            final(self).ppu.vram@ == old(self).ppu.vram@,
            final(self).ppu.mirroring == old(self).mapper.mirroring,
            tick_relation(old(self).ppu, final(self).ppu, 3 * cycles, old(self).mapper.mirroring, new_frame),
            final(self).apu.same_units(old(self).apu.clocked(old(self).cycles as int, cycles as nat)),
            final(self).apu.buffer@ == old(self).apu.buffer@ + old(self).apu.samples(old(self).cycles as int, cycles as nat),
    {
        let mut k: u8 = 0;
        while k < cycles
            invariant
                k <= cycles,
                self.cycles == old(self).cycles + k,
                old(self).cycles + cycles <= usize::MAX,
                self.apu.wf(),
                self.apu.same_units(old(self).apu.clocked(old(self).cycles as int, k as nat)),
                self.apu.buffer@ == old(self).apu.buffer@ + old(self).apu.samples(old(self).cycles as int, k as nat),
                self.ppu == old(self).ppu,
                self.cpu_vram@ == old(self).cpu_vram@,
                self.mapper == old(self).mapper,
                self.joypad1 == old(self).joypad1,
                self.frame == old(self).frame,
                self.corruption == old(self).corruption,
            decreases cycles - k,
        {
            let ghost before = self.apu;
            self.cycles = self.cycles + 1;
            self.apu.tick(self.cycles);
            proof {
                let from = old(self).cycles as int;
                let prev = old(self).apu.clocked(from, k as nat);
                lemma_clock_ignores_buffer(before, prev, self.cycles);
                assert(old(self).apu.clocked(from, (k + 1) as nat) == prev.after_clock(self.cycles));
                assert(old(self).apu.samples(from, (k + 1) as nat) == if self.cycles % 40 == 0 {
                    old(self).apu.samples(from, k as nat).push(prev.after_clock(self.cycles).levels())
                } else {
                    old(self).apu.samples(from, k as nat)
                });
                assert(self.apu.buffer@ =~= old(self).apu.buffer@ + old(self).apu.samples(from, (k + 1) as nat));
            }
            k = k + 1;
        }
        let m = self.mapper.mirroring();
        self.ppu.tick(cycles * 3, m)
    }

    /// Takes a pending NMI raised by the PPU.
    pub fn poll_nmi_status(&mut self) -> (r: Option<u8>)
        ensures
            r == old(self).ppu.nmi_interrupt,
            *final(self) == (Bus { ppu: PPU { nmi_interrupt: None, ..old(self).ppu }, ..*old(self) }),
    {
        let r = self.ppu.nmi_interrupt;
        self.ppu.nmi_interrupt = None;
        r
    }

    /// A copy of the audio samples collected so far.
    pub fn get_apu_buffer(&self) -> (r: Vec<ChannelLevels>)
        ensures
            r@ == self.apu.buffer@,
    {
        let mut out: Vec<ChannelLevels> = Vec::new();
        let mut i: usize = 0;
        while i < self.apu.buffer.len()
            invariant
                i <= self.apu.buffer.len(),
                out@ == self.apu.buffer@.subrange(0, i as int),
            decreases self.apu.buffer.len() - i,
        {
            out.push(self.apu.buffer[i]);
            i = i + 1;
        }
        out
    }

    pub fn set_apu_buffer(&mut self, buffer: Vec<ChannelLevels>)
        ensures
            *final(self) == (Bus { apu: APU { buffer: buffer, ..old(self).apu }, ..*old(self) }),
    {
        self.apu.buffer = buffer;
    }

    /// Removes and returns the newest audio sample.
    pub fn pop_apu_buffer(&mut self) -> (r: Option<ChannelLevels>)
        ensures
            old(self).apu.buffer@.len() == 0 ==> r is None && final(self).apu.buffer@ == old(self).apu.buffer@,
            old(self).apu.buffer@.len() > 0 ==> r == Some(old(self).apu.buffer@.last()) && final(self).apu.buffer@ == old(self).apu.buffer@.drop_last(),
            final(self).apu.same_units(old(self).apu),
            final(self).cpu_vram == old(self).cpu_vram,
            final(self).mapper == old(self).mapper,
            final(self).ppu == old(self).ppu,
            final(self).joypad1 == old(self).joypad1,
            final(self).frame == old(self).frame,
            final(self).cycles == old(self).cycles,
            final(self).corruption == old(self).corruption,
    {
        self.apu.buffer.pop()
    }
}

/// The PPU state that a register access never touches.
pub open spec fn ppu_kept(old: PPU, new: PPU) -> bool {
    &&& new.chr_rom@ == old.chr_rom@
    &&& new.vram@ == old.vram@
    &&& new.mirroring == old.mirroring
    &&& new.control@ == old.control@
    &&& new.scanline == old.scanline
    &&& new.cycles == old.cycles
    &&& new.oam_addr == old.oam_addr
}

/// What reading PPU register `reg` ($2000-$2007) returns and does.
pub open spec fn ppu_read(old: PPU, new: PPU, reg: u16, r: u8) -> bool {
    &&& ppu_kept(old, new)
    &&& reg == 0x2002 ==> {
        &&& r == old.status@
        &&& new.status@ == old.status@ & !VBLANK_STARTED
        &&& new.address.addr() == old.address.addr()
        &&& new.address.expects_hi()
        &&& !new.scroll.latch
        &&& new.scroll.scroll_x == old.scroll.scroll_x
        &&& new.scroll.scroll_y == old.scroll.scroll_y
        &&& new.mask@ == old.mask@
        &&& new.oam_data@ == old.oam_data@
        &&& new.oam_addr == old.oam_addr
        &&& new.palette_table@ == old.palette_table@
        &&& new.nmi_interrupt == old.nmi_interrupt
        &&& new.internal_data_buffer == old.internal_data_buffer
    }
    &&& reg == 0x2004 ==> r == old.oam_data@[old.oam_addr as int] && new == old
    &&& reg == 0x2007 ==> {
        let a = old.address.addr();
        &&& a < 0x2000 ==> r == old.internal_data_buffer && new.internal_data_buffer == old.chr_rom@[a as int]
        &&& 0x2000 <= a < 0x3000 ==> r == old.internal_data_buffer && new.internal_data_buffer
            == old.vram@[mirror_spec(old.mirroring, a)]
        &&& 0x3f00 <= a ==> r == old.palette_table@[palette_index(a)] && new.internal_data_buffer
            == old.internal_data_buffer
        &&& new.address.addr() == (a + increment_of(old.control@)) % 0x4000
        &&& new.address.expects_hi() == old.address.expects_hi()
        &&& new.status@ == old.status@
        &&& new.scroll == old.scroll
        &&& new.mask@ == old.mask@
        &&& new.oam_data@ == old.oam_data@
        &&& new.oam_addr == old.oam_addr
        &&& new.palette_table@ == old.palette_table@
        &&& new.nmi_interrupt == old.nmi_interrupt
    }
    &&& (reg != 0x2002 && reg != 0x2004 && reg != 0x2007) ==> r == 0 && new == old
}

/// The PPU address after a write of `c` to PPUADDR.
pub open spec fn address_after_write(addr: u16, expects_hi: bool, c: u8) -> u16 {
    if expects_hi {
        ((c % 64) * 256 + addr % 256) as u16
    } else {
        (addr - addr % 256 + c) as u16
    }
}

/// What writing `d` to PPU register `reg` ($2000-$2007) does, where `c` is
/// the byte that the mask, OAM data, address and data registers receive.
pub open spec fn ppu_write(old: PPU, new: PPU, reg: u16, d: u8, c: u8) -> bool {
    &&& new.chr_rom@ == old.chr_rom@
    &&& new.mirroring == old.mirroring
    &&& new.scanline == old.scanline
    &&& new.cycles == old.cycles
    &&& reg != 0x2000 ==> new.control@ == old.control@
    &&& reg != 0x2007 ==> new.vram@ == old.vram@ && new.palette_table@ == old.palette_table@
    &&& reg != 0x2006 && reg != 0x2007 ==> new.address == old.address
    &&& reg == 0x2000 ==> new.control@ == d && new.vram@ == old.vram@
    &&& reg == 0x2001 ==> new.mask@ == c
    &&& reg == 0x2002 ==> new == old
    &&& reg == 0x2003 ==> new.oam_addr == d && new.oam_data@ == old.oam_data@
    &&& reg == 0x2004 ==> new.oam_data@ == old.oam_data@.update(old.oam_addr as int, c)
    &&& reg == 0x2004 ==> new.oam_addr == (old.oam_addr + 1) % 256
    &&& reg == 0x2005 ==> {
        &&& new.scroll.scroll_x == if old.scroll.latch { old.scroll.scroll_x } else { d }
        &&& new.scroll.scroll_y == if old.scroll.latch { d } else { old.scroll.scroll_y }
        &&& new.scroll.latch == !old.scroll.latch
    }
    &&& reg == 0x2006 ==> new.address.addr() == address_after_write(
        old.address.addr(),
        old.address.expects_hi(),
        c,
    )
    &&& reg == 0x2006 ==> new.address.expects_hi() == !old.address.expects_hi()
    &&& reg == 0x2007 ==> {
        let a = old.address.addr();
        &&& 0x2000 <= a < 0x3000 ==> new.vram@ == old.vram@.update(mirror_spec(old.mirroring, a), c)
            && new.palette_table@ == old.palette_table@
        &&& 0x3f00 <= a ==> new.palette_table@ == old.palette_table@.update(palette_index(a) % 32, c)
            && new.vram@ == old.vram@
        &&& a < 0x2000 ==> new.vram@ == old.vram@ && new.palette_table@ == old.palette_table@
        &&& new.address.addr() == (a + increment_of(old.control@)) % 0x4000
    }
}

impl Bus {
    /// Reads one of the eight PPU registers.
    fn read_ppu_register(&mut self, reg: u16) -> (r: u8)
        requires
            0x2000 <= reg <= 0x2007,
            reg == 0x2007 ==> old(self).ppu.read_data_ok(),
        ensures
            ppu_read(old(self).ppu, final(self).ppu, reg, r),
            final(self).ppu.wf() == old(self).ppu.wf(),
            final(self).cpu_vram@ == old(self).cpu_vram@,
            final(self).mapper == old(self).mapper,
            final(self).apu == old(self).apu,
            final(self).joypad1 == old(self).joypad1,
            final(self).frame == old(self).frame,
            final(self).cycles == old(self).cycles,
            final(self).corruption == old(self).corruption,
    {
        if reg == 0x2002 {
            self.ppu.read_status()
        } else if reg == 0x2004 {
            self.ppu.read_oam_data()
        } else if reg == 0x2007 {
            self.ppu.read_data()
        } else {
            // the other registers cannot be read
            0
        }
    }

    /// Writes one of the eight PPU registers; `corrupted` is what the
    /// mask, OAM data, address and data registers receive.
    fn write_ppu_register(&mut self, reg: u16, data: u8, corrupted: u8)
        requires
            0x2000 <= reg <= 0x2007,
            reg == 0x2007 ==> old(self).ppu.data_addr_ok(old(self).ppu.address.addr()),
        ensures
            ppu_write(old(self).ppu, final(self).ppu, reg, data, corrupted),
            final(self).ppu.wf() == old(self).ppu.wf(),
            final(self).cpu_vram@ == old(self).cpu_vram@,
            final(self).mapper == old(self).mapper,
            final(self).apu == old(self).apu,
            final(self).joypad1 == old(self).joypad1,
            final(self).frame == old(self).frame,
            final(self).cycles == old(self).cycles,
            final(self).corruption == old(self).corruption,
    {
        if reg == 0x2000 {
            self.ppu.write_to_control(data);
        } else if reg == 0x2001 {
            self.ppu.write_to_mask(corrupted);
        } else if reg == 0x2002 {
            // the status register cannot be written
        } else if reg == 0x2003 {
            self.ppu.write_to_oam_address(data);
        } else if reg == 0x2004 {
            self.ppu.write_to_oam_data(corrupted);
        } else if reg == 0x2005 {
            self.ppu.write_to_scroll(data);
        } else if reg == 0x2006 {
            self.ppu.write_to_ppu_address(corrupted);
        } else {
            self.ppu.write_to_data(corrupted);
        }
    }
}

/// What the CPU reads at `addr` when the read has no side effect: RAM, open
/// or write-only locations, and cartridge ROM.
pub open spec fn plain_read_value(bus: &Bus, addr: u16) -> u8 {
    if addr < 0x2000 {
        bus.cpu_vram@[ram_index(addr)]
    } else if addr >= 0x8000 {
        bus.mapper.prg_rom@[prg_offset(bus.mapper.prg_rom.len() as int, addr)]
    } else {
        0
    }
}

/// Reads at `addr` leave the console as it is.
pub open spec fn read_is_plain(addr: u16) -> bool {
    !in_ppu_registers(addr) && addr != 0x4015 && addr != 0x4016
}

/// The 256 reads of an OAM DMA from `page`: `states[i]` is the console
/// before the read of byte `i`, which returns `bytes[i]`, each read being an
/// ordinary CPU read of `page * 256 + i`.
pub open spec fn dma_reads(old: Bus, page: u8, states: Seq<Bus>, bytes: Seq<u8>) -> bool {
    &&& states.len() == 257
    &&& bytes.len() == 256
    &&& states[0] == old
    &&& forall|i: int|
        0 <= i < 256 ==> #[trigger] read_effect(states[i], states[i + 1], (page * 256 + i) as u16, bytes[i])
}

/// The console after the copy: as the reads left it (`last`), with the
/// bytes read placed in OAM from the OAM address on, wrapping round.
pub open spec fn dma_copied(old: Bus, new: Bus, last: Bus, bytes: Seq<u8>) -> bool {
    &&& forall|i: int|
        0 <= i < 256 ==> #[trigger] new.ppu.oam_data@[(old.ppu.oam_addr + i) % 256] == bytes[i]
    &&& new.ppu.oam_addr == old.ppu.oam_addr
    &&& new.ppu.chr_rom@ == last.ppu.chr_rom@
    &&& new.ppu.vram@ == last.ppu.vram@
    &&& new.ppu.palette_table@ == last.ppu.palette_table@
    &&& new.ppu.mirroring == last.ppu.mirroring
    &&& new.ppu.same_registers(&last.ppu)
    &&& new.cpu_vram@ == last.cpu_vram@
    &&& new.mapper == last.mapper
    &&& new.apu == last.apu
    &&& new.joypad1 == last.joypad1
    &&& new.frame == last.frame
    &&& new.cycles == last.cycles
    &&& new.corruption == last.corruption
}

/// What an OAM DMA from `page` does: 256 CPU reads of the page, whose
/// bytes are copied into OAM.
pub open spec fn dma_effect(old: Bus, new: Bus, page: u8) -> bool {
    exists|states: Seq<Bus>, bytes: Seq<u8>|
        #[trigger] dma_reads(old, page, states, bytes) && dma_copied(old, new, states[256], bytes)
}

/// Byte `j` of the I/O page $4000-$40FF as a DMA reads it: the APU status
/// at $4015, the controller bit at $4016, 0 elsewhere.
pub open spec fn io_page_byte(old: Bus, j: int) -> u8 {
    if j == 0x15 {
        status_byte(&old.apu)
    } else if j == 0x16 {
        report(old.joypad1.index, old.joypad1.status)
    } else {
        0
    }
}

/// The APU after $4015 was read: the frame interrupt flags cleared.
pub open spec fn apu_after_status_read(old: APU, new: APU) -> bool {
    &&& new.frame_counter == (FrameCounter { prv_irq_flag: false, pub_irq_flag: false, ..old.frame_counter })
    &&& new.pulse_0 == old.pulse_0
    &&& new.pulse_1 == old.pulse_1
    &&& new.triangle == old.triangle
    &&& new.noise == old.noise
    &&& new.dmc == old.dmc
    &&& new.buffer@ == old.buffer@
}

impl Bus {
    /// Copies a page of CPU memory into OAM, starting at the OAM address.
    #[verifier::rlimit(40)]
    fn oam_dma(&mut self, page: u8)
        requires
            old(self).wf(),
            old(self).dma_ok(page),
        ensures
            final(self).wf(),
            dma_effect(*old(self), *final(self), page),
            page < 0x20 || 0x41 <= page ==> forall|i: int|
                0 <= i < 256 ==> #[trigger] final(self).ppu.oam_data@[(old(self).ppu.oam_addr + i) % 256]
                    == plain_read_value(old(self), (page * 256 + i) as u16),
            page == 0x40 ==> forall|i: int|
                0 <= i < 256 ==> #[trigger] final(self).ppu.oam_data@[(old(self).ppu.oam_addr + i) % 256]
                    == io_page_byte(*old(self), i),
            page == 0x40 ==> apu_after_status_read(old(self).apu, final(self).apu),
            page == 0x40 ==> final(self).joypad1 == old(self).joypad1.after_read(),
            page != 0x40 ==> final(self).apu == old(self).apu && final(self).joypad1 == old(self).joypad1,
            page < 0x20 || 0x40 <= page ==> final(self).ppu.same_registers(&old(self).ppu)
                && final(self).ppu.vram@ == old(self).ppu.vram@ && final(self).ppu.palette_table@
                == old(self).ppu.palette_table@,
            final(self).ppu.oam_addr == old(self).ppu.oam_addr,
            final(self).cpu_vram@ == old(self).cpu_vram@,
            final(self).mapper == old(self).mapper,
            final(self).frame == old(self).frame,
            final(self).cycles == old(self).cycles,
            final(self).corruption == old(self).corruption,
            final(self).ppu.chr_rom@ == old(self).ppu.chr_rom@,
            final(self).ppu.mirroring == old(self).ppu.mirroring,
            final(self).apu.dmc == old(self).apu.dmc,
            final(self).apu.buffer@ == old(self).apu.buffer@,
    {
        let mut buffer: [u8; 256] = [0u8; 256];
        let hi: u16 = (page as u16) << 8u16;
        assert(hi == page * 256) by (bit_vector)
            requires
                hi == (page as u16) << 8u16,
        ;
        let ghost a0 = self.ppu.address.addr();
        let ghost inc = increment_of(self.ppu.control@);
        let ghost s0 = *self;
        let ghost mut states: Seq<Bus> = seq![*self];
        let ghost mut bytes: Seq<u8> = Seq::empty();
        proof {
            self.ppu.address.lemma_bound();
        }
        let mut i: u16 = 0;
        while i < 256
            invariant
                0 <= i <= 256,
                hi == page * 256,
                s0 == *old(self),
                self.wf(),
                old(self).dma_ok(page),
                self.cpu_vram@ == old(self).cpu_vram@,
                self.mapper == old(self).mapper,
                self.frame == old(self).frame,
                self.cycles == old(self).cycles,
                self.corruption == old(self).corruption,
                self.apu.dmc == old(self).apu.dmc,
                self.apu.buffer@ == old(self).apu.buffer@,
                ppu_kept(old(self).ppu, self.ppu),
                page < 0x20 || 0x40 <= page ==> self.ppu == old(self).ppu,
                page < 0x20 || 0x41 <= page ==> *self == *old(self),
                page != 0x40 ==> self.apu == old(self).apu && self.joypad1 == old(self).joypad1,
                page == 0x40 ==> self.joypad1 == if i > 0x16 {
                    old(self).joypad1.after_read()
                } else {
                    old(self).joypad1
                },
                page == 0x40 && i <= 0x15 ==> self.apu == old(self).apu,
                page == 0x40 && i > 0x15 ==> apu_after_status_read(old(self).apu, self.apu),
                0x20 <= page < 0x40 ==> self.ppu.address.addr() == (a0 + (i / 8) * inc) % 0x4000,
                a0 == old(self).ppu.address.addr(),
                inc == increment_of(old(self).ppu.control@),
                states.len() == i + 1,
                bytes.len() == i,
                states[0] == *old(self),
                states[i as int] == *self,
                forall|j: int|
                    0 <= j < i ==> #[trigger] read_effect(states[j], states[j + 1], (page * 256 + j) as u16, bytes[j]),
                forall|j: int| 0 <= j < i ==> #[trigger] buffer@[j] == bytes[j],
                page < 0x20 || 0x41 <= page ==> forall|j: int|
                    0 <= j < i ==> #[trigger] bytes[j] == plain_read_value(old(self), (page * 256 + j) as u16),
                page == 0x40 ==> forall|j: int| 0 <= j < i ==> #[trigger] bytes[j] == io_page_byte(s0, j),
            decreases 256 - i,
        {
            let addr = hi + i;
            proof {
                if 0x20 <= page < 0x40 && ppu_register(addr) == 0x2007 {
                    let k = (i / 8) as int;
                    assert(0 <= k < 32);
                    assert(old(self).ppu.read_ok_at(((a0 + k * inc) % 0x4000) as u16));
                    assert(self.ppu.read_ok_at(((a0 + k * inc) % 0x4000) as u16));
                }
            }
            let ghost before = *self;
            let v = self.mem_read(addr);
            proof {
                if 0x20 <= page < 0x40 {
                    if ppu_register(addr) == 0x2007 {
                        let k = (i / 8) as int;
                        vstd::arithmetic::div_mod::lemma_add_mod_noop(a0 + k * inc, inc, 0x4000);
                        assert((i + 1) / 8 == k + 1);
                    } else {
                        assert((i + 1) / 8 == i / 8);
                    }
                }
                assert(read_effect(before, *self, addr, v));
                states = states.push(*self);
                bytes = bytes.push(v);
                assert(forall|j: int|
                    0 <= j < i ==> #[trigger] read_effect(states[j], states[j + 1], (page * 256 + j) as u16, bytes[j]));
                assert(read_effect(states[i as int], states[i + 1], (page * 256 + i) as u16, bytes[i as int]));
            }
            buffer[i as usize] = v;
            i = i + 1;
        }
        self.ppu.write_oam_dma(&buffer);
        proof {
            assert(dma_reads(s0, page, states, bytes));
            assert(dma_copied(s0, *self, states[256], bytes));
        }
    }
}

/// What a CPU read of `addr` returns (`r`) and does to the console.
pub open spec fn read_effect(old: Bus, new: Bus, addr: u16, r: u8) -> bool {
    &&& old.wf() ==> new.wf()
    &&& read_is_plain(addr) ==> r == plain_read_value(&old, addr) && new == old
    &&& in_ppu_registers(addr) ==> ppu_read(old.ppu, new.ppu, ppu_register(addr), r)
    &&& !in_ppu_registers(addr) ==> new.ppu == old.ppu
    &&& addr == 0x4015 ==> r == status_byte(&old.apu) && !new.apu.frame_counter.prv_irq_flag
            && !new.apu.frame_counter.pub_irq_flag
    &&& addr != 0x4015 ==> new.apu == old.apu
    &&& new.apu.dmc == old.apu.dmc
    &&& addr == 0x4015 ==> new.apu.frame_counter == (FrameCounter {
            prv_irq_flag: false,
            pub_irq_flag: false,
            ..old.apu.frame_counter
        }) && new.apu.pulse_0 == old.apu.pulse_0 && new.apu.pulse_1 == old.apu.pulse_1
            && new.apu.triangle == old.apu.triangle && new.apu.noise == old.apu.noise
            && new.apu.buffer@ == old.apu.buffer@
    &&& addr == 0x4016 ==> r == report(old.joypad1.index, old.joypad1.status)
    &&& addr == 0x4016 ==> new.joypad1 == old.joypad1.after_read()
    &&& addr != 0x4016 ==> new.joypad1 == old.joypad1
    &&& new.cpu_vram@ == old.cpu_vram@
    &&& new.mapper == old.mapper
    &&& new.frame == old.frame
    &&& new.cycles == old.cycles
    &&& new.corruption == old.corruption
}

/// What a CPU write of `data` at `addr` does to the console when `k1` was
/// drawn for it (and `k2` for the second pass through the PPU register
/// mirrors): `c` is the corrupted byte.
#[verifier::opaque]
pub open spec fn write_effect_drawn(old: Bus, new: Bus, addr: u16, data: u8, k1: u8, k2: u8) -> bool {
    let c = corrupt_value(data, k1);
    &&& new.wf()
    &&& addr < 0x2000 ==> new.cpu_vram@ == old.cpu_vram@.update(ram_index(addr), data)
    &&& addr >= 0x2000 ==> new.cpu_vram@ == old.cpu_vram@
    &&& 0x2000 <= addr <= 0x2007 ==> ppu_write(old.ppu, new.ppu, addr, data, c)
    &&& 0x2008 <= addr <= 0x3FFF ==> ppu_write(
        old.ppu,
        new.ppu,
        ppu_register(addr),
        c,
        corrupt_value(c, k2),
    )
    &&& !in_ppu_registers(addr) && addr != 0x4014 ==> new.ppu == old.ppu
    &&& addr == 0x4014 ==> dma_effect(old, new, data)
    &&& addr == 0x4014 ==> new.ppu.oam_addr == old.ppu.oam_addr
    &&& addr == 0x4014 && (data < 0x20 || 0x41 <= data) ==> forall|i: int|
            0 <= i < 256 ==> #[trigger] new.ppu.oam_data@[(old.ppu.oam_addr + i) % 256]
                == plain_read_value(&old, (data * 256 + i) as u16)
    &&& addr == 0x4014 && data == 0x40 ==> forall|i: int|
            0 <= i < 256 ==> #[trigger] new.ppu.oam_data@[(old.ppu.oam_addr + i) % 256] == io_page_byte(old, i)
    &&& addr == 0x4014 && data == 0x40 ==> apu_after_status_read(old.apu, new.apu)
            && new.joypad1 == old.joypad1.after_read()
    &&& addr == 0x4014 && data != 0x40 ==> new.apu == old.apu && new.joypad1 == old.joypad1
    &&& addr == 0x4014 && (data < 0x20 || 0x40 <= data) ==> new.ppu.same_registers(&old.ppu)
            && new.ppu.vram@ == old.ppu.vram@ && new.ppu.palette_table@ == old.ppu.palette_table@
    &&& addr == 0x4016 ==> new.joypad1.strobe == (data & 1 == 1) && new.joypad1.status
            == old.joypad1.status
    &&& addr != 0x4016 && addr != 0x4014 ==> new.joypad1 == old.joypad1
    &&& (addr < 0x4000 || addr > 0x4017) ==> new.apu == old.apu
    &&& 0x4010 <= addr <= 0x4013 ==> new.apu.dmc == old.apu.dmc.after_write(addr, data)
    &&& addr == 0x4015 ==> new.apu.dmc.enabled == (c & 0b0001_0000 != 0)
    &&& 0x4000 <= addr <= 0x4003 ==> new.apu.same_units(
            APU { pulse_0: old.apu.pulse_0.after_write(addr, c), ..old.apu },
        )
    &&& 0x4004 <= addr <= 0x4007 ==> new.apu.same_units(
            APU { pulse_1: old.apu.pulse_1.after_write(addr, c), ..old.apu },
        )
    &&& 0x4008 <= addr <= 0x400B ==> new.apu.same_units(
            APU { triangle: old.apu.triangle.after_write(addr, c), ..old.apu },
        )
    &&& 0x400C <= addr <= 0x400F ==> new.apu.same_units(
            APU { noise: old.apu.noise.after_write(addr, c), ..old.apu },
        )
    &&& 0x4010 <= addr <= 0x4013 ==> new.apu.same_units(
            APU { dmc: old.apu.dmc.after_write(addr, data), ..old.apu },
        )
    &&& addr == 0x4015 ==> new.apu.same_units(
            APU {
                pulse_0: old.apu.pulse_0.after_set_enabled(c & 0b0000_0001 != 0),
                pulse_1: old.apu.pulse_1.after_set_enabled(c & 0b0000_0010 != 0),
                triangle: old.apu.triangle.after_set_enabled(c & 0b0000_0100 != 0),
                noise: old.apu.noise.after_set_enabled(c & 0b0000_1000 != 0),
                dmc: old.apu.dmc.after_set_enabled(c & 0b0001_0000 != 0),
                ..old.apu
            },
        )
    &&& addr == 0x4017 ==> new.apu.same_units(
            (APU {
                frame_counter: old.apu.frame_counter.after_write(c, old.cycles),
                ..old.apu
            }).after_frame_step(FrameCounter::write_step(c)),
        )
    &&& 0x4000 <= addr <= 0x4017 ==> new.apu.buffer@ == old.apu.buffer@
    &&& new.mapper == old.mapper
    &&& new.frame == old.frame
    &&& new.cycles == old.cycles
    &&& new.corruption == old.corruption
}

/// What a CPU write of `data` at `addr` does to the console, whatever
/// amounts were drawn for it.
pub open spec fn write_effect(old: Bus, new: Bus, addr: u16, data: u8) -> bool {
    exists|k1: u8, k2: u8|
        drawn(old.corruption, k1) && drawn(old.corruption, k2) && #[trigger] write_effect_drawn(
            old,
            new,
            addr,
            data,
            k1,
            k2,
        )
}

impl Bus {
    /// Writes a byte as the CPU does, with `k1` the amount drawn for this
    /// write and `k2` the one drawn again when a mirror of the PPU registers
    /// passes the byte on: the PPU mask, OAM data, address and data
    /// registers and the APU channel, status and frame-counter registers get
    /// `data + k1` (and a mirrored PPU register `data + k1 + k2`), wrapping
    /// at 256. $4014 copies a page into OAM.
    pub fn write_drawn(&mut self, addr: u16, data: u8, k1: u8, k2: u8)
        requires
            old(self).write_ok(addr, data),
        ensures
            write_effect_drawn(*old(self), *final(self), addr, data, k1, k2),
    {
        proof {
            reveal(write_effect_drawn);
        }
        let corrupted = corrupt_by(data, k1);
        if addr <= 0x1FFF {
            let mirror_down_addr = addr & 0b0000_0111_1111_1111;
            assert(mirror_down_addr == addr % 0x800) by (bit_vector)
                requires
                    mirror_down_addr == addr & 0b0000_0111_1111_1111,
            ;
            self.cpu_vram[mirror_down_addr as usize] = data;
        } else if addr <= 0x2007 {
            self.write_ppu_register(addr, data, corrupted);
        } else if addr <= 0x3FFF {
            let reg = addr & 0b0010_0000_0000_0111;
            assert(reg == 0x2000 + addr % 8) by (bit_vector)
                requires
                    reg == addr & 0b0010_0000_0000_0111,
                    0x2000 <= addr <= 0x3FFF,
            ;
            let corrupted_again = corrupt_by(corrupted, k2);
            self.write_ppu_register(reg, corrupted, corrupted_again);
        } else if addr <= 0x4003 {
            self.apu.write_to_pulse_0(addr, corrupted);
        } else if addr <= 0x4007 {
            self.apu.write_to_pulse_1(addr, corrupted);
        } else if addr <= 0x400B {
            self.apu.write_to_triangle(addr, corrupted);
        } else if addr <= 0x400F {
            self.apu.write_to_noise(addr, corrupted);
        } else if addr <= 0x4013 {
            self.apu.write_to_dmc(addr, data);
        } else if addr == 0x4014 {
            self.oam_dma(data);
        } else if addr == 0x4015 {
            self.apu.set_status(corrupted);
        } else if addr == 0x4016 {
            self.joypad1.write(data);
        } else if addr == 0x4017 {
            self.apu.set_frame_counter(corrupted, self.cycles);
        } else if 0x6000 <= addr && addr <= 0x7FFF {
            self.mapper.write_prg_ram(addr - 0x6000, data);
        } else if addr >= 0x8000 {
            self.write_prg_rom(addr, data);
        }
    }
}

impl Mem for Bus {
    open spec fn read_ok(&self, addr: u16) -> bool {
        if in_ppu_registers(addr) && ppu_register(addr) == 0x2007 {
            self.ppu.read_data_ok()
        } else if addr >= 0x8000 {
            self.mapper.prg_readable(addr)
        } else {
            true
        }
    }

    open spec fn write_ok(&self, addr: u16, data: u8) -> bool {
        &&& self.wf()
        &&& in_ppu_registers(addr) && ppu_register(addr) == 0x2007 ==> self.ppu.data_addr_ok(
            self.ppu.address.addr(),
        )
        &&& addr == 0x4014 ==> self.dma_ok(data)
    }

    open spec fn read16_ok(&self, pos: u16) -> bool {
        self.read_ok(pos) && self.read_ok(pos.wrapping_add(1))
    }

    open spec fn write16_ok(&self, pos: u16, data: u16) -> bool {
        let lo = (data % 256) as u8;
        let hi = (data / 256) as u8;
        let next = (pos + 1) as u16;
        &&& pos < 0xFFFF
        &&& self.write_ok(pos, lo)
        &&& self.write_ok(next, hi)
        &&& in_ppu_registers(next) && ppu_register(next) == 0x2007 && in_ppu_registers(pos) ==> forall|c: u8|
            (self.corruption != 0 || c == lo) ==> #[trigger] self.ppu.data_addr_ok(
                address_after_write(self.ppu.address.addr(), self.ppu.address.expects_hi(), c),
            )
    }

    /// Reads a byte as the CPU sees it: RAM (mirrored every 2 KiB), the PPU
    /// registers (mirrored every 8 bytes), the APU status, the first
    /// controller, and cartridge ROM; the rest reads as 0.
    fn mem_read(&mut self, addr: u16) -> (r: u8)
        ensures
            read_effect(*old(self), *final(self), addr, r),
    {
        if addr <= 0x1FFF {
            let mirror_down_addr = addr & 0b0000_0111_1111_1111;
            assert(mirror_down_addr == addr % 0x800) by (bit_vector)
                requires
                    mirror_down_addr == addr & 0b0000_0111_1111_1111,
            ;
            self.cpu_vram[mirror_down_addr as usize]
        } else if addr <= 0x3FFF {
            let reg = addr & 0b0010_0000_0000_0111;
            assert(reg == 0x2000 + addr % 8) by (bit_vector)
                requires
                    reg == addr & 0b0010_0000_0000_0111,
                    0x2000 <= addr <= 0x3FFF,
            ;
            self.read_ppu_register(reg)
        } else if addr == 0x4014 {
            // OAM DMA cannot be read
            0
        } else if addr == 0x4015 {
            self.apu.read()
        } else if addr == 0x4016 {
            self.joypad1.read()
        } else if addr == 0x4017 {
            // the second controller is not connected
            0
        } else if 0x6000 <= addr && addr <= 0x7FFF {
            self.mapper.read_prg_ram(addr - 0x6000)
        } else if addr >= 0x8000 {
            self.read_prg_rom(addr)
        } else {
            0
        }
    }

    /// Writes a byte as the CPU does. While `corruption` is non-zero every
    /// write draws a random amount below it (a mirror of the PPU registers
    /// draws a second one), and `write_drawn` does the rest.
    fn mem_write(&mut self, addr: u16, data: u8)
        ensures
            write_effect(*old(self), *final(self), addr, data),
    {
        let k1 = self.draw_corruption();
        let k2 = if 0x2008 <= addr && addr <= 0x3FFF {
            self.draw_corruption()
        } else {
            0
        };
        assert(drawn(self.corruption, k2));
        let ghost s0 = *self;
        self.write_drawn(addr, data, k1, k2);
        assert(write_effect_drawn(s0, *self, addr, data, k1, k2));
    }

    /// A little-endian word from two reads at `pos` and `pos + 1`.
    fn mem_read_u16(&mut self, pos: u16) -> (r: u16)
        ensures
            read_is_plain(pos) && read_is_plain(pos.wrapping_add(1)) ==> r == plain_read_value(old(self), pos) + 256
                * plain_read_value(old(self), pos.wrapping_add(1)) && *final(self) == *old(self),
            old(self).wf() ==> final(self).wf(),
            exists|mid: Bus, lo: u8, hi: u8|
                #[trigger] read_effect(*old(self), mid, pos, lo) && #[trigger] read_effect(
                    mid,
                    *final(self),
                    pos.wrapping_add(1),
                    hi,
                ) && r == hi * 256 + lo,
    {
        let ghost s0 = *self;
        let lo8 = self.mem_read(pos);
        let ghost mid = *self;
        let hi8 = self.mem_read(pos.wrapping_add(1));
        let lo = lo8 as u16;
        let hi = hi8 as u16;
        proof {
            crate::bits::lemma_word(lo, hi);
            assert(read_effect(s0, mid, pos, lo8) && read_effect(mid, *self, pos.wrapping_add(1), hi8));
        }
        (hi << 8u16) | lo
    }

    /// Writes the low byte at `pos`, then the high byte at `pos + 1`.
    #[verifier::rlimit(40)]
    fn mem_write_u16(&mut self, pos: u16, data: u16)
        ensures
            final(self).wf(),
            pos < 0x1FFF ==> final(self).cpu_vram@ == old(self).cpu_vram@.update(ram_index(pos), (data % 256) as u8).update(
                ram_index((pos + 1) as u16),
                (data / 256) as u8,
            ),
            exists|mid: Bus|
                #[trigger] write_effect(*old(self), mid, pos, (data % 256) as u8) && write_effect(
                    mid,
                    *final(self),
                    (pos + 1) as u16,
                    (data / 256) as u8,
                ),
    {
        proof {
            crate::bits::lemma_split_word(data);
        }
        let hi = (data >> 8u16) as u8;
        let lo = (data & 0xff) as u8;
        let ghost s0 = *self;
        self.mem_write(pos, lo);
        proof {
            lemma_second_write_ok(s0, *self, pos, data);
        }
        let ghost mid = *self;
        self.mem_write(pos + 1, hi);
        proof {
            lemma_write_facts(s0, mid, pos, lo);
            lemma_write_facts(mid, *self, (pos + 1) as u16, hi);
        }
        assert(write_effect(s0, mid, pos, lo) && write_effect(mid, *self, (pos + 1) as u16, hi));
    }
}

/// What a write leaves of the console that a following write relies on.
proof fn lemma_drawn_facts(old: Bus, new: Bus, addr: u16, data: u8, k1: u8, k2: u8)
    requires
        write_effect_drawn(old, new, addr, data, k1, k2),
    ensures
        new.wf(),
        new.mapper == old.mapper,
        addr < 0x2000 ==> new.cpu_vram@ == old.cpu_vram@.update(ram_index(addr), data),
        addr >= 0x2000 ==> new.cpu_vram@ == old.cpu_vram@,
        !in_ppu_registers(addr) && addr != 0x4014 ==> new.ppu == old.ppu,
        0x2000 <= addr <= 0x2007 ==> ppu_write(old.ppu, new.ppu, addr, data, corrupt_value(data, k1)),
        0x2008 <= addr <= 0x3FFF ==> ppu_write(
            old.ppu,
            new.ppu,
            ppu_register(addr),
            corrupt_value(data, k1),
            corrupt_value(corrupt_value(data, k1), k2),
        ),
{
    reveal(write_effect_drawn);
}

/// The same, whatever amounts the write drew.
proof fn lemma_write_facts(old: Bus, new: Bus, addr: u16, data: u8)
    requires
        write_effect(old, new, addr, data),
    ensures
        new.wf(),
        addr < 0x2000 ==> new.cpu_vram@ == old.cpu_vram@.update(ram_index(addr), data),
        addr >= 0x2000 ==> new.cpu_vram@ == old.cpu_vram@,
{
    let (k1, k2) = choose|k1: u8, k2: u8|
        drawn(old.corruption, k1) && drawn(old.corruption, k2) && #[trigger] write_effect_drawn(
            old,
            new,
            addr,
            data,
            k1,
            k2,
        );
    lemma_drawn_facts(old, new, addr, data, k1, k2);
}

/// After the low byte of a word write has gone to `pos`, the high byte can
/// go to `pos + 1`: in particular a write to PPUADDR followed by one to
/// PPUDATA finds the address that the first write set within memory.
#[verifier::rlimit(40)]
proof fn lemma_second_write_ok(s0: Bus, s1: Bus, pos: u16, data: u16)
    requires
        s0.write16_ok(pos, data),
        write_effect(s0, s1, pos, (data % 256) as u8),
    ensures
        s1.write_ok((pos + 1) as u16, (data / 256) as u8),
{
    let lo = (data % 256) as u8;
    let next = (pos + 1) as u16;
    let (k1, k2) = choose|k1: u8, k2: u8|
        drawn(s0.corruption, k1) && drawn(s0.corruption, k2) && #[trigger] write_effect_drawn(
            s0,
            s1,
            pos,
            lo,
            k1,
            k2,
        );
    lemma_drawn_facts(s0, s1, pos, lo, k1, k2);
    if in_ppu_registers(next) && ppu_register(next) == 0x2007 {
        assert(in_ppu_registers(pos) && ppu_register(pos) == 0x2006);
        let c1 = corrupt_value(lo, k1);
        let c = if pos <= 0x2007 { c1 } else { corrupt_value(c1, k2) };
        assert(s1.ppu.address.addr() == address_after_write(
            s0.ppu.address.addr(),
            s0.ppu.address.expects_hi(),
            c,
        ));
        assert(s0.corruption != 0 || c == lo);
        assert(s0.ppu.data_addr_ok(
            address_after_write(s0.ppu.address.addr(), s0.ppu.address.expects_hi(), c),
        ));
    }
}

/// The 2 KiB of RAM repeat at $0800, $1000 and $1800.
pub proof fn law_ram_mirrors(bus: &Bus, a: u16)
    requires
        a < 0x1800,
    ensures
        plain_read_value(bus, a) == plain_read_value(bus, (a + 0x800) as u16),
{
}

/// After a byte is written to RAM, a read at the same address or at any of
/// its mirrors gives it back, and the rest of RAM is as it was.
pub proof fn law_ram_write_then_read(before: &Bus, after: &Bus, a: u16, v: u8, b: u16)
    requires
        a < 0x2000,
        b < 0x2000,
        before.cpu_vram@.len() == 0x800,
        after.cpu_vram@ == before.cpu_vram@.update(ram_index(a), v),
    ensures
        b % 0x800 == a % 0x800 ==> plain_read_value(after, b) == v,
        b % 0x800 != a % 0x800 ==> plain_read_value(after, b) == plain_read_value(before, b),
{
}

/// With no corruption (each register receives the byte written), writing v
/// to PPUDATA at a nametable address, pointing PPUADDR back at it (high byte,
/// then low byte) and reading PPUDATA twice gives v on the second read: the
/// first returns what the buffer held.
pub proof fn law_ppudata_write_then_read(
    p0: PPU,
    p1: PPU,
    p2: PPU,
    p3: PPU,
    p4: PPU,
    p5: PPU,
    v: u8,
    r1: u8,
    r2: u8,
)
    requires
        0x2000 <= p0.address.addr(),
        p0.address.addr() + 32 < 0x3000,
        p0.data_addr_ok(p0.address.addr()),
        p0.vram@.len() == 2048,
        ppu_write(p0, p1, 0x2007, v, v),
        p1.address.expects_hi(),
        ppu_write(p1, p2, 0x2006, (p0.address.addr() / 256) as u8, (p0.address.addr() / 256) as u8),
        ppu_write(p2, p3, 0x2006, (p0.address.addr() % 256) as u8, (p0.address.addr() % 256) as u8),
        ppu_read(p3, p4, 0x2007, r1),
        ppu_read(p4, p5, 0x2007, r2),
    ensures
        p3.address.addr() == p0.address.addr(),
        r1 == p3.internal_data_buffer,
        r2 == v,
{
    let a = p0.address.addr();
    let i = mirror_spec(p0.mirroring, a);
    assert(p3.address.addr() == a);
    assert(p3.vram@ == p1.vram@ && p3.mirroring == p0.mirroring);
    assert(p4.internal_data_buffer == p1.vram@[i]);
    assert(p1.vram@.len() == 2048);
    assert(0 <= i < 2048 ==> p1.vram@[i] == v);
    assert(p4.control@ == p0.control@);
    assert(p4.address.addr() == (a + increment_of(p0.control@)) % 0x4000);
    assert(0x2000 <= p4.address.addr() < 0x3000);
}

/// With no corruption, writing v to OAMDATA at OAM address n and reading
/// OAMDATA after pointing OAMADDR at n again gives v back.
pub proof fn law_oamdata_write_then_read(p0: PPU, p1: PPU, p2: PPU, p3: PPU, p4: PPU, n: u8, v: u8, r: u8)
    requires
        ppu_write(p0, p1, 0x2003, n, n),
        ppu_write(p1, p2, 0x2004, v, v),
        ppu_write(p2, p3, 0x2003, n, n),
        ppu_read(p3, p4, 0x2004, r),
    ensures
        r == v,
{
}

/// With no corruption a write draws nothing: its effect is the one with
/// both amounts 0, so every register receives the byte written.
pub proof fn law_no_corruption_writes_plainly(old: Bus, new: Bus, addr: u16, data: u8)
    requires
        old.corruption == 0,
        write_effect(old, new, addr, data),
    ensures
        write_effect_drawn(old, new, addr, data, 0, 0),
        corrupt_value(data, 0) == data,
{
}

} // verus!
