use vstd::prelude::*;

use crate::cartridge::Mirroring;

pub mod registers;
pub mod laws;

use registers::address::AddressRegister;
use registers::control::{ControlRegister, VRAM_ADDRESS_INCREMENT, GENERATE_NMI};
use registers::mask::{MaskRegister, SHOW_SPRITES};
use registers::scroll::ScrollRegister;
use registers::status::{StatusRegister, with_bit, SPRITE_ZERO_HIT, VBLANK_STARTED};

verus! {

/// The picture processing unit: pattern ROM, nametable RAM, palette, OAM and
/// the memory-mapped registers.
pub struct PPU {
    pub chr_rom: Vec<u8>,
    pub vram: [u8; 2048],
    pub mirroring: Mirroring,
    pub address: AddressRegister,
    pub control: ControlRegister,
    pub status: StatusRegister,
    pub scroll: ScrollRegister,
    pub mask: MaskRegister,
    pub oam_addr: u8,
    pub oam_data: [u8; 256],
    pub palette_table: [u8; 32],
    pub nmi_interrupt: Option<u8>,
    pub internal_data_buffer: u8,
    pub scanline: u16,
    pub cycles: usize,
}

/// The index into the 2 KiB of nametable RAM of a nametable address
/// ($2000-$2FFF, mirrored from $3000-$3EFF): the four logical nametables of
/// $400 bytes are folded onto two physical ones.
pub open spec fn mirror_spec(mirroring: Mirroring, addr: u16) -> int {
    let vram_index = (addr & 0b10_1111_1111_1111) - 0x2000;
    let name_table = vram_index / 0x400;
    match mirroring {
        Mirroring::Vertical => if name_table == 2 || name_table == 3 {
            vram_index - 0x800
        } else {
            vram_index
        },
        Mirroring::Horizontal => if name_table == 1 || name_table == 2 {
            vram_index - 0x400
        } else if name_table == 3 {
            vram_index - 0x800
        } else {
            vram_index
        },
        Mirroring::FourScreen => vram_index,
    }
}

/// Where a palette address $3F00-$3F1F lands: $3F10/$3F14/$3F18/$3F1C
/// mirror $3F00/$3F04/$3F08/$3F0C.
pub open spec fn palette_index(addr: u16) -> int {
    if addr == 0x3f10 || addr == 0x3f14 || addr == 0x3f18 || addr == 0x3f1c {
        addr - 0x3f10
    } else {
        addr - 0x3f00
    }
}

/// The step by which PPUDATA accesses move the address.
pub open spec fn increment_of(control: u8) -> int {
    if control & VRAM_ADDRESS_INCREMENT == 0 {
        1
    } else {
        32
    }
}

/// What one call of `tick` with `cycles` PPU cycles and `mirroring` does:
/// the timing moves on by at most one scanline, vblank starts at scanline
/// 241 (with an NMI when enabled), the frame ends after scanline 261, and
/// sprite 0 is hit when its row is done; memory and the other registers
/// stay.
pub open spec fn tick_relation(old: PPU, new: PPU, cycles: int, mirroring: Mirroring, new_frame: bool) -> bool {
    &&& new.wf()
    &&& new.mirroring == mirroring
    &&& ({
            let c = old.cycle() + cycles;
            let line = old.scanline() + 1;
            let hit = old.oam_data@[0] as int == old.scanline() as int
                && old.oam_data@[3] as int <= c && old.mask@ & SHOW_SPRITES != 0;
            let s1 = if hit {
                with_bit(old.status@, SPRITE_ZERO_HIT, true)
            } else {
                old.status@
            };
            if c < 341 {
                &&& new.cycle() == c
                &&& new.scanline() == old.scanline()
                &&& new.status@ == old.status@
                &&& new.nmi_interrupt == old.nmi_interrupt
                &&& !new_frame
            } else if line == 262 {
                &&& new.cycle() == c - 341
                &&& new.scanline() == 0
                &&& new.status@ == with_bit(s1, SPRITE_ZERO_HIT, false) & !VBLANK_STARTED
                &&& new.nmi_interrupt is None
                &&& new_frame
            } else if line >= 241 {
                &&& new.cycle() == c - 341
                &&& new.scanline() == line
                &&& new.status@ == with_bit(
                    with_bit(s1, VBLANK_STARTED, true),
                    SPRITE_ZERO_HIT,
                    false,
                )
                &&& new.nmi_interrupt == if old.control@ & GENERATE_NMI != 0 {
                    Some(1u8)
                } else {
                    old.nmi_interrupt
                }
                &&& !new_frame
            } else {
                &&& new.cycle() == c - 341
                &&& new.scanline() == line
                &&& new.status@ == s1
                &&& new.nmi_interrupt == old.nmi_interrupt
                &&& !new_frame
            }
        })
    &&& new.chr_rom@ == old.chr_rom@
    &&& new.vram@ == old.vram@
    &&& new.oam_data@ == old.oam_data@
    &&& new.palette_table@ == old.palette_table@
    &&& new.oam_addr == old.oam_addr
    &&& new.control@ == old.control@
    &&& new.mask@ == old.mask@
    &&& new.scroll == old.scroll
    &&& new.address == old.address
    &&& new.data_buffer() == old.data_buffer()
}

impl PPU {
    /// The byte that the next read of PPUDATA returns for an address below
    /// $3F00.
    pub open spec fn data_buffer(&self) -> u8 {
        self.internal_data_buffer
    }

    /// The scanline being drawn, 0-261.
    pub open spec fn scanline(&self) -> u16 {
        self.scanline
    }

    /// The PPU cycle within the scanline.
    pub open spec fn cycle(&self) -> usize {
        self.cycles
    }

    /// The timing state stays within one frame: cycle below 341, scanline
    /// below 262.
    pub open spec fn wf(&self) -> bool {
        self.cycle() < 341 && self.scanline() < 262
    }

    /// Whether a PPUDATA write at `addr` stays within the memory that
    /// exists: writes to pattern ROM are ignored, those to the nametables
    /// must land in nametable RAM, and those from $3F00 on fold onto the 32
    /// palette bytes.
    pub open spec fn data_addr_ok(&self, addr: u16) -> bool {
        if addr < 0x2000 {
            true
        } else if addr < 0x3000 {
            0 <= mirror_spec(self.mirroring, addr) < 2048
        } else {
            0x3f00 <= addr
        }
    }

    /// A PPUDATA read is within memory: writes also accept $3F20-$3FFF, which
    /// fold onto the palette, but reads of those overrun it.
    pub open spec fn read_data_ok(&self) -> bool {
        self.read_ok_at(self.address.addr())
    }

    /// A PPUDATA read at `a` is within memory: pattern ROM, nametable RAM
    /// or the palette ($3F00-$3F1F).
    pub open spec fn read_ok_at(&self, a: u16) -> bool {
        &&& self.data_addr_ok(a)
        &&& a < 0x2000 ==> a < self.chr_rom.len()
        &&& !(0x3f20 <= a)
    }

    /// The registers other than the ones named keep their values.
    pub open spec fn same_memory(&self, other: &PPU) -> bool {
        &&& self.chr_rom@ == other.chr_rom@
        &&& self.vram@ == other.vram@
        &&& self.mirroring == other.mirroring
        &&& self.oam_data@ == other.oam_data@
        &&& self.palette_table@ == other.palette_table@
        &&& self.oam_addr == other.oam_addr
    }

    pub open spec fn same_registers(&self, other: &PPU) -> bool {
        &&& self.control@ == other.control@
        &&& self.mask@ == other.mask@
        &&& self.status@ == other.status@
        &&& self.scroll == other.scroll
        &&& self.address == other.address
        &&& self.nmi_interrupt == other.nmi_interrupt
        &&& self.data_buffer() == other.data_buffer()
        &&& self.scanline() == other.scanline()
        &&& self.cycle() == other.cycle()
    }

    pub fn new(chr_rom: Vec<u8>, mirroring: Mirroring) -> (p: PPU)
        ensures
            p.chr_rom@ == chr_rom@,
            p.mirroring == mirroring,
            forall|i: int| 0 <= i < 2048 ==> p.vram@[i] == 0,
            forall|i: int| 0 <= i < 256 ==> p.oam_data@[i] == 0,
            forall|i: int| 0 <= i < 32 ==> p.palette_table@[i] == 0,
            p.address.addr() == 0,
            p.address.expects_hi(),
            p.control@ == 0,
            p.status@ == 0,
            p.mask@ == 0,
            p.scroll.scroll_x == 0 && p.scroll.scroll_y == 0 && !p.scroll.latch,
            p.oam_addr == 0,
            p.nmi_interrupt is None,
            p.data_buffer() == 0,
            p.scanline() == 0,
            p.cycle() == 0,
            p.wf(),
    {
        PPU {
            chr_rom: chr_rom,
            vram: [0u8; 2048],
            mirroring: mirroring,
            address: AddressRegister::new(),
            control: ControlRegister::new(),
            status: StatusRegister::new(),
            scroll: ScrollRegister::new(),
            mask: MaskRegister::new(),
            oam_addr: 0,
            oam_data: [0u8; 256],
            palette_table: [0u8; 32],
            nmi_interrupt: None,
            internal_data_buffer: 0,
            scanline: 0,
            cycles: 0,
        }
    }

    pub fn write_to_mask(&mut self, value: u8)
        ensures
            final(self).mask@ == value,
            final(self).same_memory(old(self)),
            final(self).control@ == old(self).control@,
            final(self).status@ == old(self).status@,
            final(self).scroll == old(self).scroll,
            final(self).address == old(self).address,
            final(self).nmi_interrupt == old(self).nmi_interrupt,
            final(self).data_buffer() == old(self).data_buffer(),
            final(self).scanline() == old(self).scanline(),
            final(self).cycle() == old(self).cycle(),
    {
        self.mask.update(value);
    }

    pub fn write_to_ppu_address(&mut self, value: u8)
        ensures
            final(self).address.addr() == if old(self).address.expects_hi() {
                (value % 64) * 256 + old(self).address.addr() % 256
            } else {
                old(self).address.addr() - old(self).address.addr() % 256 + value
            },
            final(self).address.expects_hi() == !old(self).address.expects_hi(),
            final(self).same_memory(old(self)),
            final(self).control@ == old(self).control@,
            final(self).mask@ == old(self).mask@,
            final(self).status@ == old(self).status@,
            final(self).scroll == old(self).scroll,
            final(self).nmi_interrupt == old(self).nmi_interrupt,
            final(self).data_buffer() == old(self).data_buffer(),
            final(self).scanline() == old(self).scanline(),
            final(self).cycle() == old(self).cycle(),
    {
        self.address.update(value);
    }

    /// Writes PPUCTRL; turning the NMI on during vblank raises it at once.
    pub fn write_to_control(&mut self, value: u8)
        ensures
            final(self).control@ == value,
            final(self).nmi_interrupt == if old(self).control@ & GENERATE_NMI == 0 && value & GENERATE_NMI != 0
                && old(self).status@ & VBLANK_STARTED != 0 {
                Some(1u8)
            } else {
                old(self).nmi_interrupt
            },
            final(self).same_memory(old(self)),
            final(self).mask@ == old(self).mask@,
            final(self).status@ == old(self).status@,
            final(self).scroll == old(self).scroll,
            final(self).address == old(self).address,
            final(self).data_buffer() == old(self).data_buffer(),
            final(self).scanline() == old(self).scanline(),
            final(self).cycle() == old(self).cycle(),
    {
        let before_nmi = self.control.generate_vblank_nmi();
        self.control.update(value);
        if !before_nmi && self.control.generate_vblank_nmi() && self.status.is_in_vblank() {
            self.nmi_interrupt = Some(1);
        }
    }

    fn increment_vram_addr(&mut self)
        ensures
            final(self).address.addr() == (old(self).address.addr() + increment_of(old(self).control@)) % 0x4000,
            final(self).address.expects_hi() == old(self).address.expects_hi(),
            final(self).same_memory(old(self)),
            final(self).control@ == old(self).control@,
            final(self).mask@ == old(self).mask@,
            final(self).status@ == old(self).status@,
            final(self).scroll == old(self).scroll,
            final(self).nmi_interrupt == old(self).nmi_interrupt,
            final(self).data_buffer() == old(self).data_buffer(),
            final(self).scanline() == old(self).scanline(),
            final(self).cycle() == old(self).cycle(),
    {
        let inc = self.control.vram_address_increment();
        self.address.increment(inc);
    }

    /// Reads PPUDATA. Pattern and nametable reads return the byte buffered by
    /// the previous read and buffer the addressed one; palette reads return
    /// the palette byte at once. The address then moves on.
    pub fn read_data(&mut self) -> (r: u8)
        requires
            old(self).read_data_ok(),
        ensures
            ({
                let a = old(self).address.addr();
                &&& a < 0x2000 ==> r == old(self).data_buffer() && final(self).data_buffer() == old(
                    self,
                ).chr_rom@[a as int]
                &&& 0x2000 <= a < 0x3000 ==> r == old(self).data_buffer() && final(self).data_buffer()
                    == old(self).vram@[mirror_spec(old(self).mirroring, a)]
                &&& 0x3f00 <= a ==> r == old(self).palette_table@[palette_index(a)]
                    && final(self).data_buffer() == old(self).data_buffer()
                &&& final(self).address.addr() == (a + increment_of(old(self).control@)) % 0x4000
            }),
            final(self).address.expects_hi() == old(self).address.expects_hi(),
            final(self).same_memory(old(self)),
            final(self).control@ == old(self).control@,
            final(self).mask@ == old(self).mask@,
            final(self).status@ == old(self).status@,
            final(self).scroll == old(self).scroll,
            final(self).nmi_interrupt == old(self).nmi_interrupt,
            final(self).scanline() == old(self).scanline(),
            final(self).cycle() == old(self).cycle(),
    {
        let addr = self.address.get();
        self.increment_vram_addr();
        if addr <= 0x1fff {
            let result = self.internal_data_buffer;
            self.internal_data_buffer = self.chr_rom[addr as usize];
            result
        } else if addr <= 0x2fff {
            let result = self.internal_data_buffer;
            let i = self.mirror_vram_address(addr);
            self.internal_data_buffer = self.vram[i as usize];
            result
        } else if addr == 0x3f10 || addr == 0x3f14 || addr == 0x3f18 || addr == 0x3f1c {
            let add_mirror = addr - 0x10;
            self.palette_table[(add_mirror - 0x3f00) as usize]
        } else {
            self.palette_table[(addr - 0x3f00) as usize]
        }
    }

    /// The index into nametable RAM of a nametable address.
    pub fn mirror_vram_address(&self, addr: u16) -> (r: u16)
        requires
            addr & 0b10_1111_1111_1111 >= 0x2000,
        ensures
            r as int == mirror_spec(self.mirroring, addr),
    {
        let mirrored_vram = addr & 0b10_1111_1111_1111;
        let vram_index = mirrored_vram - 0x2000;
        let name_table = vram_index / 0x400;
        assert(vram_index < 0x1000) by (bit_vector)
            requires
                mirrored_vram == addr & 0b10_1111_1111_1111,
                vram_index == mirrored_vram - 0x2000,
                mirrored_vram >= 0x2000,
        ;
        match self.mirroring {
            Mirroring::Vertical => if name_table == 2 || name_table == 3 {
                vram_index - 0x800
            } else {
                vram_index
            },
            Mirroring::Horizontal => if name_table == 2 || name_table == 1 {
                vram_index - 0x400
            } else if name_table == 3 {
                vram_index - 0x800
            } else {
                vram_index
            },
            Mirroring::FourScreen => vram_index,
        }
    }

    /// Writes PPUDATA: nametable and palette writes store the byte (pattern
    /// ROM ignores it); the address then moves on.
    pub fn write_to_data(&mut self, value: u8)
        requires
            old(self).data_addr_ok(old(self).address.addr()),
        ensures
            ({
                let a = old(self).address.addr();
                &&& a < 0x2000 ==> final(self).vram@ == old(self).vram@ && final(self).palette_table@ == old(
                    self,
                ).palette_table@
                &&& 0x2000 <= a < 0x3000 ==> final(self).vram@ == old(self).vram@.update(
                    mirror_spec(old(self).mirroring, a),
                    value,
                ) && final(self).palette_table@ == old(self).palette_table@
                &&& 0x3f00 <= a ==> final(self).palette_table@ == old(self).palette_table@.update(
                    palette_index(a) % 32,
                    value,
                ) && final(self).vram@ == old(self).vram@
                &&& final(self).address.addr() == (a + increment_of(old(self).control@)) % 0x4000
            }),
            final(self).address.expects_hi() == old(self).address.expects_hi(),
            final(self).chr_rom@ == old(self).chr_rom@,
            final(self).mirroring == old(self).mirroring,
            final(self).oam_data@ == old(self).oam_data@,
            final(self).oam_addr == old(self).oam_addr,
            final(self).control@ == old(self).control@,
            final(self).mask@ == old(self).mask@,
            final(self).status@ == old(self).status@,
            final(self).scroll == old(self).scroll,
            final(self).nmi_interrupt == old(self).nmi_interrupt,
            final(self).data_buffer() == old(self).data_buffer(),
            final(self).scanline() == old(self).scanline(),
            final(self).cycle() == old(self).cycle(),
    {
        let addr = self.address.get();
        if addr <= 0x1fff {
            // pattern ROM cannot be written
        } else if addr <= 0x2fff {
            let i = self.mirror_vram_address(addr);
            self.vram[i as usize] = value;
        } else if addr == 0x3f10 || addr == 0x3f14 || addr == 0x3f18 || addr == 0x3f1c {
            let add_mirror = addr - 0x10;
            let i = (add_mirror - 0x3f00) as usize & 31;
            assert(i == (add_mirror - 0x3f00) % 32) by (bit_vector)
                requires
                    i == ((add_mirror - 0x3f00) as usize) & 31,
                    add_mirror >= 0x3f00,
            ;
            self.palette_table[i] = value;
        } else {
            let i = (addr - 0x3f00) as usize & 31;
            assert(i == (addr - 0x3f00) % 32) by (bit_vector)
                requires
                    i == ((addr - 0x3f00) as usize) & 31,
                    addr >= 0x3f00,
            ;
            self.palette_table[i] = value;
        }
        self.increment_vram_addr();
    }

    /// Reads PPUSTATUS, which ends vblank and resets the address and scroll
    /// latches.
    pub fn read_status(&mut self) -> (r: u8)
        ensures
            r == old(self).status@,
            final(self).status@ == old(self).status@ & !VBLANK_STARTED,
            final(self).address.addr() == old(self).address.addr(),
            final(self).address.expects_hi(),
            final(self).scroll.scroll_x == old(self).scroll.scroll_x,
            final(self).scroll.scroll_y == old(self).scroll.scroll_y,
            !final(self).scroll.latch,
            final(self).same_memory(old(self)),
            final(self).control@ == old(self).control@,
            final(self).mask@ == old(self).mask@,
            final(self).nmi_interrupt == old(self).nmi_interrupt,
            final(self).data_buffer() == old(self).data_buffer(),
            final(self).scanline() == old(self).scanline(),
            final(self).cycle() == old(self).cycle(),
    {
        let data = self.status.bits();
        self.status.reset_vblank_status();
        self.address.reset_latch();
        self.scroll.reset_latch();
        data
    }

    pub fn write_to_scroll(&mut self, value: u8)
        ensures
            final(self).scroll.scroll_x == if old(self).scroll.latch { old(self).scroll.scroll_x } else { value },
            final(self).scroll.scroll_y == if old(self).scroll.latch { value } else { old(self).scroll.scroll_y },
            final(self).scroll.latch == !old(self).scroll.latch,
            final(self).same_memory(old(self)),
            final(self).control@ == old(self).control@,
            final(self).mask@ == old(self).mask@,
            final(self).status@ == old(self).status@,
            final(self).address == old(self).address,
            final(self).nmi_interrupt == old(self).nmi_interrupt,
            final(self).data_buffer() == old(self).data_buffer(),
            final(self).scanline() == old(self).scanline(),
            final(self).cycle() == old(self).cycle(),
    {
        self.scroll.write(value);
    }

    pub fn write_to_oam_address(&mut self, value: u8)
        ensures
            final(self).oam_addr == value,
            final(self).oam_data@ == old(self).oam_data@,
            final(self).chr_rom@ == old(self).chr_rom@,
            final(self).vram@ == old(self).vram@,
            final(self).palette_table@ == old(self).palette_table@,
            final(self).mirroring == old(self).mirroring,
            final(self).same_registers(old(self)),
    {
        self.oam_addr = value;
    }

    /// Stores a byte at the OAM address, which then moves on by one.
    pub fn write_to_oam_data(&mut self, value: u8)
        ensures
            final(self).oam_data@ == old(self).oam_data@.update(old(self).oam_addr as int, value),
            final(self).oam_addr == (old(self).oam_addr + 1) % 256,
            final(self).chr_rom@ == old(self).chr_rom@,
            final(self).vram@ == old(self).vram@,
            final(self).palette_table@ == old(self).palette_table@,
            final(self).mirroring == old(self).mirroring,
            final(self).same_registers(old(self)),
    {
        self.oam_data[self.oam_addr as usize] = value;
        self.oam_addr = self.oam_addr.wrapping_add(1);
    }

    pub fn read_oam_data(&self) -> (r: u8)
        ensures
            r == self.oam_data@[self.oam_addr as int],
    {
        self.oam_data[self.oam_addr as usize]
    }

    /// Copies 256 bytes into OAM starting at the OAM address and wrapping
    /// round; the OAM address comes back to where it was.
    pub fn write_oam_dma(&mut self, data: &[u8; 256])
        ensures
            forall|i: int|
                0 <= i < 256 ==> #[trigger] final(self).oam_data@[(old(self).oam_addr + i) % 256] == data@[i],
            final(self).oam_addr == old(self).oam_addr,
            final(self).chr_rom@ == old(self).chr_rom@,
            final(self).vram@ == old(self).vram@,
            final(self).palette_table@ == old(self).palette_table@,
            final(self).mirroring == old(self).mirroring,
            final(self).same_registers(old(self)),
    {
        let mut k: usize = 0;
        while k < 256
            invariant
                0 <= k <= 256,
                self.oam_addr == (old(self).oam_addr + k) % 256,
                self.oam_data@.len() == 256,
                forall|i: int| 0 <= i < k ==> #[trigger] self.oam_data@[(old(self).oam_addr + i) % 256] == data@[i],
                self.chr_rom@ == old(self).chr_rom@,
                self.vram@ == old(self).vram@,
                self.palette_table@ == old(self).palette_table@,
                self.mirroring == old(self).mirroring,
                self.same_registers(old(self)),
            decreases 256 - k,
        {
            let x = data[k];
            self.oam_data[self.oam_addr as usize] = x;
            self.oam_addr = self.oam_addr.wrapping_add(1);
            k = k + 1;
        }
    }

    /// Sprite 0 is hit when its top row is the current scanline, its left
    /// edge has been reached and sprites are shown.
    fn is_sprite_0_hit(&self, cycle: usize) -> (r: bool)
        ensures
            r == (self.oam_data@[0] as int == self.scanline() as int && self.oam_data@[3] as int <= cycle
                && self.mask@ & SHOW_SPRITES != 0),
    {
        let y = self.oam_data[0] as usize;
        let x = self.oam_data[3] as usize;
        (y == self.scanline as usize) && x <= cycle && self.mask.show_sprites()
    }

    /// Advances by `cycles` PPU cycles (at most one scanline). At scanline 241
    /// vblank starts (with an NMI when enabled); after scanline 261 the frame
    /// ends, vblank is cleared and true is returned.
    pub fn tick(&mut self, cycles: u8, mirroring: Mirroring) -> (new_frame: bool)
        requires
            old(self).wf(),
        ensures
            tick_relation(*old(self), *final(self), cycles as int, mirroring, new_frame),
    {
        self.mirroring = mirroring;
        self.cycles = self.cycles + cycles as usize;
        if self.cycles >= 341 {
            if self.is_sprite_0_hit(self.cycles) {
                self.status.set_sprite_zero_hit(true);
            }
            self.cycles = self.cycles - 341;
            self.scanline = self.scanline + 1;
            if self.scanline >= 241 && self.scanline != 262 {
                self.status.set_vblank_status(true);
                self.status.set_sprite_zero_hit(false);
                if self.control.generate_vblank_nmi() {
                    self.nmi_interrupt = Some(1);
                }
            } else if self.scanline == 262 {
                self.scanline = 0;
                self.nmi_interrupt = None;
                self.status.set_sprite_zero_hit(false);
                self.status.reset_vblank_status();
                return true;
            }
        }
        false
    }
}

} // verus!
