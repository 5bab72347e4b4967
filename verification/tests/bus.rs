use pnes::bus::{corrupt_by, Bus, Mem};
use pnes::cartridge::{Mirroring, Rom};

fn rom(prg_len: usize) -> Rom {
    let prg_rom: Vec<u8> = (0..prg_len).map(|i| (i / 256) as u8 ^ (i % 256) as u8).collect();
    let chr_rom: Vec<u8> = (0..8192).map(|i| (i % 199) as u8).collect();
    Rom { prg_rom, chr_rom, mapper: 0, mirroring: Mirroring::Horizontal }
}

#[test]
fn new_bus_state() {
    let bus = Bus::new(rom(16384));
    assert!(bus.cpu_vram.iter().all(|b| *b == 0));
    assert_eq!(bus.cycles, 0);
    assert_eq!(bus.corruption, 0);
    assert_eq!(bus.frame.data.len(), 256 * 240 * 3);
    assert_eq!(bus.ppu.mirroring, Mirroring::Horizontal);
    assert_eq!(bus.ppu.oam_addr, 0);
    assert!(bus.apu.frame_counter.irq_enabled);
    assert_eq!(bus.apu.frame_counter.counter, 0);
    assert!(!bus.apu.pulse_0.length_counter.enabled);
    assert_eq!(bus.apu.noise.shift, 1);
}

#[test]
fn ram_is_mirrored() {
    let mut bus = Bus::new(rom(16384));
    bus.mem_write(0x0001, 0x42);
    assert_eq!(bus.mem_read(0x0001), 0x42);
    assert_eq!(bus.mem_read(0x0801), 0x42);
    assert_eq!(bus.mem_read(0x1001), 0x42);
    assert_eq!(bus.mem_read(0x1801), 0x42);
    bus.mem_write(0x1FFF, 0x07);
    assert_eq!(bus.mem_read(0x07FF), 0x07);
}

#[test]
fn word_access_is_little_endian() {
    let mut bus = Bus::new(rom(16384));
    bus.mem_write_u16(0x0010, 0xBEEF);
    assert_eq!(bus.mem_read(0x0010), 0xEF);
    assert_eq!(bus.mem_read(0x0011), 0xBE);
    assert_eq!(bus.mem_read_u16(0x0010), 0xBEEF);
}

#[test]
fn small_prg_rom_is_mirrored_at_c000() {
    let r = rom(16384);
    let expected = r.prg_rom[0x0123];
    let mut bus = Bus::new(r);
    assert_eq!(bus.mem_read(0x8123), expected);
    assert_eq!(bus.mem_read(0xC123), expected);
}

#[test]
fn large_prg_rom_is_not_mirrored() {
    let r = rom(32768);
    let low = r.prg_rom[0x0001];
    let high = r.prg_rom[0x4001];
    let mut bus = Bus::new(r);
    assert_eq!(bus.mem_read(0x8001), low);
    assert_eq!(bus.mem_read(0xC001), high);
}

#[test]
fn prg_rom_and_unmapped_writes_are_ignored() {
    let r = rom(16384);
    let expected = r.prg_rom[0];
    let mut bus = Bus::new(r);
    bus.mem_write(0x8000, 0xFF);
    assert_eq!(bus.mem_read(0x8000), expected);
    bus.mem_write(0x6000, 0xFF);
    assert_eq!(bus.mem_read(0x6000), 0);
    assert_eq!(bus.mem_read(0x4017), 0);
}

#[test]
fn ppu_data_through_registers() {
    let mut bus = Bus::new(rom(16384));
    bus.mem_write(0x2006, 0x21);
    bus.mem_write(0x2006, 0x08);
    bus.mem_write(0x2007, 0x99);
    assert_eq!(bus.ppu.vram[0x108], 0x99);
    // $3FFE is a mirror of $2006
    bus.mem_write(0x3FFE, 0x21);
    bus.mem_write(0x3FFE, 0x08);
    bus.mem_read(0x2007);
    assert_eq!(bus.mem_read(0x2007), 0x99);
}

#[test]
fn oam_through_registers() {
    let mut bus = Bus::new(rom(16384));
    bus.mem_write(0x2003, 0x20);
    bus.mem_write(0x2004, 0xAB);
    bus.mem_write(0x2003, 0x20);
    assert_eq!(bus.mem_read(0x2004), 0xAB);
}

#[test]
fn status_register_read_clears_vblank() {
    let mut bus = Bus::new(rom(16384));
    bus.ppu.status.set_vblank_status(true);
    assert_eq!(bus.mem_read(0x2002) & 0x80, 0x80);
    assert_eq!(bus.mem_read(0x2002) & 0x80, 0);
}

#[test]
fn oam_dma_copies_a_page() {
    let mut bus = Bus::new(rom(16384));
    for i in 0..256u16 {
        bus.mem_write(0x0200 + i, (255 - i) as u8);
    }
    bus.mem_write(0x4014, 0x02);
    for i in 0..256usize {
        assert_eq!(bus.ppu.oam_data[i], (255 - i) as u8);
    }
    assert_eq!(bus.ppu.oam_addr, 0);
}

#[test]
fn oam_dma_from_the_io_page_reads_status_and_controller() {
    let mut bus = Bus::new(rom(16384));
    bus.joypad1.set_button_status(pnes::joypad::JoypadButton::B, true);
    assert_eq!(bus.mem_read(0x4016), 0); // button A, not pressed
    bus.apu.frame_counter.prv_irq_flag = true;
    bus.apu.frame_counter.pub_irq_flag = true;
    bus.mem_write(0x2003, 0x10);
    bus.mem_write(0x4014, 0x40);
    for i in 0..256usize {
        let expected = match i {
            0x15 => 0b0100_0000, // the frame interrupt flag
            0x16 => 1,           // button B
            _ => 0,
        };
        assert_eq!(bus.ppu.oam_data[(0x10 + i) % 256], expected);
    }
    assert_eq!(bus.ppu.oam_addr, 0x10);
    assert!(!bus.apu.frame_counter.prv_irq_flag);
    assert!(!bus.apu.frame_counter.pub_irq_flag);
    assert_eq!(bus.joypad1.index, 2);
}

#[test]
fn oam_dma_from_an_unmapped_page_copies_zeros() {
    let mut bus = Bus::new(rom(16384));
    bus.mem_write(0x2004, 0x77);
    bus.mem_write(0x4014, 0x41);
    assert!(bus.ppu.oam_data.iter().all(|b| *b == 0));
}

#[test]
fn word_read_at_the_top_wraps_to_zero_page() {
    let mut bus = Bus::new(rom(16384));
    bus.mem_write(0x0000, 0x12);
    let lo = bus.mem_read(0xFFFF) as u16;
    assert_eq!(bus.mem_read_u16(0xFFFF), 0x1200 | lo);
}

#[test]
fn controller_through_port() {
    let mut bus = Bus::new(rom(16384));
    bus.joypad1.set_button_status(pnes::joypad::JoypadButton::B, true);
    bus.mem_write(0x4016, 1);
    bus.mem_write(0x4016, 0);
    assert_eq!(bus.mem_read(0x4016), 0);
    assert_eq!(bus.mem_read(0x4016), 1);
    assert_eq!(bus.mem_read(0x4016), 0);
}

#[test]
fn apu_status_through_port() {
    let mut bus = Bus::new(rom(16384));
    // enable pulse 1, then load its length counter
    bus.mem_write(0x4015, 0b0000_0001);
    bus.mem_write(0x4003, 0b0000_1000);
    assert_eq!(bus.mem_read(0x4015) & 0b0000_0001, 1);
    bus.mem_write(0x4015, 0);
    assert_eq!(bus.mem_read(0x4015) & 0b0000_0001, 0);
}

#[test]
fn corruption_below_one_changes_nothing() {
    let mut bus = Bus::new(rom(16384));
    bus.corruption = 1;
    bus.mem_write(0x2001, 0x1E);
    assert_eq!(bus.ppu.mask.bits(), 0x1E);
}

#[test]
fn corruption_adds_less_than_its_bound() {
    let mut bus = Bus::new(rom(16384));
    bus.corruption = 4;
    for _ in 0..50 {
        bus.mem_write(0x2001, 0x10);
        let m = bus.ppu.mask.bits();
        assert!(m >= 0x10 && m < 0x14);
    }
    // RAM writes are never corrupted
    bus.mem_write(0x0005, 0x33);
    assert_eq!(bus.mem_read(0x0005), 0x33);
}

#[test]
fn corrupt_by_adds_and_wraps() {
    assert_eq!(corrupt_by(0x10, 3), 0x13);
    assert_eq!(corrupt_by(0xFE, 5), 0x03);
    assert_eq!(corrupt_by(0x80, 0), 0x80);
}

#[test]
fn drawn_amount_reaches_the_mask_register() {
    let mut bus = Bus::new(rom(16384));
    bus.write_drawn(0x2001, 0x10, 3, 0);
    assert_eq!(bus.ppu.mask.bits(), 0x13);
    // a mirror of PPUMASK adds the second amount too
    bus.write_drawn(0x2009, 0x10, 3, 2);
    assert_eq!(bus.ppu.mask.bits(), 0x15);
    // PPUCTRL and RAM take the byte as written
    bus.write_drawn(0x2000, 0x10, 3, 2);
    assert_eq!(bus.ppu.control.bits(), 0x10);
    bus.write_drawn(0x0002, 0x10, 3, 2);
    assert_eq!(bus.mem_read(0x0002), 0x10);
}

#[test]
fn drawn_amount_reaches_oam_data() {
    let mut bus = Bus::new(rom(16384));
    bus.write_drawn(0x2003, 0x05, 7, 0);
    bus.write_drawn(0x2004, 0xFF, 2, 0);
    assert_eq!(bus.ppu.oam_data[5], 0x01);
}

#[test]
fn tick_ok_checks_what_tick_needs() {
    let mut bus = Bus::new(rom(16384));
    assert!(bus.tick_ok(40));
    assert!(bus.tick_ok(85));
    assert!(!bus.tick_ok(86));
    // an enabled DMC channel without a period cannot be clocked
    bus.apu.dmc.enabled = true;
    assert!(!bus.tick_ok(1));
    bus.apu.dmc.period = 27;
    assert!(bus.tick_ok(1));
    bus.ppu.scanline = 262;
    assert!(!bus.tick_ok(1));
}

#[test]
fn tick_runs_apu_and_ppu() {
    let mut bus = Bus::new(rom(16384));
    let new_frame = bus.tick(40);
    assert!(!new_frame);
    assert_eq!(bus.cycles, 40);
    assert_eq!(bus.ppu.cycles, 120);
    assert_eq!(bus.get_apu_buffer().len(), 1);
    assert!(bus.pop_apu_buffer().is_some());
    assert!(bus.pop_apu_buffer().is_none());
    bus.set_apu_buffer(Vec::new());
    assert_eq!(bus.get_apu_buffer().len(), 0);
}

#[test]
fn frame_ends_after_262_scanlines() {
    let mut bus = Bus::new(rom(16384));
    let mut ticks = 0u32;
    loop {
        ticks += 1;
        if bus.tick(57) {
            break;
        }
    }
    // 57 CPU cycles are 171 PPU cycles: a scanline takes two ticks, but for
    // the one where the leftover cycles add up to a whole tick
    assert_eq!(ticks, 262 * 2 - 1);
    assert_eq!(bus.ppu.scanline, 0);
    assert_eq!(bus.cycles, 57 * (262 * 2 - 1));
}

#[test]
fn nmi_is_taken_once() {
    let mut bus = Bus::new(rom(16384));
    bus.ppu.nmi_interrupt = Some(1);
    assert_eq!(bus.poll_nmi_status(), Some(1));
    assert_eq!(bus.poll_nmi_status(), None);
}

#[test]
fn chr_rom_reads_and_ignores_writes() {
    let mut bus = Bus::new(rom(16384));
    assert_eq!(bus.read_chr_rom(0x0205), (0x0205 % 199) as u8);
    bus.write_chr_rom(0x0205, 0);
    assert_eq!(bus.read_chr_rom(0x0205), (0x0205 % 199) as u8);
}
