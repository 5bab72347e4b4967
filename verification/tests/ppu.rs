use pnes::cartridge::Mirroring;
use pnes::ppu::PPU;

fn ppu_with(mirroring: Mirroring) -> PPU {
    let chr: Vec<u8> = (0..8192).map(|i| (i % 256) as u8).collect();
    PPU::new(chr, mirroring)
}

fn set_address(ppu: &mut PPU, addr: u16) {
    ppu.write_to_ppu_address((addr >> 8) as u8);
    ppu.write_to_ppu_address((addr & 0xFF) as u8);
}

#[test]
fn new_ppu_is_blank() {
    let ppu = ppu_with(Mirroring::Vertical);
    assert!(ppu.vram.iter().all(|b| *b == 0));
    assert!(ppu.oam_data.iter().all(|b| *b == 0));
    assert_eq!(ppu.address.get(), 0);
    assert_eq!(ppu.scanline, 0);
    assert_eq!(ppu.cycles, 0);
    assert_eq!(ppu.nmi_interrupt, None);
}

#[test]
fn address_register_high_then_low() {
    let mut ppu = ppu_with(Mirroring::Vertical);
    set_address(&mut ppu, 0x2305);
    assert_eq!(ppu.address.get(), 0x2305);
    // the high byte is mirrored down below $4000
    set_address(&mut ppu, 0x7F05);
    assert_eq!(ppu.address.get(), 0x3F05);
}

#[test]
fn nametable_write_then_buffered_read() {
    let mut ppu = ppu_with(Mirroring::Horizontal);
    set_address(&mut ppu, 0x2305);
    ppu.write_to_data(0x66);
    assert_eq!(ppu.vram[0x0305], 0x66);
    set_address(&mut ppu, 0x2305);
    let first = ppu.read_data();
    assert_eq!(first, 0);
    let second = ppu.read_data();
    assert_eq!(second, 0x66);
    assert_eq!(ppu.address.get(), 0x2307);
}

#[test]
fn pattern_read_is_buffered() {
    let mut ppu = ppu_with(Mirroring::Horizontal);
    set_address(&mut ppu, 0x0010);
    assert_eq!(ppu.read_data(), 0);
    assert_eq!(ppu.read_data(), 0x10);
    assert_eq!(ppu.read_data(), 0x11);
}

#[test]
fn pattern_rom_ignores_writes() {
    let mut ppu = ppu_with(Mirroring::Horizontal);
    set_address(&mut ppu, 0x0010);
    ppu.write_to_data(0xFF);
    assert_eq!(ppu.chr_rom[0x10], 0x10);
    assert_eq!(ppu.address.get(), 0x0011);
}

#[test]
fn palette_read_is_immediate() {
    let mut ppu = ppu_with(Mirroring::Horizontal);
    set_address(&mut ppu, 0x3F01);
    ppu.write_to_data(0x21);
    set_address(&mut ppu, 0x3F01);
    assert_eq!(ppu.read_data(), 0x21);
}

#[test]
fn palette_backdrop_mirrors() {
    let mut ppu = ppu_with(Mirroring::Horizontal);
    set_address(&mut ppu, 0x3F10);
    ppu.write_to_data(0x0F);
    assert_eq!(ppu.palette_table[0], 0x0F);
    set_address(&mut ppu, 0x3F00);
    assert_eq!(ppu.read_data(), 0x0F);
    set_address(&mut ppu, 0x3F14);
    ppu.write_to_data(0x2A);
    assert_eq!(ppu.palette_table[4], 0x2A);
}

#[test]
fn increment_by_32() {
    let mut ppu = ppu_with(Mirroring::Horizontal);
    ppu.write_to_control(0b0000_0100);
    set_address(&mut ppu, 0x2000);
    ppu.write_to_data(1);
    ppu.write_to_data(2);
    assert_eq!(ppu.vram[0], 1);
    assert_eq!(ppu.vram[32], 2);
    assert_eq!(ppu.address.get(), 0x2040);
}

#[test]
fn nametable_mirroring() {
    let h = ppu_with(Mirroring::Horizontal);
    assert_eq!(h.mirror_vram_address(0x2000), 0x000);
    assert_eq!(h.mirror_vram_address(0x2400), 0x000);
    assert_eq!(h.mirror_vram_address(0x2800), 0x400);
    assert_eq!(h.mirror_vram_address(0x2C05), 0x405);
    let v = ppu_with(Mirroring::Vertical);
    assert_eq!(v.mirror_vram_address(0x2400), 0x400);
    assert_eq!(v.mirror_vram_address(0x2800), 0x000);
    assert_eq!(v.mirror_vram_address(0x2C05), 0x405);
    // $3000-$3EFF mirror $2000-$2EFF
    assert_eq!(v.mirror_vram_address(0x3405), 0x405);
}

#[test]
fn write_through_mirror_reads_back() {
    let mut ppu = ppu_with(Mirroring::Vertical);
    set_address(&mut ppu, 0x2812);
    ppu.write_to_data(0x77);
    set_address(&mut ppu, 0x2012);
    ppu.read_data();
    assert_eq!(ppu.read_data(), 0x77);
}

#[test]
fn status_read_clears_vblank_and_latch() {
    let mut ppu = ppu_with(Mirroring::Horizontal);
    ppu.status.set_vblank_status(true);
    ppu.write_to_ppu_address(0x21);
    let status = ppu.read_status();
    assert_eq!(status & 0x80, 0x80);
    assert_eq!(ppu.status.bits() & 0x80, 0);
    set_address(&mut ppu, 0x2345);
    assert_eq!(ppu.address.get(), 0x2345);
}

#[test]
fn oam_write_then_read() {
    let mut ppu = ppu_with(Mirroring::Horizontal);
    ppu.write_to_oam_address(0x10);
    ppu.write_to_oam_data(0x55);
    ppu.write_to_oam_data(0x66);
    assert_eq!(ppu.oam_addr, 0x12);
    ppu.write_to_oam_address(0x10);
    assert_eq!(ppu.read_oam_data(), 0x55);
    ppu.write_to_oam_address(0x11);
    assert_eq!(ppu.read_oam_data(), 0x66);
}

#[test]
fn oam_dma_wraps_from_oam_address() {
    let mut ppu = ppu_with(Mirroring::Horizontal);
    ppu.write_to_oam_address(4);
    let mut data = [0u8; 256];
    for i in 0..256 {
        data[i] = i as u8;
    }
    ppu.write_oam_dma(&data);
    assert_eq!(ppu.oam_addr, 4);
    assert_eq!(ppu.oam_data[4], 0);
    assert_eq!(ppu.oam_data[255], 251);
    assert_eq!(ppu.oam_data[0], 252);
    assert_eq!(ppu.oam_data[3], 255);
}

#[test]
fn scroll_writes_alternate() {
    let mut ppu = ppu_with(Mirroring::Horizontal);
    ppu.write_to_scroll(12);
    ppu.write_to_scroll(34);
    assert_eq!(ppu.scroll.scroll_x, 12);
    assert_eq!(ppu.scroll.scroll_y, 34);
}

#[test]
fn vblank_and_nmi_then_new_frame() {
    let mut ppu = ppu_with(Mirroring::Horizontal);
    ppu.write_to_control(0b1000_0000);
    let mut frames = 0;
    while ppu.scanline < 241 {
        if ppu.tick(100, Mirroring::Horizontal) {
            frames += 1;
        }
    }
    assert_eq!(frames, 0);
    assert_eq!(ppu.status.bits() & 0x80, 0x80);
    assert_eq!(ppu.nmi_interrupt, Some(1));
    let mut new_frame = false;
    while !new_frame {
        new_frame = ppu.tick(100, Mirroring::Horizontal);
    }
    assert_eq!(ppu.scanline, 0);
    assert_eq!(ppu.nmi_interrupt, None);
    assert_eq!(ppu.status.bits() & 0x80, 0);
}

#[test]
fn enabling_nmi_during_vblank_raises_it() {
    let mut ppu = ppu_with(Mirroring::Horizontal);
    ppu.status.set_vblank_status(true);
    assert_eq!(ppu.nmi_interrupt, None);
    ppu.write_to_control(0b1000_0000);
    assert_eq!(ppu.nmi_interrupt, Some(1));
}

#[test]
fn sprite_zero_hit() {
    let mut ppu = ppu_with(Mirroring::Horizontal);
    ppu.oam_data[0] = 5;
    ppu.oam_data[3] = 0;
    ppu.write_to_mask(0b0001_0000);
    while ppu.scanline < 6 {
        ppu.tick(100, Mirroring::Horizontal);
    }
    assert_eq!(ppu.status.bits() & 0b0100_0000, 0b0100_0000);
}

#[test]
fn control_register_fields() {
    let mut ppu = ppu_with(Mirroring::Horizontal);
    ppu.write_to_control(0b0011_1010);
    assert_eq!(ppu.control.nametable_address(), 0x2800);
    assert_eq!(ppu.control.vram_address_increment(), 1);
    assert_eq!(ppu.control.sprite_pattern_address(), 0x1000);
    assert_eq!(ppu.control.background_pattern_address(), 0x1000);
    assert_eq!(ppu.control.sprite_size(), 16);
    assert!(!ppu.control.generate_vblank_nmi());
}

#[test]
fn mask_register_fields() {
    let mut ppu = ppu_with(Mirroring::Horizontal);
    ppu.write_to_mask(0b1010_1011);
    assert!(ppu.mask.is_greyscale());
    assert!(ppu.mask.leftmost_8pixel_background());
    assert!(!ppu.mask.leftmost_8pixel_sprite());
    assert!(ppu.mask.show_background());
    assert!(!ppu.mask.show_sprites());
    assert_eq!(ppu.mask.emphasis(), (true, false, true));
}
