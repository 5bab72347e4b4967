use pnes::cartridge::Mirroring;
use pnes::ppu::PPU;
use pnes::render::frame::Frame;
use pnes::render::palette::get_colour;
use pnes::render::rect::Rect;
use pnes::render::checks::{can_render, render_checked};
use pnes::render::render;

/// A palette file of 512 entries: red is the low byte of the entry number,
/// green its high byte, blue 0x55.
fn palette_file() -> Vec<u8> {
    let mut p = Vec::new();
    for e in 0..512usize {
        p.push((e & 0xFF) as u8);
        p.push((e >> 8) as u8);
        p.push(0x55);
    }
    p
}

/// Pattern ROM whose tile 1 has only its top-left pixel set (colour 1).
fn chr() -> Vec<u8> {
    let mut c = vec![0u8; 8192];
    c[16] = 0b1000_0000;
    c
}

#[test]
fn frame_set_then_get() {
    let mut f = Frame::new();
    assert_eq!(f.data.len(), 256 * 240 * 3);
    assert_eq!(f.get_pixel(10, 20), (0, 0, 0));
    f.set_pixel(10, 20, (1, 2, 3));
    assert_eq!(f.get_pixel(10, 20), (1, 2, 3));
    assert_eq!(f.get_pixel(11, 20), (0, 0, 0));
    assert_eq!(f.data[(20 * 256 + 10) * 3 + 1], 2);
    // outside the buffer: ignored, and read as black
    f.set_pixel(0, 240, (9, 9, 9));
    assert_eq!(f.get_pixel(0, 240), (0, 0, 0));
}

#[test]
fn rect_new() {
    let r = Rect::new(1, 2, 3, 4);
    assert_eq!((r.x1, r.y1, r.x2, r.y2), (1, 2, 3, 4));
}

#[test]
fn colour_lookup_with_emphasis_and_greyscale() {
    let p = palette_file();
    assert_eq!(get_colour(&p, 0x05, (false, false, false), false), (0x05, 0x00, 0x55));
    assert_eq!(get_colour(&p, 0x05, (true, false, true), false), (0x45, 0x01, 0x55));
    assert_eq!(get_colour(&p, 0x05, (false, true, false), false), (0x85, 0x00, 0x55));
    // (5 * 30 + 0 * 59 + 85 * 11) / 100 = 10
    assert_eq!(get_colour(&p, 0x05, (false, false, false), true), (10, 10, 10));
}

fn background_ppu(mask: u8) -> PPU {
    let mut ppu = PPU::new(chr(), Mirroring::Horizontal);
    ppu.vram[0] = 1;
    ppu.palette_table[0] = 0x0F;
    ppu.palette_table[1] = 0x16;
    ppu.write_to_mask(mask);
    ppu
}

#[test]
fn background_tile_is_drawn() {
    let ppu = background_ppu(0b0000_1010);
    let mut frame = Frame::new();
    render(&ppu, &mut frame, &palette_file());
    assert_eq!(frame.get_pixel(0, 0), (0x16, 0x00, 0x55));
    assert_eq!(frame.get_pixel(1, 0), (0x0F, 0x00, 0x55));
    assert_eq!(frame.get_pixel(8, 0), (0x0F, 0x00, 0x55));
    assert_eq!(frame.get_pixel(255, 239), (0x0F, 0x00, 0x55));
}

#[test]
fn left_column_clipping() {
    let ppu = background_ppu(0b0000_1000);
    let mut frame = Frame::new();
    render(&ppu, &mut frame, &palette_file());
    assert_eq!(frame.get_pixel(0, 0), (0, 0, 0));
    assert_eq!(frame.get_pixel(7, 5), (0, 0, 0));
    assert_eq!(frame.get_pixel(8, 5), (0x0F, 0x00, 0x55));
}

#[test]
fn horizontal_scroll_brings_in_second_nametable() {
    let mut ppu = background_ppu(0b0000_1010);
    // the tile with the set pixel sits at the top left of the second nametable
    ppu.vram[0] = 0;
    ppu.vram[0x400] = 1;
    ppu.write_to_scroll(8);
    ppu.write_to_scroll(0);
    let mut frame = Frame::new();
    render(&ppu, &mut frame, &palette_file());
    assert_eq!(frame.get_pixel(248, 0), (0x16, 0x00, 0x55));
    assert_eq!(frame.get_pixel(0, 0), (0x0F, 0x00, 0x55));
}

#[test]
fn nothing_shown_leaves_frame() {
    let ppu = background_ppu(0);
    let mut frame = Frame::new();
    frame.set_pixel(3, 3, (7, 7, 7));
    render(&ppu, &mut frame, &palette_file());
    assert_eq!(frame.get_pixel(3, 3), (7, 7, 7));
    assert_eq!(frame.get_pixel(0, 0), (0, 0, 0));
}

fn sprite_ppu(mask: u8, attributes: u8) -> PPU {
    let mut ppu = PPU::new(chr(), Mirroring::Horizontal);
    ppu.palette_table[0] = 0x0F;
    ppu.palette_table[0x11] = 0x21;
    ppu.oam_data[0] = 9;
    ppu.oam_data[1] = 1;
    ppu.oam_data[2] = attributes;
    ppu.oam_data[3] = 20;
    ppu.write_to_mask(mask);
    ppu
}

#[test]
fn sprite_pixel_is_drawn_one_row_below_its_y() {
    let ppu = sprite_ppu(0b0001_0100, 0);
    let mut frame = Frame::new();
    render(&ppu, &mut frame, &palette_file());
    assert_eq!(frame.get_pixel(20, 10), (0x21, 0x00, 0x55));
    assert_eq!(frame.get_pixel(21, 10), (0, 0, 0));
    assert_eq!(frame.get_pixel(20, 9), (0, 0, 0));
}

#[test]
fn sprite_flips() {
    let ppu = sprite_ppu(0b0001_0100, 0b0100_0000);
    let mut frame = Frame::new();
    render(&ppu, &mut frame, &palette_file());
    assert_eq!(frame.get_pixel(27, 10), (0x21, 0x00, 0x55));
    assert_eq!(frame.get_pixel(20, 10), (0, 0, 0));
    let ppu = sprite_ppu(0b0001_0100, 0b1000_0000);
    let mut frame = Frame::new();
    render(&ppu, &mut frame, &palette_file());
    assert_eq!(frame.get_pixel(20, 17), (0x21, 0x00, 0x55));
}

#[test]
fn sprite_behind_background_shows_only_on_backdrop() {
    // background and sprites shown, sprite behind the background
    let mut ppu = sprite_ppu(0b0001_1110, 0b0010_0000);
    ppu.palette_table[1] = 0x16;
    let mut frame = Frame::new();
    render(&ppu, &mut frame, &palette_file());
    // the background there is the backdrop colour, so the sprite shows
    assert_eq!(frame.get_pixel(20, 10), (0x21, 0x00, 0x55));
    // now put an opaque background pixel under it
    let mut ppu = sprite_ppu(0b0001_1110, 0b0010_0000);
    ppu.palette_table[1] = 0x16;
    // tile at column 2, row 1 covers pixel (16..24, 8..16); its pixel (20, 10)
    // is row 2, column 4 of tile 2
    ppu.vram[32 + 2] = 2;
    let mut c = chr();
    c[32 + 2] = 0b0000_1000;
    ppu.chr_rom = c;
    let mut frame = Frame::new();
    render(&ppu, &mut frame, &palette_file());
    assert_eq!(frame.get_pixel(20, 10), (0x16, 0x00, 0x55));
}

#[test]
fn leftmost_sprite_clipping() {
    let mut ppu = sprite_ppu(0b0001_0000, 0);
    ppu.oam_data[3] = 4;
    let mut frame = Frame::new();
    render(&ppu, &mut frame, &palette_file());
    assert_eq!(frame.get_pixel(4, 10), (0, 0, 0));
}

#[test]
fn checked_render_refuses_what_render_cannot_draw() {
    let p = palette_file();
    let mut ppu = PPU::new(chr(), Mirroring::FourScreen);
    ppu.write_to_mask(0b0000_1010);
    let mut frame = Frame::new();
    frame.set_pixel(0, 0, (1, 1, 1));
    assert!(!can_render(&ppu, &frame, &p));
    assert!(!render_checked(&ppu, &mut frame, &p));
    assert_eq!(frame.get_pixel(0, 0), (1, 1, 1));
    // a palette file too short for the emphasis in use
    let mut ppu = background_ppu(0b1110_1010);
    assert!(!can_render(&ppu, &frame, &p[..300]));
    ppu.write_to_mask(0b0000_1010);
    assert!(can_render(&ppu, &frame, &p));
    assert!(render_checked(&ppu, &mut frame, &p));
    assert_eq!(frame.get_pixel(0, 0), (0x16, 0x00, 0x55));
    // a tile beyond pattern ROM
    let mut ppu = background_ppu(0b0000_1010);
    ppu.chr_rom = vec![0u8; 16];
    assert!(!can_render(&ppu, &frame, &p));
}

#[test]
fn first_sprite_wins_where_sprites_overlap() {
    let mut ppu = sprite_ppu(0b0001_0100, 0);
    // sprite 1 at the same place, palette 1
    ppu.oam_data[4] = 9;
    ppu.oam_data[5] = 1;
    ppu.oam_data[6] = 0b0000_0001;
    ppu.oam_data[7] = 20;
    ppu.palette_table[0x15] = 0x30;
    let mut frame = Frame::new();
    render(&ppu, &mut frame, &palette_file());
    assert_eq!(frame.get_pixel(20, 10), (0x21, 0x00, 0x55));
    // move sprite 0 away: sprite 1 shows
    ppu.oam_data[3] = 100;
    let mut frame = Frame::new();
    render(&ppu, &mut frame, &palette_file());
    assert_eq!(frame.get_pixel(20, 10), (0x30, 0x00, 0x55));
    assert_eq!(frame.get_pixel(100, 10), (0x21, 0x00, 0x55));
}

#[test]
fn palette_file_needs_only_the_colours_in_use() {
    let p = palette_file();
    let frame = Frame::new();
    // the background reads entries 0x0F and 0x16 (and colour 0 elsewhere)
    let ppu = background_ppu(0b0000_1010);
    assert!(can_render(&ppu, &frame, &p[..0x17 * 3]));
    assert!(!can_render(&ppu, &frame, &p[..0x16 * 3]));
    // a sprite palette colour beyond the file stops the sprites only
    let mut ppu = background_ppu(0b0000_1010);
    ppu.palette_table[0x1D] = 0x30;
    assert!(can_render(&ppu, &frame, &p[..0x17 * 3]));
    ppu.write_to_mask(0b0001_1110);
    assert!(!can_render(&ppu, &frame, &p[..0x17 * 3]));
    assert!(can_render(&ppu, &frame, &p[..0x31 * 3]));
}
