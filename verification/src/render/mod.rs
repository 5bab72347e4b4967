use vstd::prelude::*;

pub mod frame;
pub mod palette;
pub mod rect;
pub mod sprites;
pub mod checks;
pub mod laws;

use crate::cartridge::Mirroring;
use crate::ppu::PPU;
use crate::ppu::registers::control::BACKGROUND_PATTERN_ADDRESS;
use crate::ppu::registers::mask::{
    GREYSCALE,
    LEFTMOST_8PIXEL_BACKGROUND,
    EMPHASIZE_RED,
    EMPHASIZE_GREEN,
    EMPHASIZE_BLUE,
};
use frame::{Frame, pixel_at, painted, in_buffer, lemma_set_then_get, lemma_paint_keeps_tail};
use palette::{get_colour, colour, colour_entry};
use rect::Rect;
use sprites::{render_sprites, sprites_from};

verus! {

/// The 2-bit colour of column `x` (0 = leftmost) of a pattern row given by
/// its two bit planes.
pub open spec fn pattern_value(upper: u8, lower: u8, x: int) -> u8 {
    let b = (7 - x) as u8;
    (((lower >> b) & 1) * 2 + ((upper >> b) & 1)) as u8
}

fn pattern_bits(upper: u8, lower: u8, x: u8) -> (r: u8)
    requires
        x < 8,
    ensures
        r == pattern_value(upper, lower, x as int),
        r < 4,
{
    let b: u8 = 7 - x;
    let hi = (lower >> b) & 1;
    let lo = (upper >> b) & 1;
    assert(hi <= 1 && lo <= 1) by (bit_vector)
        requires
            hi == (lower >> b) & 1,
            lo == (upper >> b) & 1,
    ;
    hi * 2 + lo
}

/// Which of the four background palettes the attribute byte assigns to the
/// 16x16 quadrant holding a tile.
pub open spec fn attribute_palette(attr: u8, tile_column: int, tile_row: int) -> u8 {
    let q = (tile_column % 4) / 2 + 2 * ((tile_row % 4) / 2);
    if q == 0 {
        attr & 0b11
    } else if q == 1 {
        (attr >> 2u8) & 0b11
    } else if q == 2 {
        (attr >> 4u8) & 0b11
    } else {
        (attr >> 6u8) & 0b11
    }
}

/// Each attribute byte covers a 4 x 4 block of tiles with four 2-bit
/// palettes, one per 2 x 2 quadrant: bits 0-1 top left, 2-3 top right, 4-5
/// bottom left, 6-7 bottom right.
pub proof fn law_attribute_quadrants(attr: u8, tile_column: int, tile_row: int)
    requires
        tile_column >= 0,
        tile_row >= 0,
    ensures
        ({
            let q = (tile_column % 4) / 2 + 2 * ((tile_row % 4) / 2);
            attribute_palette(attr, tile_column, tile_row) == (attr >> ((2 * q) as u8)) & 3
        }),
        tile_column % 4 < 2 && tile_row % 4 < 2 ==> attribute_palette(attr, tile_column, tile_row) == attr % 4,
        tile_column % 4 >= 2 && tile_row % 4 < 2 ==> attribute_palette(attr, tile_column, tile_row) == (attr / 4) % 4,
        tile_column % 4 < 2 && tile_row % 4 >= 2 ==> attribute_palette(attr, tile_column, tile_row) == (attr / 16) % 4,
        tile_column % 4 >= 2 && tile_row % 4 >= 2 ==> attribute_palette(attr, tile_column, tile_row) == attr / 64,
{
    crate::bits::lemma_byte_tests(attr);
}

/// The attribute byte of a tile in the nametable at `base` of VRAM.
pub open spec fn attribute_byte(ppu: PPU, base: int, tile_column: int, tile_row: int) -> u8 {
    ppu.vram@[base + 0x3c0 + (tile_row / 4) * 8 + tile_column / 4]
}

/// The four colours of the background palette of a tile: the universal
/// background colour and the three colours of the palette picked by the
/// attribute table.
fn bg_palette(ppu: &PPU, base: usize, tile_column: usize, tile_row: usize) -> (r: [u8; 4])
    requires
        base == 0 || base == 0x400,
        tile_column < 32,
        tile_row < 30,
    ensures
        ({
            let s = 1 + 4 * attribute_palette(attribute_byte(*ppu, base as int, tile_column as int, tile_row as int), tile_column as int, tile_row as int);
            &&& r@[0] == ppu.palette_table@[0]
            &&& r@[1] == ppu.palette_table@[s]
            &&& r@[2] == ppu.palette_table@[s + 1]
            &&& r@[3] == ppu.palette_table@[s + 2]
        }),
        attribute_palette(attribute_byte(*ppu, base as int, tile_column as int, tile_row as int), tile_column as int, tile_row as int) <= 3,
{
    let attr_table_idx = (tile_row / 4) * 8 + (tile_column / 4);
    let attr_byte = ppu.vram[base + 0x3c0 + attr_table_idx];
    let cq = tile_column % 4 / 2;
    let rq = tile_row % 4 / 2;
    let palette_idx: u8 = if cq == 0 && rq == 0 {
        attr_byte & 0b11
    } else if cq == 1 && rq == 0 {
        (attr_byte >> 2u8) & 0b11
    } else if cq == 0 && rq == 1 {
        (attr_byte >> 4u8) & 0b11
    } else {
        (attr_byte >> 6u8) & 0b11
    };
    assert(palette_idx <= 3) by (bit_vector)
        requires
            palette_idx == attr_byte & 0b11 || palette_idx == (attr_byte >> 2u8) & 0b11 || palette_idx == (
            attr_byte >> 4u8) & 0b11 || palette_idx == (attr_byte >> 6u8) & 0b11,
    ;
    let palette_start: usize = 1 + (palette_idx as usize) * 4;
    [
        ppu.palette_table[0],
        ppu.palette_table[palette_start],
        ppu.palette_table[palette_start + 1],
        ppu.palette_table[palette_start + 2],
    ]
}

/// The four colours of sprite palette `palette_idx`; entry 0 is transparent.
fn sprite_palette(ppu: &PPU, palette_idx: u8) -> (r: [u8; 4])
    requires
        palette_idx < 4,
    ensures
        r@[0] == 0,
        r@[1] == ppu.palette_table@[0x11 + 4 * palette_idx],
        r@[2] == ppu.palette_table@[0x12 + 4 * palette_idx],
        r@[3] == ppu.palette_table@[0x13 + 4 * palette_idx],
{
    let start = 0x11 + (palette_idx * 4) as usize;
    [0, ppu.palette_table[start], ppu.palette_table[start + 1], ppu.palette_table[start + 2]]
}

/// The pattern table that background tiles come from.
pub open spec fn bg_bank(ppu: PPU) -> int {
    if ppu.control@ & BACKGROUND_PATTERN_ADDRESS == 0 {
        0
    } else {
        0x1000
    }
}

/// The colour bits that the mask register applies.
pub open spec fn emphasis_of(ppu: PPU) -> (bool, bool, bool) {
    (ppu.mask@ & EMPHASIZE_RED != 0, ppu.mask@ & EMPHASIZE_GREEN != 0, ppu.mask@ & EMPHASIZE_BLUE != 0)
}

pub open spec fn greyscale_of(ppu: PPU) -> bool {
    ppu.mask@ & GREYSCALE != 0
}

/// The colour in palette-table entry `k` can be looked up in the palette
/// file under the current emphasis.
pub open spec fn colour_ok(ppu: PPU, palette: Seq<u8>, k: int) -> bool {
    colour_entry(ppu.palette_table@[k] % 64, emphasis_of(ppu)) * 3 + 2 < palette.len()
}

/// The four colours of a tile's palette can be looked up in the palette
/// file.
pub open spec fn pal_fits(pal: Seq<u8>, emphasis: (bool, bool, bool), palette: Seq<u8>) -> bool {
    &&& colour_entry(pal[0] % 64, emphasis) * 3 + 2 < palette.len()
    &&& colour_entry(pal[1] % 64, emphasis) * 3 + 2 < palette.len()
    &&& colour_entry(pal[2] % 64, emphasis) * 3 + 2 < palette.len()
    &&& colour_entry(pal[3] % 64, emphasis) * 3 + 2 < palette.len()
}

/// The palette-table entries the background reads can be looked up: the
/// universal colour (entry 0) and the three colours of each background
/// palette (entries 1-3, 5-7, 9-11, 13-15).
pub open spec fn bg_palette_ok(ppu: PPU, palette: Seq<u8>) -> bool {
    forall|k: int| 0 <= k < 16 && (k == 0 || k % 4 != 0) ==> #[trigger] colour_ok(ppu, palette, k)
}

/// The palette-table entries the sprites read can be looked up: the
/// universal colour, which a sprite behind the background is compared
/// with, and the three colours of each sprite palette (entries $11-$13,
/// $15-$17, $19-$1B, $1D-$1F).
pub open spec fn sprite_palette_ok(ppu: PPU, palette: Seq<u8>) -> bool {
    &&& colour_ok(ppu, palette, 0)
    &&& forall|k: int| 0x11 <= k < 0x20 && k % 4 != 0 ==> #[trigger] colour_ok(ppu, palette, k)
}

/// Every tile of the nametable at `base` lies within pattern ROM.
pub open spec fn tiles_ok(ppu: PPU, base: int) -> bool {
    forall|i: int| 0 <= i < 0x3c0 ==> bg_bank(ppu) + #[trigger] ppu.vram@[base + i] * 16 + 16 <= ppu.chr_rom@.len()
}

/// The 2-bit colour of background pixel (px, py) of the nametable at `base`.
pub open spec fn bg_value(ppu: PPU, base: int, px: int, py: int) -> u8 {
    let tile = ppu.vram@[base + (py / 8) * 32 + px / 8];
    let addr = bg_bank(ppu) + tile * 16 + py % 8;
    pattern_value(ppu.chr_rom@[addr], ppu.chr_rom@[addr + 8], px % 8)
}

/// The palette byte of background pixel (px, py).
pub open spec fn bg_colour_byte(ppu: PPU, base: int, px: int, py: int) -> u8 {
    let v = bg_value(ppu, base, px, py);
    if v == 0 {
        ppu.palette_table@[0]
    } else {
        let s = 1 + 4 * attribute_palette(attribute_byte(ppu, base, px / 8, py / 8), px / 8, py / 8);
        ppu.palette_table@[s + v - 1]
    }
}

/// The RGB colour of background pixel (px, py).
pub open spec fn bg_rgb(ppu: PPU, base: int, palette: Seq<u8>, px: int, py: int) -> (u8, u8, u8) {
    colour(palette, bg_colour_byte(ppu, base, px, py) % 64, emphasis_of(ppu), greyscale_of(ppu))
}

/// Whether background pixel (px, py) is drawn: it lies in the viewport and
/// is not hidden by the left-column clipping.
pub open spec fn bg_drawn(ppu: PPU, viewport: Rect, shift_x: int, px: int, py: int) -> bool {
    viewport.contains(px, py) && !(0 <= shift_x + px < 8 && ppu.mask@ & LEFTMOST_8PIXEL_BACKGROUND == 0)
}

/// Every drawn pixel lands on the screen.
pub open spec fn lands_on_screen(ppu: PPU, viewport: Rect, shift_x: int, shift_y: int) -> bool {
    forall|px: int, py: int|
        0 <= px < 256 && 0 <= py < 240 && #[trigger] bg_drawn(ppu, viewport, shift_x, px, py) ==> 0 <= shift_x + px
            < 256 && 0 <= shift_y + py < 240
}

/// The screen after the nametable at `base` is drawn shifted by (shift_x,
/// shift_y): the drawn pixels of the nametable, elsewhere what was there.
pub open spec fn with_nametable(
    old: Seq<u8>,
    ppu: PPU,
    base: int,
    palette: Seq<u8>,
    viewport: Rect,
    shift_x: int,
    shift_y: int,
    sx: int,
    sy: int,
) -> (u8, u8, u8) {
    let px = sx - shift_x;
    let py = sy - shift_y;
    if 0 <= px < 256 && 0 <= py < 240 && bg_drawn(ppu, viewport, shift_x, px, py) {
        bg_rgb(ppu, base, palette, px, py)
    } else {
        pixel_at(old, sx, sy)
    }
}

/// Pixel (px, py) comes before the pixel being drawn: its tile is earlier,
/// or it is in an earlier row of the tile, or further right in the row.
pub open spec fn bg_done(i: int, y: int, k: int, px: int, py: int) -> bool {
    let t = (py / 8) * 32 + px / 8;
    t < i || (t == i && (py % 8 < y || (py % 8 == y && px % 8 >= 8 - k)))
}

/// The screen while the nametable is being drawn: pixels already reached
/// are drawn, the rest are as they were.
pub open spec fn drawn_so_far(
    old: Seq<u8>,
    ppu: PPU,
    base: int,
    palette: Seq<u8>,
    viewport: Rect,
    shift_x: int,
    shift_y: int,
    i: int,
    y: int,
    k: int,
    sx: int,
    sy: int,
) -> (u8, u8, u8) {
    let px = sx - shift_x;
    let py = sy - shift_y;
    if 0 <= px < 256 && 0 <= py < 240 && bg_drawn(ppu, viewport, shift_x, px, py) && bg_done(i, y, k, px, py) {
        bg_rgb(ppu, base, palette, px, py)
    } else {
        pixel_at(old, sx, sy)
    }
}

/// Drawing one pixel of the nametable (or skipping it when it is not
/// drawn) moves the screen from one stage to the next.
proof fn lemma_pixel_step(
    old_data: Seq<u8>,
    before: Seq<u8>,
    after: Seq<u8>,
    ppu: PPU,
    base: int,
    palette: Seq<u8>,
    viewport: Rect,
    shift_x: int,
    shift_y: int,
    i: int,
    y: int,
    k: int,
)
    requires
        0 <= i < 0x3c0,
        0 <= y < 8,
        0 <= k < 8,
        lands_on_screen(ppu, viewport, shift_x, shift_y),
        forall|sx: int, sy: int|
            0 <= sx < 256 && 0 <= sy < 240 && in_buffer(before.len() as int, sx, sy) ==> #[trigger] pixel_at(before, sx, sy) == drawn_so_far(
                old_data,
                ppu,
                base,
                palette,
                viewport,
                shift_x,
                shift_y,
                i,
                y,
                k,
                sx,
                sy,
            ),
        ({
            let px0 = (i % 32) * 8 + 7 - k;
            let py0 = (i / 32) * 8 + y;
            if bg_drawn(ppu, viewport, shift_x, px0, py0) {
                after == painted(before, shift_x + px0, shift_y + py0, bg_rgb(ppu, base, palette, px0, py0))
            } else {
                after == before
            }
        }),
    ensures
        after.len() == before.len(),
        forall|j: int| 256 * 240 * 3 <= j < after.len() ==> #[trigger] after[j] == before[j],
        forall|sx: int, sy: int|
            0 <= sx < 256 && 0 <= sy < 240 && in_buffer(before.len() as int, sx, sy) ==> #[trigger] pixel_at(after, sx, sy) == drawn_so_far(
                old_data,
                ppu,
                base,
                palette,
                viewport,
                shift_x,
                shift_y,
                i,
                y,
                k + 1,
                sx,
                sy,
            ),
{
    let px0 = (i % 32) * 8 + 7 - k;
    let py0 = (i / 32) * 8 + y;
    assert(px0 / 8 == i % 32 && px0 % 8 == 7 - k);
    assert(py0 / 8 == i / 32 && py0 % 8 == y);
    if bg_drawn(ppu, viewport, shift_x, px0, py0) {
        lemma_paint_keeps_tail(before, shift_x + px0, shift_y + py0, bg_rgb(ppu, base, palette, px0, py0));
        lemma_set_then_get(before, shift_x + px0, shift_y + py0, bg_rgb(ppu, base, palette, px0, py0), 0, 0);
    }
    assert forall|sx: int, sy: int| 0 <= sx < 256 && 0 <= sy < 240 && in_buffer(before.len() as int, sx, sy) implies #[trigger] pixel_at(after, sx, sy)
        == drawn_so_far(old_data, ppu, base, palette, viewport, shift_x, shift_y, i, y, k + 1, sx, sy) by {
        let px = sx - shift_x;
        let py = sy - shift_y;
        assert(pixel_at(before, sx, sy) == drawn_so_far(
            old_data,
            ppu,
            base,
            palette,
            viewport,
            shift_x,
            shift_y,
            i,
            y,
            k,
            sx,
            sy,
        ));
        if px == px0 && py == py0 {
            if bg_drawn(ppu, viewport, shift_x, px0, py0) {
                lemma_set_then_get(before, shift_x + px0, shift_y + py0, bg_rgb(ppu, base, palette, px0, py0), sx, sy);
            }
        } else {
            if 0 <= px < 256 && 0 <= py < 240 {
                assert(bg_done(i, y, k + 1, px, py) == bg_done(i, y, k, px, py));
            }
            if bg_drawn(ppu, viewport, shift_x, px0, py0) {
                lemma_set_then_get(before, shift_x + px0, shift_y + py0, bg_rgb(ppu, base, palette, px0, py0), sx, sy);
            }
        }
    }
}

/// Draws the 32 x 30 tiles of the nametable at `base` of VRAM, pixel
/// (px, py) going to (shift_x + px, shift_y + py) when it lies in
/// `viewport` and is not clipped at the left edge.
fn render_nametable(
    ppu: &PPU,
    frame: &mut Frame,
    base: usize,
    viewport: Rect,
    shift_x: isize,
    shift_y: isize,
    palette: &[u8],
)
    requires
        base == 0 || base == 0x400,
        tiles_ok(*ppu, base as int),
        bg_palette_ok(*ppu, palette@),
        -256 <= shift_x <= 256,
        -256 <= shift_y <= 256,
        lands_on_screen(*ppu, viewport, shift_x as int, shift_y as int),
    ensures
        final(frame).data.len() == old(frame).data.len(),
        forall|j: int|
            256 * 240 * 3 <= j < final(frame).data.len() ==> #[trigger] final(frame).data@[j] == old(frame).data@[j],
        forall|sx: int, sy: int|
            0 <= sx < 256 && 0 <= sy < 240 && in_buffer(old(frame).data.len() as int, sx, sy) ==> #[trigger] pixel_at(final(frame).data@, sx, sy) == with_nametable(
                old(frame).data@,
                *ppu,
                base as int,
                palette@,
                viewport,
                shift_x as int,
                shift_y as int,
                sx,
                sy,
            ),
{
    let ghost old_data = frame.data@;
    let bank = ppu.control.background_pattern_address();
    let leftmost = ppu.mask.leftmost_8pixel_background();
    let emphasis = ppu.mask.emphasis();
    let greyscale = ppu.mask.is_greyscale();
    let mut i: usize = 0;
    while i < 0x3c0
        invariant
            0 <= i <= 0x3c0,
            frame.data.len() == old_data.len(),
            forall|j: int| 256 * 240 * 3 <= j < frame.data.len() ==> #[trigger] frame.data@[j] == old_data[j],
            base == 0 || base == 0x400,
            tiles_ok(*ppu, base as int),
            bg_palette_ok(*ppu, palette@),
            -256 <= shift_x <= 256,
            -256 <= shift_y <= 256,
            lands_on_screen(*ppu, viewport, shift_x as int, shift_y as int),
            bank == bg_bank(*ppu),
            leftmost == (ppu.mask@ & LEFTMOST_8PIXEL_BACKGROUND != 0),
            emphasis == emphasis_of(*ppu),
            greyscale == greyscale_of(*ppu),
            forall|sx: int, sy: int|
                0 <= sx < 256 && 0 <= sy < 240 && in_buffer(old_data.len() as int, sx, sy) ==> #[trigger] pixel_at(frame.data@, sx, sy) == drawn_so_far(
                    old_data,
                    *ppu,
                    base as int,
                    palette@,
                    viewport,
                    shift_x as int,
                    shift_y as int,
                    i as int,
                    0,
                    0,
                    sx,
                    sy,
                ),
        decreases 0x3c0 - i,
    {
        let tile_column = i % 32;
        let tile_row = i / 32;
        let tile_idx = ppu.vram[base + i] as usize;
        assert(bank + tile_idx * 16 + 16 <= ppu.chr_rom@.len());
        let tile_addr = bank as usize + tile_idx * 16;
        let pal = bg_palette(ppu, base, tile_column, tile_row);
        proof {
            let s = 1 + 4 * attribute_palette(attribute_byte(*ppu, base as int, tile_column as int, tile_row as int), tile_column as int, tile_row as int);
            assert(colour_ok(*ppu, palette@, 0));
            assert(colour_ok(*ppu, palette@, s));
            assert(colour_ok(*ppu, palette@, s + 1));
            assert(colour_ok(*ppu, palette@, s + 2));
        }
        let mut y: usize = 0;
        while y < 8
            invariant
                0 <= i < 0x3c0,
                0 <= y <= 8,
                tile_column == i % 32,
                tile_row == i / 32,
                tile_idx == ppu.vram@[base + i],
                tile_addr == bank + tile_idx * 16,
                tile_addr + 16 <= ppu.chr_rom@.len(),
                frame.data.len() == old_data.len(),
                forall|j: int| 256 * 240 * 3 <= j < frame.data.len() ==> #[trigger] frame.data@[j] == old_data[j],
                base == 0 || base == 0x400,
                bg_palette_ok(*ppu, palette@),
                -256 <= shift_x <= 256,
                -256 <= shift_y <= 256,
                lands_on_screen(*ppu, viewport, shift_x as int, shift_y as int),
                bank == bg_bank(*ppu),
                leftmost == (ppu.mask@ & LEFTMOST_8PIXEL_BACKGROUND != 0),
                emphasis == emphasis_of(*ppu),
                greyscale == greyscale_of(*ppu),
                pal_fits(pal@, emphasis, palette@),
                ({
                    let s = 1 + 4 * attribute_palette(attribute_byte(*ppu, base as int, tile_column as int, tile_row as int), tile_column as int, tile_row as int);
                    &&& pal@[0] == ppu.palette_table@[0]
                    &&& pal@[1] == ppu.palette_table@[s]
                    &&& pal@[2] == ppu.palette_table@[s + 1]
                    &&& pal@[3] == ppu.palette_table@[s + 2]
                }),
                forall|sx: int, sy: int|
                    0 <= sx < 256 && 0 <= sy < 240 && in_buffer(old_data.len() as int, sx, sy) ==> #[trigger] pixel_at(frame.data@, sx, sy) == drawn_so_far(
                        old_data,
                        *ppu,
                        base as int,
                        palette@,
                        viewport,
                        shift_x as int,
                        shift_y as int,
                        i as int,
                        y as int,
                        0,
                        sx,
                        sy,
                    ),
            decreases 8 - y,
        {
            let upper = ppu.chr_rom[tile_addr + y];
            let lower = ppu.chr_rom[tile_addr + y + 8];
            let mut k: u8 = 0;
            while k < 8
                invariant
                    0 <= i < 0x3c0,
                    0 <= y < 8,
                    0 <= k <= 8,
                    tile_column == i % 32,
                    tile_row == i / 32,
                    tile_idx == ppu.vram@[base + i],
                    tile_addr == bank + tile_idx * 16,
                    tile_addr + 16 <= ppu.chr_rom@.len(),
                    upper == ppu.chr_rom@[tile_addr + y],
                    lower == ppu.chr_rom@[tile_addr + y + 8],
                    frame.data.len() == old_data.len(),
                    forall|j: int| 256 * 240 * 3 <= j < frame.data.len() ==> #[trigger] frame.data@[j] == old_data[j],
                    base == 0 || base == 0x400,
                    bg_palette_ok(*ppu, palette@),
                    -256 <= shift_x <= 256,
                    -256 <= shift_y <= 256,
                    lands_on_screen(*ppu, viewport, shift_x as int, shift_y as int),
                    bank == bg_bank(*ppu),
                    leftmost == (ppu.mask@ & LEFTMOST_8PIXEL_BACKGROUND != 0),
                    emphasis == emphasis_of(*ppu),
                    greyscale == greyscale_of(*ppu),
                    pal_fits(pal@, emphasis, palette@),
                    ({
                        let s = 1 + 4 * attribute_palette(attribute_byte(*ppu, base as int, tile_column as int, tile_row as int), tile_column as int, tile_row as int);
                        &&& pal@[0] == ppu.palette_table@[0]
                        &&& pal@[1] == ppu.palette_table@[s]
                        &&& pal@[2] == ppu.palette_table@[s + 1]
                        &&& pal@[3] == ppu.palette_table@[s + 2]
                    }),
                    forall|sx: int, sy: int|
                        0 <= sx < 256 && 0 <= sy < 240 && in_buffer(old_data.len() as int, sx, sy) ==> #[trigger] pixel_at(frame.data@, sx, sy) == drawn_so_far(
                            old_data,
                            *ppu,
                            base as int,
                            palette@,
                            viewport,
                            shift_x as int,
                            shift_y as int,
                            i as int,
                            y as int,
                            k as int,
                            sx,
                            sy,
                        ),
                decreases 8 - k,
            {
                let x: u8 = 7 - k;
                let value = pattern_bits(upper, lower, x);
                let byte = if value == 0 {
                    ppu.palette_table[0]
                } else {
                    pal[value as usize]
                };
                assert(colour_entry(byte % 64, emphasis) * 3 + 2 < palette@.len()) by {
                    assert(byte == pal@[value as int]);
                }
                let rgb = get_colour(palette, byte % 64, emphasis, greyscale);
                let pixel_x = tile_column * 8 + x as usize;
                let pixel_y = tile_row * 8 + y;
                let ghost px0 = pixel_x as int;
                let ghost py0 = pixel_y as int;
                proof {
                    assert(px0 / 8 == tile_column && px0 % 8 == x);
                    assert(py0 / 8 == tile_row && py0 % 8 == y);
                    assert((py0 / 8) * 32 + px0 / 8 == i);
                    assert(rgb == bg_rgb(*ppu, base as int, palette@, px0, py0));
                }
                let sx: isize = shift_x + pixel_x as isize;
                let sy: isize = shift_y + pixel_y as isize;
                let ghost before = frame.data@;
                let drawn = !(0 <= sx && sx < 8 && !leftmost) && pixel_x >= viewport.x1 && pixel_x < viewport.x2
                    && pixel_y >= viewport.y1 && pixel_y < viewport.y2;
                assert(drawn == bg_drawn(*ppu, viewport, shift_x as int, px0, py0));
                if drawn {
                    frame.set_pixel(sx as usize, sy as usize, rgb);
                }
                proof {
                    lemma_pixel_step(
                        old_data,
                        before,
                        frame.data@,
                        *ppu,
                        base as int,
                        palette@,
                        viewport,
                        shift_x as int,
                        shift_y as int,
                        i as int,
                        y as int,
                        k as int,
                    );
                }
                k = k + 1;
            }
            y = y + 1;
        }
        i = i + 1;
    }
}

/// The nametable drawn over `under` at screen pixel (sx, sy).
pub open spec fn overlay(
    under: (u8, u8, u8),
    ppu: PPU,
    base: int,
    palette: Seq<u8>,
    viewport: Rect,
    shift_x: int,
    shift_y: int,
    sx: int,
    sy: int,
) -> (u8, u8, u8) {
    let px = sx - shift_x;
    let py = sy - shift_y;
    if 0 <= px < 256 && 0 <= py < 240 && bg_drawn(ppu, viewport, shift_x, px, py) {
        bg_rgb(ppu, base, palette, px, py)
    } else {
        under
    }
}

/// Which half of VRAM holds the nametable on screen, and which the one
/// scrolled in beside or below it.
pub open spec fn nametable_bases(ppu: PPU) -> (int, int) {
    let n = ppu.control@ & 0b11;
    if (ppu.mirroring == Mirroring::Vertical && (n == 0 || n == 2)) || (ppu.mirroring == Mirroring::Horizontal && (n
        == 0 || n == 1)) {
        (0, 0x400)
    } else {
        (0x400, 0)
    }
}

/// The background at screen pixel (sx, sy) over `old`: the main nametable
/// scrolled by (scroll_x, scroll_y), and the second one filling the strip
/// that the horizontal (or else vertical) scroll uncovers.
pub open spec fn background_pixel(old: Seq<u8>, ppu: PPU, palette: Seq<u8>, sx: int, sy: int) -> (u8, u8, u8) {
    let scroll_x = ppu.scroll.scroll_x as int;
    let scroll_y = ppu.scroll.scroll_y as int;
    let (main, second) = nametable_bases(ppu);
    let m = overlay(
        pixel_at(old, sx, sy),
        ppu,
        main,
        palette,
        Rect { x1: scroll_x as usize, y1: scroll_y as usize, x2: 256, y2: 240 },
        -scroll_x,
        -scroll_y,
        sx,
        sy,
    );
    if scroll_x > 0 {
        overlay(m, ppu, second, palette, Rect { x1: 0, y1: 0, x2: scroll_x as usize, y2: 240 }, 256 - scroll_x, 0, sx, sy)
    } else if scroll_y > 0 {
        overlay(m, ppu, second, palette, Rect { x1: 0, y1: 0, x2: 256, y2: scroll_y as usize }, 0, 240 - scroll_y, sx, sy)
    } else {
        m
    }
}

/// The tiles of sprite `n` that are drawn lie within pattern ROM, and an
/// 8x16 sprite flipped vertically does not start above the screen's eighth
/// row.
pub open spec fn sprite_ok(ppu: PPU, n: int) -> bool {
    let i = 4 * n;
    let tile = ppu.oam_data@[i + 1];
    let skipped = ppu.oam_data@[i + 3] < 8 && ppu.mask@ & crate::ppu::registers::mask::LEFTMOST_8PIXEL_SPRITE == 0;
    let tall = ppu.control@ & crate::ppu::registers::control::SPRITE_SIZE != 0;
    let bank = if ppu.control@ & crate::ppu::registers::control::SPRITE_PATTERN_ADDRESS == 0 {
        0int
    } else {
        0x1000
    };
    skipped || if tall {
        (tile % 2) * 0x1000 + (tile - tile % 2) * 16 + 32 <= ppu.chr_rom@.len() && (ppu.oam_data@[i + 2] >= 128
            ==> ppu.oam_data@[i] >= 7)
    } else {
        bank + tile * 16 + 16 <= ppu.chr_rom@.len()
    }
}

/// What drawing a frame needs: a mirroring with two nametables, and, for
/// the layers shown, tiles within pattern ROM, a palette file that holds
/// the colours of the palette-table entries the layer reads (under the
/// emphasis in use), and a vertical scroll within the screen when it alone
/// is used.
pub open spec fn render_ok(ppu: PPU, palette: Seq<u8>) -> bool {
    let (main, second) = nametable_bases(ppu);
    &&& ppu.mirroring != Mirroring::FourScreen
    &&& ppu.mask@ & crate::ppu::registers::mask::SHOW_BACKGROUND != 0 ==> {
        &&& tiles_ok(ppu, main)
        &&& tiles_ok(ppu, second)
        &&& bg_palette_ok(ppu, palette)
        &&& (ppu.scroll.scroll_x == 0 ==> ppu.scroll.scroll_y <= 240)
    }
    &&& ppu.mask@ & crate::ppu::registers::mask::SHOW_SPRITES != 0 ==> {
        &&& sprite_palette_ok(ppu, palette)
        &&& forall|n: int| 0 <= n < 64 ==> #[trigger] sprite_ok(ppu, n)
    }
}

/// Screen pixel (sx, sy) of the picture drawn over `old`: the background
/// when it is shown, then the sprites when they are shown.
pub open spec fn picture_pixel(old: Seq<u8>, ppu: PPU, palette: Seq<u8>, sx: int, sy: int) -> (u8, u8, u8) {
    let bg = if ppu.mask@ & crate::ppu::registers::mask::SHOW_BACKGROUND != 0 {
        background_pixel(old, ppu, palette, sx, sy)
    } else {
        pixel_at(old, sx, sy)
    };
    if ppu.mask@ & crate::ppu::registers::mask::SHOW_SPRITES != 0 {
        sprites_from(bg, ppu, palette, 0, sx, sy)
    } else {
        bg
    }
}

/// Draws the whole picture: the background (when shown) scrolled across two
/// nametables, then the 64 sprites (when shown) from the last to the first,
/// so that earlier sprites end up in front. A sprite pixel behind the
/// background only shows where the background has its universal colour.
/// The frame may have any length: pixels beyond it are left out, and bytes
/// past the 256 x 240 picture are left as they are.
pub fn render(ppu: &PPU, frame: &mut Frame, palette: &[u8])
    requires
        render_ok(*ppu, palette@),
    ensures
        final(frame).data.len() == old(frame).data.len(),
        forall|j: int|
            256 * 240 * 3 <= j < final(frame).data.len() ==> #[trigger] final(frame).data@[j] == old(frame).data@[j],
        ppu.mask@ & crate::ppu::registers::mask::SHOW_BACKGROUND == 0 && ppu.mask@ & crate::ppu::registers::mask::SHOW_SPRITES == 0
            ==> final(frame).data@ == old(frame).data@,
        forall|sx: int, sy: int|
            0 <= sx < 256 && 0 <= sy < 240 && in_buffer(old(frame).data.len() as int, sx, sy) ==> #[trigger] pixel_at(final(frame).data@, sx, sy) == picture_pixel(
                old(frame).data@,
                *ppu,
                palette@,
                sx,
                sy,
            ),
{
    let scroll_x = ppu.scroll.scroll_x as usize;
    let scroll_y = ppu.scroll.scroll_y as usize;
    let nt = ppu.control.nametable_address();
    let (main_nametable, second_nametable): (usize, usize) = match ppu.mirroring {
        Mirroring::Vertical => if nt == 0x2000 || nt == 0x2800 {
            (0, 0x400)
        } else {
            (0x400, 0)
        },
        Mirroring::Horizontal => if nt == 0x2000 || nt == 0x2400 {
            (0, 0x400)
        } else {
            (0x400, 0)
        },
        Mirroring::FourScreen => (0, 0x400),
    };
    assert((main_nametable as int, second_nametable as int) == nametable_bases(*ppu));
    let ghost old_data = frame.data@;
    if ppu.mask.show_background() {
        let ghost pal = palette@;
        proof {
            assert(lands_on_screen(*ppu, Rect { x1: scroll_x, y1: scroll_y, x2: 256, y2: 240 }, -scroll_x, -scroll_y));
        }
        render_nametable(
            ppu,
            frame,
            main_nametable,
            Rect::new(scroll_x, scroll_y, 256, 240),
            -(scroll_x as isize),
            -(scroll_y as isize),
            palette,
        );
        let ghost after_main = frame.data@;
        if scroll_x > 0 {
            proof {
                assert(lands_on_screen(*ppu, Rect { x1: 0, y1: 0, x2: scroll_x, y2: 240 }, 256 - scroll_x, 0));
            }
            render_nametable(
                ppu,
                frame,
                second_nametable,
                Rect::new(0, 0, scroll_x, 240),
                (256 - scroll_x) as isize,
                0,
                palette,
            );
        } else if scroll_y > 0 {
            proof {
                assert(lands_on_screen(*ppu, Rect { x1: 0, y1: 0, x2: 256, y2: scroll_y }, 0, 240 - scroll_y));
            }
            render_nametable(
                ppu,
                frame,
                second_nametable,
                Rect::new(0, 0, 256, scroll_y),
                0,
                (240 - scroll_y) as isize,
                palette,
            );
        }
    }
    let ghost after_bg = frame.data@;
    assert forall|sx: int, sy: int| 0 <= sx < 256 && 0 <= sy < 240 && in_buffer(old_data.len() as int, sx, sy) implies #[trigger] pixel_at(after_bg, sx, sy)
        == if ppu.mask@ & crate::ppu::registers::mask::SHOW_BACKGROUND != 0 {
        background_pixel(old_data, *ppu, palette@, sx, sy)
    } else {
        pixel_at(old_data, sx, sy)
    } by {}
    if !ppu.mask.show_sprites() {
        return ;
    }
    render_sprites(ppu, frame, palette);
    assert forall|sx: int, sy: int| 0 <= sx < 256 && 0 <= sy < 240 && in_buffer(old_data.len() as int, sx, sy) implies #[trigger] pixel_at(frame.data@, sx, sy)
        == picture_pixel(old_data, *ppu, palette@, sx, sy) by {
        assert(pixel_at(frame.data@, sx, sy) == sprites_from(pixel_at(after_bg, sx, sy), *ppu, palette@, 0, sx, sy));
    }
}

} // verus!
