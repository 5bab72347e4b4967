use vstd::prelude::*;

use crate::ppu::PPU;
use crate::ppu::registers::control::{SPRITE_PATTERN_ADDRESS, SPRITE_SIZE};
use crate::ppu::registers::mask::LEFTMOST_8PIXEL_SPRITE;
use super::frame::{Frame, pixel_at, painted, in_buffer, lemma_set_then_get, lemma_paint_keeps_tail};
use super::palette::{get_colour, colour, colour_entry};
use super::{pattern_value, pattern_bits, sprite_palette, emphasis_of, greyscale_of, colour_ok, sprite_palette_ok, sprite_ok};

verus! {

/// Byte `i` of the four bytes of sprite `n` in OAM: Y, tile, attributes, X.
pub open spec fn sprite_byte(ppu: PPU, n: int, i: int) -> u8 {
    ppu.oam_data@[4 * n + i]
}

/// Whether sprites are 8x16 pixels.
pub open spec fn sprites_tall(ppu: PPU) -> bool {
    ppu.control@ & SPRITE_SIZE != 0
}

pub open spec fn sprite_rows(ppu: PPU) -> int {
    if sprites_tall(ppu) {
        16
    } else {
        8
    }
}

/// Where the pattern of sprite `n` starts in pattern ROM. For 8x16 sprites
/// bit 0 of the tile number picks the pattern table.
pub open spec fn sprite_pattern_start(ppu: PPU, n: int) -> int {
    let tile = sprite_byte(ppu, n, 1) as int;
    if sprites_tall(ppu) {
        (tile % 2) * 0x1000 + (tile - tile % 2) * 16
    } else if ppu.control@ & SPRITE_PATTERN_ADDRESS == 0 {
        tile * 16
    } else {
        0x1000 + tile * 16
    }
}

/// A sprite in the eight leftmost columns is not drawn while the mask
/// register hides sprites there.
pub open spec fn sprite_skipped(ppu: PPU, n: int) -> bool {
    sprite_byte(ppu, n, 3) < 8 && ppu.mask@ & LEFTMOST_8PIXEL_SPRITE == 0
}

pub open spec fn sprite_flip_h(ppu: PPU, n: int) -> bool {
    (sprite_byte(ppu, n, 2) >> 6u8) & 1 == 1
}

pub open spec fn sprite_flip_v(ppu: PPU, n: int) -> bool {
    (sprite_byte(ppu, n, 2) >> 7u8) & 1 == 1
}

/// Whether the sprite is drawn in front of the background.
pub open spec fn sprite_in_front(ppu: PPU, n: int) -> bool {
    (sprite_byte(ppu, n, 2) >> 5u8) & 1 == 0
}

/// The screen column of column `x` of sprite `n`.
pub open spec fn sprite_target_x(ppu: PPU, n: int, x: int) -> int {
    let left = sprite_byte(ppu, n, 3) as int;
    if sprite_flip_h(ppu, n) {
        left + 7 - x
    } else {
        left + x
    }
}

/// The screen row of row `y` of sprite `n`: the sprite starts one row
/// below its Y byte, and a flipped sprite counts its rows upwards from its
/// eighth row.
pub open spec fn sprite_target_y(ppu: PPU, n: int, y: int) -> int {
    let top = sprite_byte(ppu, n, 0) + 1;
    if sprite_flip_v(ppu, n) {
        top + 7 - y
    } else {
        top + y
    }
}

/// The column of sprite `n` that lands on screen column `sx`.
pub open spec fn sprite_column(ppu: PPU, n: int, sx: int) -> int {
    let left = sprite_byte(ppu, n, 3) as int;
    if sprite_flip_h(ppu, n) {
        left + 7 - sx
    } else {
        sx - left
    }
}

/// The row of sprite `n` that lands on screen row `sy`.
pub open spec fn sprite_row(ppu: PPU, n: int, sy: int) -> int {
    let top = sprite_byte(ppu, n, 0) + 1;
    if sprite_flip_v(ppu, n) {
        top + 7 - sy
    } else {
        sy - top
    }
}

/// The 2-bit colour of row `y`, column `x` of sprite `n`. The rows 8-15 of
/// an 8x16 sprite index the 32 pattern bytes at y - 8 and y, which are the
/// two planes of rows 0-7 of the first tile again.
pub open spec fn sprite_pattern_value(ppu: PPU, n: int, y: int, x: int) -> u8 {
    let start = sprite_pattern_start(ppu, n);
    if y < 8 {
        pattern_value(ppu.chr_rom@[start + y], ppu.chr_rom@[start + y + 8], x)
    } else {
        pattern_value(ppu.chr_rom@[start + y - 8], ppu.chr_rom@[start + y], x)
    }
}

/// The 2-bit colour of sprite `n` at screen pixel (sx, sy); 0 where the
/// sprite does not cover it.
pub open spec fn sprite_value(ppu: PPU, n: int, sx: int, sy: int) -> u8 {
    let y = sprite_row(ppu, n, sy);
    let x = sprite_column(ppu, n, sx);
    if 0 <= y < sprite_rows(ppu) && 0 <= x < 8 {
        sprite_pattern_value(ppu, n, y, x)
    } else {
        0
    }
}

/// The RGB colour of colour `v` (1-3) of the palette of sprite `n`.
pub open spec fn sprite_rgb(ppu: PPU, palette: Seq<u8>, n: int, v: u8) -> (u8, u8, u8) {
    let idx = sprite_byte(ppu, n, 2) & 0b11;
    colour(palette, ppu.palette_table@[0x10 + 4 * idx + v] % 64, emphasis_of(ppu), greyscale_of(ppu))
}

/// The RGB colour of the universal background colour.
pub open spec fn backdrop_colour(ppu: PPU, palette: Seq<u8>) -> (u8, u8, u8) {
    colour(palette, ppu.palette_table@[0] % 64, emphasis_of(ppu), greyscale_of(ppu))
}

/// Screen pixel (sx, sy) after sprite `n` is drawn over `below`: an opaque
/// pixel of the sprite replaces it when the sprite is in front of the
/// background or `below` has the backdrop colour.
pub open spec fn sprite_over(below: (u8, u8, u8), ppu: PPU, palette: Seq<u8>, n: int, sx: int, sy: int) -> (
    u8,
    u8,
    u8,
) {
    let v = sprite_value(ppu, n, sx, sy);
    if sprite_skipped(ppu, n) || v == 0 {
        below
    } else if sprite_in_front(ppu, n) || below == backdrop_colour(ppu, palette) {
        sprite_rgb(ppu, palette, n, v)
    } else {
        below
    }
}

/// Screen pixel (sx, sy) after sprites 63, 62, ..., `n` are drawn over
/// `below`, in that order.
pub open spec fn sprites_from(below: (u8, u8, u8), ppu: PPU, palette: Seq<u8>, n: int, sx: int, sy: int) -> (
    u8,
    u8,
    u8,
)
    decreases 64 - n,
{
    if n >= 64 {
        below
    } else {
        sprite_over(sprites_from(below, ppu, palette, n + 1, sx, sy), ppu, palette, n, sx, sy)
    }
}

/// Sprites that leave a pixel transparent do not change it: drawing sprites
/// 63 down to `k` gives what drawing 63 down to `n` gave, when sprites
/// `k` to `n - 1` are transparent there.
proof fn lemma_transparent_sprites(below: (u8, u8, u8), ppu: PPU, palette: Seq<u8>, k: int, n: int, sx: int, sy: int)
    requires
        0 <= k <= n <= 64,
        forall|m: int| k <= m < n ==> sprite_skipped(ppu, m) || #[trigger] sprite_value(ppu, m, sx, sy) == 0,
    ensures
        sprites_from(below, ppu, palette, k, sx, sy) == sprites_from(below, ppu, palette, n, sx, sy),
    decreases n - k,
{
    if k < n {
        assert(sprite_skipped(ppu, k) || sprite_value(ppu, k, sx, sy) == 0);
        lemma_transparent_sprites(below, ppu, palette, k + 1, n, sx, sy);
    }
}

/// Where every sprite is transparent, the sprite layer shows what lies
/// below it.
pub proof fn law_transparent_sprites_show_below(below: (u8, u8, u8), ppu: PPU, palette: Seq<u8>, sx: int, sy: int)
    requires
        forall|m: int| 0 <= m < 64 ==> sprite_skipped(ppu, m) || #[trigger] sprite_value(ppu, m, sx, sy) == 0,
    ensures
        sprites_from(below, ppu, palette, 0, sx, sy) == below,
{
    lemma_transparent_sprites(below, ppu, palette, 0, 64, sx, sy);
}

/// Of the sprites covering a pixel, the one with the lowest number wins:
/// when sprite `n` is drawn in front and opaque at (sx, sy) and every sprite
/// before it is transparent there, the pixel has sprite `n`'s colour,
/// whatever lies below and whatever the later sprites are.
pub proof fn law_first_opaque_sprite_wins(
    below: (u8, u8, u8),
    ppu: PPU,
    palette: Seq<u8>,
    n: int,
    sx: int,
    sy: int,
)
    requires
        0 <= n < 64,
        !sprite_skipped(ppu, n),
        sprite_in_front(ppu, n),
        sprite_value(ppu, n, sx, sy) != 0,
        forall|m: int| 0 <= m < n ==> sprite_skipped(ppu, m) || #[trigger] sprite_value(ppu, m, sx, sy) == 0,
    ensures
        sprites_from(below, ppu, palette, 0, sx, sy) == sprite_rgb(ppu, palette, n, sprite_value(ppu, n, sx, sy)),
{
    lemma_transparent_sprites(below, ppu, palette, 0, n, sx, sy);
}

/// Screen pixel (sx, sy) has been reached while sprite `n` is drawn row by
/// row, each row from column 7 down to column 0, up to row `y`, column
/// `8 - k`.
pub open spec fn sprite_done(ppu: PPU, n: int, y: int, k: int, sx: int, sy: int) -> bool {
    let r = sprite_row(ppu, n, sy);
    let c = sprite_column(ppu, n, sx);
    r < y || (r == y && c >= 8 - k)
}

/// The screen while sprite `n` is being drawn over `old`.
pub open spec fn sprite_stage(old: Seq<u8>, ppu: PPU, palette: Seq<u8>, n: int, y: int, k: int, sx: int, sy: int) -> (
    u8,
    u8,
    u8,
) {
    if sprite_done(ppu, n, y, k, sx, sy) {
        sprite_over(pixel_at(old, sx, sy), ppu, palette, n, sx, sy)
    } else {
        pixel_at(old, sx, sy)
    }
}

/// Drawing (or skipping) column 7 - k of row y of sprite `n` moves the
/// screen from one stage to the next.
proof fn lemma_sprite_pixel_step(
    old_data: Seq<u8>,
    before: Seq<u8>,
    after: Seq<u8>,
    ppu: PPU,
    palette: Seq<u8>,
    n: int,
    y: int,
    k: int,
)
    requires
        0 <= y < sprite_rows(ppu),
        0 <= k < 8,
        !sprite_skipped(ppu, n),
        forall|sx: int, sy: int|
            0 <= sx < 256 && 0 <= sy < 240 && in_buffer(before.len() as int, sx, sy) ==> #[trigger] pixel_at(before, sx, sy) == sprite_stage(
                old_data,
                ppu,
                palette,
                n,
                y,
                k,
                sx,
                sy,
            ),
        ({
            let sx0 = sprite_target_x(ppu, n, 7 - k);
            let sy0 = sprite_target_y(ppu, n, y);
            let v = sprite_pattern_value(ppu, n, y, 7 - k);
            if v != 0 && 0 <= sx0 < 256 && 0 <= sy0 < 240 && (sprite_in_front(ppu, n) || pixel_at(before, sx0, sy0)
                == backdrop_colour(ppu, palette)) {
                after == painted(before, sx0, sy0, sprite_rgb(ppu, palette, n, v))
            } else {
                after == before
            }
        }),
    ensures
        after.len() == before.len(),
        forall|j: int| 256 * 240 * 3 <= j < after.len() ==> #[trigger] after[j] == before[j],
        forall|sx: int, sy: int|
            0 <= sx < 256 && 0 <= sy < 240 && in_buffer(before.len() as int, sx, sy) ==> #[trigger] pixel_at(after, sx, sy) == sprite_stage(
                old_data,
                ppu,
                palette,
                n,
                y,
                k + 1,
                sx,
                sy,
            ),
{
    let x0 = 7 - k;
    let sx0 = sprite_target_x(ppu, n, x0);
    let sy0 = sprite_target_y(ppu, n, y);
    let v = sprite_pattern_value(ppu, n, y, x0);
    let drawn = v != 0 && 0 <= sx0 < 256 && 0 <= sy0 < 240 && (sprite_in_front(ppu, n) || pixel_at(before, sx0, sy0)
        == backdrop_colour(ppu, palette));
    if drawn {
        lemma_paint_keeps_tail(before, sx0, sy0, sprite_rgb(ppu, palette, n, v));
        lemma_set_then_get(before, sx0, sy0, sprite_rgb(ppu, palette, n, v), 0, 0);
    }
    assert forall|sx: int, sy: int| 0 <= sx < 256 && 0 <= sy < 240 && in_buffer(before.len() as int, sx, sy) implies #[trigger] pixel_at(after, sx, sy)
        == sprite_stage(old_data, ppu, palette, n, y, k + 1, sx, sy) by {
        assert(pixel_at(before, sx, sy) == sprite_stage(old_data, ppu, palette, n, y, k, sx, sy));
        if sx == sx0 && sy == sy0 {
            assert(sprite_row(ppu, n, sy) == y && sprite_column(ppu, n, sx) == x0);
            assert(!sprite_done(ppu, n, y, k, sx, sy));
            assert(sprite_done(ppu, n, y, k + 1, sx, sy));
            assert(sprite_value(ppu, n, sx, sy) == v);
            if drawn {
                lemma_set_then_get(before, sx0, sy0, sprite_rgb(ppu, palette, n, v), sx, sy);
            }
        } else {
            if sprite_row(ppu, n, sy) == y && sprite_column(ppu, n, sx) == x0 {
                assert(sx == sx0 && sy == sy0);
            }
            assert(sprite_done(ppu, n, y, k + 1, sx, sy) == sprite_done(ppu, n, y, k, sx, sy));
            if drawn {
                lemma_set_then_get(before, sx0, sy0, sprite_rgb(ppu, palette, n, v), sx, sy);
            }
        }
    }
}

/// Finishing a row of the sprite is starting the next one.
proof fn lemma_sprite_next_row(old_data: Seq<u8>, ppu: PPU, palette: Seq<u8>, n: int, y: int, sx: int, sy: int)
    ensures
        sprite_stage(old_data, ppu, palette, n, y, 8, sx, sy) == sprite_stage(old_data, ppu, palette, n, y + 1, 0, sx, sy),
{
}

/// Once every row is drawn, the screen is the sprite drawn over it.
proof fn lemma_sprite_finished(old_data: Seq<u8>, ppu: PPU, palette: Seq<u8>, n: int, sx: int, sy: int)
    ensures
        sprite_stage(old_data, ppu, palette, n, sprite_rows(ppu), 0, sx, sy) == sprite_over(
            pixel_at(old_data, sx, sy),
            ppu,
            palette,
            n,
            sx,
            sy,
        ),
{
}

/// Draws sprite `n` over the frame.
fn render_sprite(ppu: &PPU, frame: &mut Frame, palette: &[u8], n: usize, backdrop_rgb: (u8, u8, u8))
    requires
        sprite_palette_ok(*ppu, palette@),
        n < 64,
        sprite_ok(*ppu, n as int),
        backdrop_rgb == backdrop_colour(*ppu, palette@),
    ensures
        final(frame).data.len() == old(frame).data.len(),
        forall|j: int|
            256 * 240 * 3 <= j < final(frame).data.len() ==> #[trigger] final(frame).data@[j] == old(frame).data@[j],
        forall|sx: int, sy: int|
            0 <= sx < 256 && 0 <= sy < 240 && in_buffer(old(frame).data.len() as int, sx, sy) ==> #[trigger] pixel_at(final(frame).data@, sx, sy) == sprite_over(
                pixel_at(old(frame).data@, sx, sy),
                *ppu,
                palette@,
                n as int,
                sx,
                sy,
            ),
{
    let ghost old_data = frame.data@;
    let ghost pal = palette@;
    let i = n * 4;
    let tile_idx = ppu.oam_data[i + 1] as usize;
    let tile_x = ppu.oam_data[i + 3] as usize;
    let tile_y = ppu.oam_data[i] as usize + 1;
    if tile_x < 8 && !ppu.mask.leftmost_8pixel_sprite() {
        return ;
    }
    let emphasis = ppu.mask.emphasis();
    let greyscale = ppu.mask.is_greyscale();
    let attributes = ppu.oam_data[i + 2];
    let flip_vertical = (attributes >> 7u8) & 1 == 1;
    let flip_horizontal = (attributes >> 6u8) & 1 == 1;
    let palette_idx = attributes & 0b11;
    let priority = (attributes >> 5u8) & 1 == 0;
    assert(palette_idx < 4 && (flip_vertical == (attributes >= 128))) by (bit_vector)
        requires
            palette_idx == attributes & 0b11,
            flip_vertical == ((attributes >> 7u8) & 1 == 1),
    ;
    let sprite_palette = sprite_palette(ppu, palette_idx);
    proof {
        assert(colour_ok(*ppu, palette@, 0x11 + 4 * palette_idx));
        assert(colour_ok(*ppu, palette@, 0x12 + 4 * palette_idx));
        assert(colour_ok(*ppu, palette@, 0x13 + 4 * palette_idx));
    }
    let bank = ppu.control.sprite_pattern_address() as usize;
    let sprite_height = ppu.control.sprite_size() as usize;
    let tile_start = if sprite_height == 16 {
        let b = tile_idx % 2;
        b * 0x1000 + (tile_idx - b) * 16
    } else {
        bank + tile_idx * 16
    };
    assert(tile_start == sprite_pattern_start(*ppu, n as int));
    assert(tile_start + 2 * sprite_height <= ppu.chr_rom@.len());
    let mut y: usize = 0;
    while y < sprite_height
        invariant
            n < 64,
            i == n * 4,
            y <= sprite_height,
            sprite_height == sprite_rows(*ppu),
            tile_start == sprite_pattern_start(*ppu, n as int),
            tile_start + 2 * sprite_height <= ppu.chr_rom.len(),
            sprite_height == 16 && flip_vertical ==> tile_y >= 8,
            tile_x == sprite_byte(*ppu, n as int, 3),
            tile_y == sprite_byte(*ppu, n as int, 0) + 1,
            flip_vertical == sprite_flip_v(*ppu, n as int),
            flip_horizontal == sprite_flip_h(*ppu, n as int),
            priority == sprite_in_front(*ppu, n as int),
            !sprite_skipped(*ppu, n as int),
            frame.data.len() == old_data.len(),
            forall|j: int| 256 * 240 * 3 <= j < frame.data.len() ==> #[trigger] frame.data@[j] == old_data[j],
            sprite_palette_ok(*ppu, palette@),
            pal == palette@,
            forall|v: int| 1 <= v < 4 ==> colour_entry(#[trigger] sprite_palette@[v] % 64, emphasis) * 3 + 2 < palette@.len(),
            emphasis == emphasis_of(*ppu),
            greyscale == greyscale_of(*ppu),
            backdrop_rgb == backdrop_colour(*ppu, palette@),
            palette_idx == sprite_byte(*ppu, n as int, 2) & 0b11,
            palette_idx < 4,
            sprite_palette@[1] == ppu.palette_table@[0x11 + 4 * palette_idx],
            sprite_palette@[2] == ppu.palette_table@[0x12 + 4 * palette_idx],
            sprite_palette@[3] == ppu.palette_table@[0x13 + 4 * palette_idx],
            forall|sx: int, sy: int|
                0 <= sx < 256 && 0 <= sy < 240 && in_buffer(old_data.len() as int, sx, sy) ==> #[trigger] pixel_at(frame.data@, sx, sy) == sprite_stage(
                    old_data,
                    *ppu,
                    pal,
                    n as int,
                    y as int,
                    0,
                    sx,
                    sy,
                ),
        decreases sprite_height - y,
    {
        let upper = if y < 8 {
            ppu.chr_rom[tile_start + y]
        } else {
            ppu.chr_rom[tile_start + y - 8]
        };
        let lower = if y < 8 {
            ppu.chr_rom[tile_start + y + 8]
        } else {
            ppu.chr_rom[tile_start + y]
        };
        let mut k: u8 = 0;
        while k < 8
            invariant
                n < 64,
                y < sprite_height,
                sprite_height == sprite_rows(*ppu),
                tile_start == sprite_pattern_start(*ppu, n as int),
                tile_start + 2 * sprite_height <= ppu.chr_rom.len(),
                upper == (if y < 8 {
                    ppu.chr_rom@[tile_start + y]
                } else {
                    ppu.chr_rom@[tile_start + y - 8]
                }),
                lower == (if y < 8 {
                    ppu.chr_rom@[tile_start + y + 8]
                } else {
                    ppu.chr_rom@[tile_start + y]
                }),
                sprite_height == 16 && flip_vertical ==> tile_y >= 8,
                tile_x == sprite_byte(*ppu, n as int, 3),
                tile_y == sprite_byte(*ppu, n as int, 0) + 1,
                flip_vertical == sprite_flip_v(*ppu, n as int),
                flip_horizontal == sprite_flip_h(*ppu, n as int),
                priority == sprite_in_front(*ppu, n as int),
                !sprite_skipped(*ppu, n as int),
                k <= 8,
                frame.data.len() == old_data.len(),
                forall|j: int| 256 * 240 * 3 <= j < frame.data.len() ==> #[trigger] frame.data@[j] == old_data[j],
                sprite_palette_ok(*ppu, palette@),
                pal == palette@,
                forall|v: int| 1 <= v < 4 ==> colour_entry(#[trigger] sprite_palette@[v] % 64, emphasis) * 3 + 2 < palette@.len(),
                emphasis == emphasis_of(*ppu),
                greyscale == greyscale_of(*ppu),
                backdrop_rgb == backdrop_colour(*ppu, palette@),
                palette_idx == sprite_byte(*ppu, n as int, 2) & 0b11,
                palette_idx < 4,
                sprite_palette@[1] == ppu.palette_table@[0x11 + 4 * palette_idx],
                sprite_palette@[2] == ppu.palette_table@[0x12 + 4 * palette_idx],
                sprite_palette@[3] == ppu.palette_table@[0x13 + 4 * palette_idx],
                forall|sx: int, sy: int|
                    0 <= sx < 256 && 0 <= sy < 240 && in_buffer(old_data.len() as int, sx, sy) ==> #[trigger] pixel_at(frame.data@, sx, sy) == sprite_stage(
                        old_data,
                        *ppu,
                        pal,
                        n as int,
                        y as int,
                        k as int,
                        sx,
                        sy,
                    ),
            decreases 8 - k,
        {
            let ghost before = frame.data@;
            let ghost kk = k as int;
            let x: u8 = 7 - k;
            k = k + 1;
            let value = pattern_bits(upper, lower, x);
            assert(value == sprite_pattern_value(*ppu, n as int, y as int, x as int));
            let xu = x as usize;
            let sprite_pixel_x = if flip_horizontal {
                tile_x + 7 - xu
            } else {
                tile_x + xu
            };
            let sprite_pixel_y = if flip_vertical {
                tile_y + 7 - y
            } else {
                tile_y + y
            };
            assert(sprite_pixel_x == sprite_target_x(*ppu, n as int, x as int));
            assert(sprite_pixel_y == sprite_target_y(*ppu, n as int, y as int));
            if value != 0 && sprite_pixel_x < 256 && sprite_pixel_y < 240 {
                let byte = sprite_palette[value as usize] % 64;
                assert(colour_entry(sprite_palette@[value as int] % 64, emphasis) * 3 + 2 < palette@.len());
                let rgb = get_colour(palette, byte, emphasis, greyscale);
                assert(rgb == sprite_rgb(*ppu, pal, n as int, value));
                let bg_pixel = frame.get_pixel(sprite_pixel_x, sprite_pixel_y);
                if priority || (bg_pixel.0 == backdrop_rgb.0 && bg_pixel.1 == backdrop_rgb.1 && bg_pixel.2
                    == backdrop_rgb.2) {
                    frame.set_pixel(sprite_pixel_x, sprite_pixel_y, rgb);
                }
            }
            proof {
                lemma_sprite_pixel_step(old_data, before, frame.data@, *ppu, pal, n as int, y as int, kk);
            }
        }
        proof {
            assert forall|sx: int, sy: int| 0 <= sx < 256 && 0 <= sy < 240 && in_buffer(old_data.len() as int, sx, sy) implies #[trigger] pixel_at(
                frame.data@,
                sx,
                sy,
            ) == sprite_stage(old_data, *ppu, pal, n as int, y + 1, 0, sx, sy) by {
                lemma_sprite_next_row(old_data, *ppu, pal, n as int, y as int, sx, sy);
            }
        }
        y = y + 1;
    }
    proof {
        assert forall|sx: int, sy: int| 0 <= sx < 256 && 0 <= sy < 240 && in_buffer(old_data.len() as int, sx, sy) implies #[trigger] pixel_at(
            frame.data@,
            sx,
            sy,
        ) == sprite_over(pixel_at(old_data, sx, sy), *ppu, pal, n as int, sx, sy) by {
            lemma_sprite_finished(old_data, *ppu, pal, n as int, sx, sy);
        }
    }
}

/// Draws the 64 sprites from the last to the first, so that earlier sprites
/// end up in front.
pub(crate) fn render_sprites(ppu: &PPU, frame: &mut Frame, palette: &[u8])
    requires
        sprite_palette_ok(*ppu, palette@),
        forall|n: int| 0 <= n < 64 ==> #[trigger] sprite_ok(*ppu, n),
    ensures
        final(frame).data.len() == old(frame).data.len(),
        forall|j: int|
            256 * 240 * 3 <= j < final(frame).data.len() ==> #[trigger] final(frame).data@[j] == old(frame).data@[j],
        forall|sx: int, sy: int|
            0 <= sx < 256 && 0 <= sy < 240 && in_buffer(old(frame).data.len() as int, sx, sy) ==> #[trigger] pixel_at(final(frame).data@, sx, sy) == sprites_from(
                pixel_at(old(frame).data@, sx, sy),
                *ppu,
                palette@,
                0,
                sx,
                sy,
            ),
{
    let ghost old_data = frame.data@;
    let emphasis = ppu.mask.emphasis();
    let greyscale = ppu.mask.is_greyscale();
    let backdrop = ppu.palette_table[0] % 64;
    assert(colour_ok(*ppu, palette@, 0));
    let backdrop_rgb = get_colour(palette, backdrop, emphasis, greyscale);
    let mut n: usize = 64;
    while n > 0
        invariant
            n <= 64,
            frame.data.len() == old_data.len(),
            forall|j: int| 256 * 240 * 3 <= j < frame.data.len() ==> #[trigger] frame.data@[j] == old_data[j],
            sprite_palette_ok(*ppu, palette@),
            forall|m: int| 0 <= m < 64 ==> #[trigger] sprite_ok(*ppu, m),
            backdrop_rgb == backdrop_colour(*ppu, palette@),
            forall|sx: int, sy: int|
                0 <= sx < 256 && 0 <= sy < 240 && in_buffer(old_data.len() as int, sx, sy) ==> #[trigger] pixel_at(frame.data@, sx, sy) == sprites_from(
                    pixel_at(old_data, sx, sy),
                    *ppu,
                    palette@,
                    n as int,
                    sx,
                    sy,
                ),
        decreases n,
    {
        n = n - 1;
        assert(sprite_ok(*ppu, n as int));
        let ghost before = frame.data@;
        render_sprite(ppu, frame, palette, n, backdrop_rgb);
        proof {
            assert forall|sx: int, sy: int| 0 <= sx < 256 && 0 <= sy < 240 && in_buffer(old_data.len() as int, sx, sy) implies #[trigger] pixel_at(
                frame.data@,
                sx,
                sy,
            ) == sprites_from(pixel_at(old_data, sx, sy), *ppu, palette@, n as int, sx, sy) by {
                assert(pixel_at(before, sx, sy) == sprites_from(
                    pixel_at(old_data, sx, sy),
                    *ppu,
                    palette@,
                    n + 1,
                    sx,
                    sy,
                ));
            }
        }
    }
}

} // verus!
