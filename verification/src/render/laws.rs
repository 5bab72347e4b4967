use vstd::prelude::*;

use crate::ppu::PPU;
use super::{pattern_value, bg_bank, bg_value, bg_drawn, emphasis_of, greyscale_of};
use super::rect::Rect;
use super::sprites::{
    sprite_value,
    sprite_pattern_value,
    sprite_pattern_start,
    sprite_rows,
    sprite_skipped,
    sprite_in_front,
    sprite_rgb,
};
use super::palette::colour;

verus! {

/// A pattern row holds eight pixels from left to right in bits 7 down to 0
/// of its two planes: the first plane gives bit 0 of the colour and the
/// second plane bit 1.
pub proof fn law_pattern_pixels(first: u8, second: u8, x: int)
    requires
        0 <= x < 8,
    ensures
        pattern_value(first, second, x) == (first as int / vstd::arithmetic::power2::pow2((7 - x) as nat) as int) % 2 + 2
            * ((second as int / vstd::arithmetic::power2::pow2((7 - x) as nat) as int) % 2),
{
    vstd::arithmetic::power2::lemma2_to64();
    let u = first;
    let l = second;
    let b = (7 - x) as u8;
    crate::bits::lemma_byte_tests(u);
    crate::bits::lemma_byte_tests(l);
    let d = vstd::arithmetic::power2::pow2(b as nat);
    assert((u >> b) & 1 == (u as int / d as int) % 2 && (l >> b) & 1 == (l as int / d as int) % 2) by {
        if b == 0 {
            assert(u >> b == u >> 0u8 && l >> b == l >> 0u8 && d == 1);
        } else if b == 1 {
            assert(u >> b == u >> 1u8 && l >> b == l >> 1u8 && d == 2);
        } else if b == 2 {
            assert(u >> b == u >> 2u8 && l >> b == l >> 2u8 && d == 4);
        } else if b == 3 {
            assert(u >> b == u >> 3u8 && l >> b == l >> 3u8 && d == 8);
        } else if b == 4 {
            assert(u >> b == u >> 4u8 && l >> b == l >> 4u8 && d == 16);
        } else if b == 5 {
            assert(u >> b == u >> 5u8 && l >> b == l >> 5u8 && d == 32);
        } else if b == 6 {
            assert(u >> b == u >> 6u8 && l >> b == l >> 6u8 && d == 64);
        } else if b == 7 {
            assert(u >> b == u >> 7u8 && l >> b == l >> 7u8 && d == 128);
        }
    }
    assert(pattern_value(u, l, x) == ((l >> b) & 1) * 2 + ((u >> b) & 1));
}

/// A background pixel (px, py) of the nametable at `base` takes its colour
/// from row py % 8, column px % 8 of the tile named at entry
/// (py / 8) * 32 + px / 8, in the pattern table that bit 4 of PPUCTRL picks
/// ($0000 or $1000). The left eight screen columns are not drawn while bit 1
/// of PPUMASK is clear.
pub proof fn law_background_tiles(ppu: PPU, base: int, px: int, py: int, viewport: Rect, shift_x: int)
    requires
        0 <= px,
        0 <= py,
    ensures
        ({
            let tile = ppu.vram@[base + (py / 8) * 32 + px / 8];
            let row = 0x1000 * ((ppu.control@ / 16) % 2) + 16 * tile + py % 8;
            bg_value(ppu, base, px, py) == pattern_value(ppu.chr_rom@[row], ppu.chr_rom@[row + 8], px % 8)
        }),
        0 <= shift_x + px < 8 && (ppu.mask@ / 2) % 2 == 0 ==> !bg_drawn(ppu, viewport, shift_x, px, py),
        bg_drawn(ppu, viewport, shift_x, px, py) ==> viewport.contains(px, py),
{
    crate::bits::lemma_byte_tests(ppu.control@);
    crate::bits::lemma_byte_tests(ppu.mask@);
}

/// How the attribute byte (byte 2) and the position bytes of sprite `n`
/// place its pixels: with `left` its X byte and `top` one below its Y byte,
/// pixel (x, y) of the sprite lands on column left + x, or left + 7 - x when
/// bit 6 is set, and on row top + y, or top + 7 - y when bit 7 is set. Bit 5
/// sends the sprite behind the background, bits 0-1 pick the sprite
/// palette, and a sprite in the left eight columns is not drawn while bit 2
/// of PPUMASK is clear. Sprites are 16 rows tall when bit 5 of PPUCTRL is
/// set, 8 otherwise.
pub proof fn law_sprite_attributes(ppu: PPU, n: int, x: int, y: int, v: u8, palette: Seq<u8>)
    requires
        0 <= n < 64,
        0 <= x < 8,
        0 <= y < sprite_rows(ppu),
    ensures
        ({
            let attr = ppu.oam_data@[4 * n + 2];
            let left = ppu.oam_data@[4 * n + 3] as int;
            let top = ppu.oam_data@[4 * n] + 1;
            let sx = if (attr / 64) % 2 == 1 { left + 7 - x } else { left + x };
            let sy = if attr / 128 == 1 { top + 7 - y } else { top + y };
            &&& sprite_value(ppu, n, sx, sy) == sprite_pattern_value(ppu, n, y, x)
            &&& sprite_in_front(ppu, n) == ((attr / 32) % 2 == 0)
            &&& sprite_skipped(ppu, n) == (left < 8 && (ppu.mask@ / 4) % 2 == 0)
            &&& sprite_rgb(ppu, palette, n, v) == colour(
                palette,
                ppu.palette_table@[0x10 + 4 * (attr % 4) + v] % 64,
                emphasis_of(ppu),
                greyscale_of(ppu),
            )
        }),
        sprite_rows(ppu) == if (ppu.control@ / 32) % 2 == 1 { 16int } else { 8 },
{
    crate::bits::lemma_byte_tests(ppu.oam_data@[4 * n + 2]);
    crate::bits::lemma_byte_tests(ppu.control@);
    crate::bits::lemma_byte_tests(ppu.mask@);
}

/// Where a sprite's pattern lies: for 8x8 sprites tile t of the pattern
/// table that bit 3 of PPUCTRL picks; for 8x16 sprites tile t - t % 2 of the
/// table that bit 0 of t picks. Row y of the sprite is read from row y % 8
/// of that tile (its two planes 8 bytes apart), so the lower half of an
/// 8x16 sprite repeats the upper half, as the 32 bytes of the pair are
/// indexed.
pub proof fn law_sprite_patterns(ppu: PPU, n: int, x: int, y: int)
    requires
        0 <= n < 64,
        0 <= y < sprite_rows(ppu),
    ensures
        ({
            let t = ppu.oam_data@[4 * n + 1] as int;
            let tall = (ppu.control@ / 32) % 2 == 1;
            let start = if tall {
                0x1000 * (t % 2) + 16 * (t - t % 2)
            } else {
                0x1000 * ((ppu.control@ / 8) % 2) + 16 * t
            };
            let row = start + y % 8;
            &&& sprite_pattern_start(ppu, n) == start
            &&& sprite_pattern_value(ppu, n, y, x) == pattern_value(ppu.chr_rom@[row], ppu.chr_rom@[row + 8], x)
        }),
{
    crate::bits::lemma_byte_tests(ppu.control@);
}

} // verus!
