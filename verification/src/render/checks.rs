use vstd::prelude::*;

use crate::cartridge::Mirroring;
use crate::ppu::PPU;
use crate::ppu::registers::control::{BACKGROUND_PATTERN_ADDRESS, SPRITE_PATTERN_ADDRESS, SPRITE_SIZE};
use crate::ppu::registers::mask::{LEFTMOST_8PIXEL_SPRITE, SHOW_BACKGROUND, SHOW_SPRITES};
use super::frame::{Frame, pixel_at, in_buffer};
use super::palette::{colour_entry, lemma_colour_entry};
use super::{bg_bank, nametable_bases, colour_ok, picture_pixel, render, render_ok, sprite_ok, tiles_ok};

verus! {

/// Whether the colour in palette-table entry `k` can be looked up in the
/// palette file under the current emphasis.
fn colour_fits(ppu: &PPU, palette: &[u8], k: usize) -> (r: bool)
    requires
        k < 32,
    ensures
        r == colour_ok(*ppu, palette@, k as int),
{
    let emphasis = ppu.mask.emphasis();
    let byte = ppu.palette_table[k] % 64;
    proof {
        lemma_colour_entry(byte, emphasis);
    }
    let mut e: usize = byte as usize;
    if emphasis.0 {
        e = e | 0x40;
    }
    if emphasis.1 {
        e = e | 0x80;
    }
    if emphasis.2 {
        e = e | 0x100;
    }
    assert(e == colour_entry(byte, emphasis));
    e * 3 + 2 < palette.len()
}

/// Whether the palette-table entries in `from..to` other than those at
/// multiples of 4 fit in the palette file.
fn colours_fit(ppu: &PPU, palette: &[u8], from: usize, to: usize) -> (r: bool)
    requires
        from <= to <= 32,
    ensures
        r == forall|k: int| from <= k < to && k % 4 != 0 ==> #[trigger] colour_ok(*ppu, palette@, k),
{
    let mut k: usize = from;
    while k < to
        invariant
            from <= k <= to <= 32,
            forall|m: int| from <= m < k && m % 4 != 0 ==> #[trigger] colour_ok(*ppu, palette@, m),
        decreases to - k,
    {
        if k % 4 != 0 && !colour_fits(ppu, palette, k) {
            return false;
        }
        k = k + 1;
    }
    true
}

/// Whether every tile of the nametable at `base` lies within pattern ROM.
fn tiles_within_rom(ppu: &PPU, base: usize) -> (r: bool)
    requires
        base == 0 || base == 0x400,
    ensures
        r == tiles_ok(*ppu, base as int),
{
    let bank: usize = if ppu.control.bits() & BACKGROUND_PATTERN_ADDRESS == 0 {
        0
    } else {
        0x1000
    };
    assert(bank == bg_bank(*ppu));
    let mut i: usize = 0;
    while i < 0x3c0
        invariant
            i <= 0x3c0,
            base == 0 || base == 0x400,
            bank == bg_bank(*ppu),
            forall|j: int| 0 <= j < i ==> bg_bank(*ppu) + #[trigger] ppu.vram@[base + j] * 16 + 16 <= ppu.chr_rom@.len(),
        decreases 0x3c0 - i,
    {
        if bank + (ppu.vram[base + i] as usize) * 16 + 16 > ppu.chr_rom.len() {
            return false;
        }
        i = i + 1;
    }
    true
}

/// Whether the pattern of sprite `n` lies within pattern ROM (see
/// `sprite_ok`).
fn sprite_fits(ppu: &PPU, n: usize) -> (r: bool)
    requires
        n < 64,
    ensures
        r == sprite_ok(*ppu, n as int),
{
    let i = 4 * n;
    let tile = ppu.oam_data[i + 1] as usize;
    let skipped = ppu.oam_data[i + 3] < 8 && ppu.mask.bits() & LEFTMOST_8PIXEL_SPRITE == 0;
    let tall = ppu.control.bits() & SPRITE_SIZE != 0;
    let bank: usize = if ppu.control.bits() & SPRITE_PATTERN_ADDRESS == 0 {
        0
    } else {
        0x1000
    };
    if skipped {
        true
    } else if tall {
        (tile % 2) * 0x1000 + (tile - tile % 2) * 16 + 32 <= ppu.chr_rom.len() && (ppu.oam_data[i + 2] < 128
            || ppu.oam_data[i] >= 7)
    } else {
        bank + tile * 16 + 16 <= ppu.chr_rom.len()
    }
}

/// Whether `render` can draw the picture of `ppu` into `frame` with
/// `palette` (see `render_ok`).
pub fn can_render(ppu: &PPU, frame: &Frame, palette: &[u8]) -> (r: bool)
    ensures
        r == render_ok(*ppu, palette@),
{
    if ppu.mirroring == Mirroring::FourScreen {
        return false;
    }
    let nt = ppu.control.nametable_address();
    let (main, second): (usize, usize) = match ppu.mirroring {
        Mirroring::Vertical => if nt == 0x2000 || nt == 0x2800 {
            (0, 0x400)
        } else {
            (0x400, 0)
        },
        Mirroring::Horizontal => if nt == 0x2000 || nt == 0x2400 {
            (0, 0x400)
        } else {
            (0x400, 0)
        },
        Mirroring::FourScreen => (0, 0x400),
    };
    assert((main as int, second as int) == nametable_bases(*ppu));
    let backdrop_fits = colour_fits(ppu, palette, 0);
    if ppu.mask.bits() & SHOW_BACKGROUND != 0 {
        let bg_fits = colours_fit(ppu, palette, 1, 16);
        if !tiles_within_rom(ppu, main) || !tiles_within_rom(ppu, second) || !backdrop_fits || !bg_fits {
            return false;
        }
        if ppu.scroll.scroll_x == 0 && ppu.scroll.scroll_y > 240 {
            return false;
        }
    }
    if ppu.mask.bits() & SHOW_SPRITES != 0 {
        if !backdrop_fits || !colours_fit(ppu, palette, 0x11, 0x20) {
            return false;
        }
        let mut n: usize = 0;
        while n < 64
            invariant
                n <= 64,
                ppu.mask@ & SHOW_SPRITES != 0,
                forall|m: int| 0 <= m < n ==> #[trigger] sprite_ok(*ppu, m),
            decreases 64 - n,
        {
            if !sprite_fits(ppu, n) {
                assert(!sprite_ok(*ppu, n as int));
                return false;
            }
            n = n + 1;
        }
    }
    true
}

/// Draws the picture when `render` can (see `can_render`) and says whether
/// it did; otherwise the frame is left as it is.
pub fn render_checked(ppu: &PPU, frame: &mut Frame, palette: &[u8]) -> (drawn: bool)
    ensures
        drawn == render_ok(*ppu, palette@),
        drawn ==> forall|sx: int, sy: int|
            0 <= sx < 256 && 0 <= sy < 240 && in_buffer(old(frame).data.len() as int, sx, sy) ==> #[trigger] pixel_at(
                final(frame).data@,
                sx,
                sy,
            ) == picture_pixel(
                old(frame).data@,
                *ppu,
                palette@,
                sx,
                sy,
            ),
        final(frame).data.len() == old(frame).data.len(),
        drawn ==> forall|j: int|
            256 * 240 * 3 <= j < final(frame).data.len() ==> #[trigger] final(frame).data@[j] == old(frame).data@[j],
        !drawn ==> final(frame).data@ == old(frame).data@,
{
    if !can_render(ppu, frame, palette) {
        return false;
    }
    render(ppu, frame, palette);
    true
}

} // verus!
