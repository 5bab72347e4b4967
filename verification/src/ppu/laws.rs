use vstd::prelude::*;

use crate::cartridge::Mirroring;
use super::{mirror_spec, palette_index};

verus! {

/// $3000-$3EFF mirror the nametables at $2000-$2EFF.
pub proof fn law_nametables_mirrored_at_3000(m: Mirroring, a: u16)
    requires
        0x2000 <= a < 0x2F00,
    ensures
        mirror_spec(m, (a + 0x1000) as u16) == mirror_spec(m, a),
{
    let b = (a + 0x1000) as u16;
    assert(b & 0b10_1111_1111_1111 == a & 0b10_1111_1111_1111 && a & 0b10_1111_1111_1111 == a) by (bit_vector)
        requires
            0x2000 <= a < 0x2F00,
            b == a + 0x1000,
    ;
}

/// The index of a nametable address $2000-$2FFF into nametable RAM.
proof fn lemma_nametable_offset(a: u16)
    requires
        0x2000 <= a < 0x3000,
    ensures
        a & 0b10_1111_1111_1111 == a,
{
    assert(a & 0b10_1111_1111_1111 == a) by (bit_vector)
        requires
            0x2000 <= a < 0x3000,
    ;
}

/// With vertical mirroring $2000 and $2800 hold the same nametable, the
/// first 1 KiB of nametable RAM, and $2400 and $2C00 the second.
pub proof fn law_vertical_mirroring(a: u16)
    requires
        0x2000 <= a < 0x2800,
    ensures
        mirror_spec(Mirroring::Vertical, a) == a - 0x2000,
        mirror_spec(Mirroring::Vertical, (a + 0x800) as u16) == a - 0x2000,
{
    lemma_nametable_offset(a);
    lemma_nametable_offset((a + 0x800) as u16);
}

/// With horizontal mirroring $2000 and $2400 hold the same nametable, the
/// first 1 KiB of nametable RAM, and $2800 and $2C00 the second.
pub proof fn law_horizontal_mirroring(a: u16)
    requires
        0x2000 <= a < 0x2400 || 0x2800 <= a < 0x2C00,
    ensures
        mirror_spec(Mirroring::Horizontal, a) == mirror_spec(Mirroring::Horizontal, (a + 0x400) as u16),
        0x2000 <= a < 0x2400 ==> mirror_spec(Mirroring::Horizontal, a) == a - 0x2000,
        0x2800 <= a < 0x2C00 ==> mirror_spec(Mirroring::Horizontal, a) == a - 0x2800 + 0x400,
{
    lemma_nametable_offset(a);
    lemma_nametable_offset((a + 0x400) as u16);
}

/// Every nametable address lands in the 2 KiB of nametable RAM under
/// horizontal and vertical mirroring.
pub proof fn law_mirroring_in_ram(m: Mirroring, a: u16)
    requires
        0x2000 <= a < 0x3000,
        m != Mirroring::FourScreen,
    ensures
        0 <= mirror_spec(m, a) < 0x800,
{
    lemma_nametable_offset(a);
}

/// The backdrop entries of the sprite palettes, $3F10/$3F14/$3F18/$3F1C,
/// are the entries $3F00/$3F04/$3F08/$3F0C of the background palettes.
pub proof fn law_palette_mirrors(k: u16)
    requires
        k < 4,
    ensures
        palette_index((0x3f10 + 4 * k) as u16) == palette_index((0x3f00 + 4 * k) as u16),
{
}

} // verus!
