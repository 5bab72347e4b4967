use vstd::prelude::*;

verus! {

/// The entry of the palette for a colour byte: the byte with $40, $80 and
/// $100 or-ed in for red, green and blue emphasis.
pub open spec fn colour_entry(in_byte: u8, emphasis: (bool, bool, bool)) -> usize {
    let b0 = in_byte as usize;
    let b1 = if emphasis.0 {
        b0 | 0x40
    } else {
        b0
    };
    let b2 = if emphasis.1 {
        b1 | 0x80
    } else {
        b1
    };
    if emphasis.2 {
        b2 | 0x100
    } else {
        b2
    }
}

/// Luminance of a colour, weighted 30/59/11 percent and rounded down.
pub open spec fn luminance(rgb: (u8, u8, u8)) -> u8 {
    ((rgb.0 * 30 + rgb.1 * 59 + rgb.2 * 11) / 100) as u8
}

/// The colour that a palette of RGB triples gives a colour byte.
pub open spec fn colour(palette: Seq<u8>, in_byte: u8, emphasis: (bool, bool, bool), greyscale: bool) -> (
    u8,
    u8,
    u8,
) {
    let e = colour_entry(in_byte, emphasis) as int;
    let rgb = (palette[e * 3], palette[e * 3 + 1], palette[e * 3 + 2]);
    if greyscale {
        let l = luminance(rgb);
        (l, l, l)
    } else {
        rgb
    }
}

/// Or-ing a small value with a higher bit adds it.
proof fn lemma_or_bits(v: usize)
    by (bit_vector)
    requires
        v < 0x100,
    ensures
        (v | 0x40) < 0x100,
        (v | 0x80) < 0x100,
        (v | 0x100) < 0x200,
        ((v | 0x40) | 0x80) < 0x100,
        v < 0x40 ==> (v | 0x40) == v + 0x40,
        v < 0x80 ==> (v | 0x80) == v + 0x80,
        v < 0x40 ==> ((v | 0x40) | 0x80) == v + 0xC0,
        v < 0x40 ==> (((v | 0x40) | 0x80) | 0x100) == v + 0x1C0,
        v < 0x40 ==> ((v | 0x40) | 0x100) == v + 0x140,
        v < 0x40 ==> ((v | 0x80) | 0x100) == v + 0x180,
        v < 0x40 ==> (v | 0x100) == v + 0x100,
        ((v | 0x40) | 0x100) < 0x200,
        ((v | 0x80) | 0x100) < 0x200,
        (((v | 0x40) | 0x80) | 0x100) < 0x200,
{
}

/// An entry never exceeds $1FF, and for a byte below $40 the emphasis bits
/// add $40, $80 and $100.
pub proof fn lemma_colour_entry(in_byte: u8, emphasis: (bool, bool, bool))
    ensures
        colour_entry(in_byte, emphasis) < 0x200,
        in_byte < 0x40 ==> colour_entry(in_byte, emphasis) == in_byte + (if emphasis.0 {
            0x40int
        } else {
            0
        }) + (if emphasis.1 {
            0x80int
        } else {
            0
        }) + (if emphasis.2 {
            0x100int
        } else {
            0
        }),
{
    lemma_or_bits(in_byte as usize);
}

/// The RGB colour of a colour byte under emphasis and greyscale, looked up
/// in `palette` (three bytes per entry).
pub fn get_colour(palette: &[u8], in_byte: u8, emphasis: (bool, bool, bool), greyscale: bool) -> (r: (u8, u8, u8))
    requires
        colour_entry(in_byte, emphasis) * 3 + 2 < palette@.len(),
    ensures
        r == colour(palette@, in_byte, emphasis, greyscale),
{
    proof {
        lemma_colour_entry(in_byte, emphasis);
    }
    let mut byte: usize = in_byte as usize;
    if emphasis.0 {
        byte = byte | 0x040;
    }
    if emphasis.1 {
        byte = byte | 0x080;
    }
    if emphasis.2 {
        byte = byte | 0x100;
    }
    let rgb: (u8, u8, u8) = (palette[byte * 3], palette[byte * 3 + 1], palette[byte * 3 + 2]);
    if greyscale {
        let luminance: u8 = ((rgb.0 as u16 * 30 + rgb.1 as u16 * 59 + rgb.2 as u16 * 11) / 100) as u8;
        return (luminance, luminance, luminance);
    }
    rgb
}

} // verus!
