use vstd::prelude::*;

verus! {

/// How the two physical nametables are laid out in the four logical ones.
#[derive(Clone, Copy, Debug, PartialEq, Eq, Structural)]
pub enum Mirroring {
    Vertical,
    Horizontal,
    FourScreen,
}

/// The contents of an iNES cartridge image.
pub struct Rom {
    pub prg_rom: Vec<u8>,
    pub chr_rom: Vec<u8>,
    pub mapper: u8,
    pub mirroring: Mirroring,
}

/// "NES" followed by MS-DOS end-of-file.
pub open spec fn has_ines_magic(raw: Seq<u8>) -> bool {
    raw[0] == 0x4E && raw[1] == 0x45 && raw[2] == 0x53 && raw[3] == 0x1A
}

/// PRG ROM size: header byte 4 counts 16 KiB banks.
pub open spec fn prg_size(raw: Seq<u8>) -> int {
    raw[4] * 16384
}

/// CHR ROM size: header byte 5 counts 8 KiB banks.
pub open spec fn chr_size(raw: Seq<u8>) -> int {
    raw[5] * 8192
}

/// PRG ROM follows the 16-byte header and, when flag 6 bit 2 says so, a
/// 512-byte trainer.
pub open spec fn prg_start(raw: Seq<u8>) -> int {
    16 + if raw[6] & 0b100 != 0 {
        512int
    } else {
        0
    }
}

pub open spec fn chr_start(raw: Seq<u8>) -> int {
    prg_start(raw) + prg_size(raw)
}

/// The mapper number: high nibble from flag 7, low nibble from flag 6.
pub open spec fn mapper_number(raw: Seq<u8>) -> u8 {
    (raw[7] & 0b1111_0000) | (raw[6] >> 4u8)
}

/// Four-screen when flag 6 bit 3 is set, else vertical or horizontal by bit 0.
pub open spec fn mirroring_of(raw: Seq<u8>) -> Mirroring {
    if raw[6] & 0b1000 != 0 {
        Mirroring::FourScreen
    } else if raw[6] & 0b1 != 0 {
        Mirroring::Vertical
    } else {
        Mirroring::Horizontal
    }
}

/// The bytes that parsing reads are present: the magic number, and for an
/// iNES image the header and both ROM areas.
pub open spec fn readable(raw: Seq<u8>) -> bool {
    raw.len() >= 4 && (has_ines_magic(raw) ==> raw.len() >= 8 && chr_start(raw) + chr_size(raw) <= raw.len())
}

/// Whether `Rom::new` can read `raw` (see `readable`).
pub fn readable_image(raw: &Vec<u8>) -> (r: bool)
    ensures
        r == readable(raw@),
{
    if raw.len() < 4 {
        return false;
    }
    if !(raw[0] == 0x4E && raw[1] == 0x45 && raw[2] == 0x53 && raw[3] == 0x1A) {
        return true;
    }
    if raw.len() < 8 {
        return false;
    }
    let trainer: usize = if raw[6] & 0b100 != 0 { 512 } else { 0 };
    let end = 16 + trainer + raw[4] as usize * 16384 + raw[5] as usize * 8192;
    end <= raw.len()
}

impl Rom {
    /// Parses an iNES image. The error comes exactly when the magic number
    /// is missing.
    pub fn new(raw: &Vec<u8>) -> (r: Result<Rom, String>)
        requires
            readable(raw@),
        ensures
            r is Err <==> !has_ines_magic(raw@),
            r matches Err(e) ==> e@ == "[CART] only iNES roms are supported!"@,
            r matches Ok(rom) ==> {
                &&& rom.prg_rom@ == raw@.subrange(prg_start(raw@), prg_start(raw@) + prg_size(raw@))
                &&& rom.chr_rom@ == raw@.subrange(chr_start(raw@), chr_start(raw@) + chr_size(raw@))
                &&& rom.mapper == mapper_number(raw@)
                &&& rom.mapper / 16 == raw@[7] / 16 && rom.mapper % 16 == raw@[6] / 16
                &&& rom.mirroring == mirroring_of(raw@)
            },
    {
        if !(raw[0] == 0x4E && raw[1] == 0x45 && raw[2] == 0x53 && raw[3] == 0x1A) {
            return Err("[CART] only iNES roms are supported!".to_string());
        }
        proof {
            law_mapper_nibbles(raw@);
        }
        let mapper = (raw[7] & 0b1111_0000) | (raw[6] >> 4u8);
        let four_screen = raw[6] & 0b1000 != 0;
        let vertical_mirroring = raw[6] & 0b1 != 0;
        let mirroring = if four_screen {
            Mirroring::FourScreen
        } else if vertical_mirroring {
            Mirroring::Vertical
        } else {
            Mirroring::Horizontal
        };
        let prg_rom_size = raw[4] as usize * 16384;
        let chr_rom_size = raw[5] as usize * 8192;
        let skip_trainer = raw[6] & 0b100 != 0;
        let prg_rom_start: usize = 16 + if skip_trainer { 512 } else { 0 };
        let chr_rom_start = prg_rom_start + prg_rom_size;
        Ok(
            Rom {
                prg_rom: slice_to_vec(raw, prg_rom_start, prg_rom_start + prg_rom_size),
                chr_rom: slice_to_vec(raw, chr_rom_start, chr_rom_start + chr_rom_size),
                mapper: mapper,
                mirroring: mirroring,
            },
        )
    }
}

/// A copy of `raw[start..end]`.
pub fn slice_to_vec(raw: &Vec<u8>, start: usize, end: usize) -> (r: Vec<u8>)
    requires
        start <= end <= raw.len(),
    ensures
        r@ == raw@.subrange(start as int, end as int),
{
    let mut out: Vec<u8> = Vec::new();
    let mut i = start;
    while i < end
        invariant
            start <= i <= end <= raw.len(),
            out@ == raw@.subrange(start as int, i as int),
        decreases end - i,
    {
        out.push(raw[i]);
        i = i + 1;
    }
    out
}


/// The mapper number takes its high nibble from the high nibble of flags 7
/// and its low nibble from the high nibble of flags 6; the low bits of
/// flags 7 (where NES 2.0 images carry their marker) play no part.
pub proof fn law_mapper_nibbles(raw: Seq<u8>)
    requires
        raw.len() >= 8,
    ensures
        mapper_number(raw) / 16 == raw[7] / 16,
        mapper_number(raw) % 16 == raw[6] / 16,
{
    let f7 = raw[7];
    let f6 = raw[6];
    assert(((f7 & 0b1111_0000) | (f6 >> 4u8)) / 16 == f7 / 16 && ((f7 & 0b1111_0000) | (f6 >> 4u8)) % 16 == f6 / 16)
        by (bit_vector);
}


/// The header fields by their bits: PRG ROM starts after the 16-byte
/// header, 512 bytes later when bit 2 of flags 6 announces a trainer; it
/// holds 16 KiB per unit of byte 4 and CHR ROM, right after it, 8 KiB per
/// unit of byte 5. Bit 3 of flags 6 selects four-screen mirroring, else
/// bit 0 vertical (set) or horizontal (clear).
pub proof fn law_header_fields(raw: Seq<u8>)
    requires
        raw.len() >= 8,
    ensures
        prg_start(raw) == 16 + 512 * ((raw[6] / 4) % 2),
        prg_size(raw) == 16384 * raw[4],
        chr_start(raw) == prg_start(raw) + 16384 * raw[4],
        chr_size(raw) == 8192 * raw[5],
        (raw[6] / 8) % 2 == 1 ==> mirroring_of(raw) == Mirroring::FourScreen,
        (raw[6] / 8) % 2 == 0 && raw[6] % 2 == 1 ==> mirroring_of(raw) == Mirroring::Vertical,
        (raw[6] / 8) % 2 == 0 && raw[6] % 2 == 0 ==> mirroring_of(raw) == Mirroring::Horizontal,
{
    crate::bits::lemma_byte_tests(raw[6]);
}

} // verus!
