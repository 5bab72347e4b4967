use vstd::prelude::*;

verus! {

/// PPUCTRL ($2000): a bit set that selects nametable, increments, pattern
/// tables, sprite size and the vblank NMI.
pub struct ControlRegister {
    bits: u8,
}

/// Bit masks of the control register.
pub const NAMETABLE1: u8 = 0b0000_0001;
pub const NAMETABLE2: u8 = 0b0000_0010;
pub const VRAM_ADDRESS_INCREMENT: u8 = 0b0000_0100;
pub const SPRITE_PATTERN_ADDRESS: u8 = 0b0000_1000;
pub const BACKGROUND_PATTERN_ADDRESS: u8 = 0b0001_0000;
pub const SPRITE_SIZE: u8 = 0b0010_0000;
pub const MASTER_SLAVE_SELECT: u8 = 0b0100_0000;
pub const GENERATE_NMI: u8 = 0b1000_0000;

impl View for ControlRegister {
    type V = u8;

    closed spec fn view(&self) -> u8 {
        self.bits
    }
}

impl ControlRegister {
    /// The register with every bit clear.
    pub fn new() -> (r: Self)
        ensures
            r@ == 0,
    {
        ControlRegister { bits: 0 }
    }

    /// The register holding exactly `data`; every bit of a `u8` is a flag.
    pub fn from_bits_truncate(data: u8) -> (r: Self)
        ensures
            r@ == data,
    {
        ControlRegister { bits: data }
    }

    pub fn bits(&self) -> (r: u8)
        ensures
            r == self@,
    {
        self.bits
    }

    /// Whether every bit of `mask` is set.
    pub fn contains(&self, mask: u8) -> (r: bool)
        ensures
            r == (self@ & mask == mask),
    {
        self.bits & mask == mask
    }

    /// Base address of the selected nametable: $2000 + $400 * (bits & 3).
    pub fn nametable_address(&self) -> (r: u16)
        ensures
            r == 0x2000 + 0x400 * (self@ & 0b11),
    {
        let b = self.bits;
        let sel = b & 0b11;
        assert(sel <= 3) by (bit_vector)
            requires
                sel == b & 0b11,
        ;
        if sel == 0 {
            0x2000
        } else if sel == 1 {
            0x2400
        } else if sel == 2 {
            0x2800
        } else {
            0x2c00
        }
    }

    /// 1 when bit 2 is clear (across), 32 when it is set (down).
    pub fn vram_address_increment(&self) -> (r: u8)
        ensures
            r == if self@ & VRAM_ADDRESS_INCREMENT == 0 { 1u8 } else { 32u8 },
            r == if (self@ >> 2u8) & 1 == 0 { 1u8 } else { 32u8 },
    {
        proof {
            crate::bits::lemma_byte_tests(self.bits);
        }
        if self.bits & VRAM_ADDRESS_INCREMENT == 0 {
            1
        } else {
            32
        }
    }

    /// Pattern table of 8x8 sprites: $0000 or $1000 (bit 3).
    pub fn sprite_pattern_address(&self) -> (r: u16)
        ensures
            r == if self@ & SPRITE_PATTERN_ADDRESS == 0 { 0u16 } else { 0x1000u16 },
            r == if (self@ >> 3u8) & 1 == 0 { 0u16 } else { 0x1000u16 },
    {
        proof {
            crate::bits::lemma_byte_tests(self.bits);
        }
        if self.bits & SPRITE_PATTERN_ADDRESS == 0 {
            0
        } else {
            0x1000
        }
    }

    /// Pattern table of the background: $0000 or $1000 (bit 4).
    pub fn background_pattern_address(&self) -> (r: u16)
        ensures
            r == if self@ & BACKGROUND_PATTERN_ADDRESS == 0 { 0u16 } else { 0x1000u16 },
            r == if (self@ >> 4u8) & 1 == 0 { 0u16 } else { 0x1000u16 },
    {
        proof {
            crate::bits::lemma_byte_tests(self.bits);
        }
        if self.bits & BACKGROUND_PATTERN_ADDRESS == 0 {
            0
        } else {
            0x1000
        }
    }

    /// Sprite height: 8 or 16 (bit 5).
    pub fn sprite_size(&self) -> (r: u8)
        ensures
            r == if self@ & SPRITE_SIZE == 0 { 8u8 } else { 16u8 },
            r == if (self@ >> 5u8) & 1 == 0 { 8u8 } else { 16u8 },
    {
        proof {
            crate::bits::lemma_byte_tests(self.bits);
        }
        if self.bits & SPRITE_SIZE == 0 {
            8
        } else {
            16
        }
    }

    /// 0 or 1, read from the sprite-size bit (bit 5).
    pub fn master_slave_select(&self) -> (r: u8)
        ensures
            r == if self@ & SPRITE_SIZE == 0 { 0u8 } else { 1u8 },
    {
        if self.bits & SPRITE_SIZE == 0 {
            0
        } else {
            1
        }
    }

    /// Whether an NMI is raised at the start of vblank (bit 7).
    pub fn generate_vblank_nmi(&self) -> (r: bool)
        ensures
            r == (self@ & GENERATE_NMI != 0),
            r == ((self@ >> 7u8) & 1 == 1),
    {
        proof {
            crate::bits::lemma_byte_tests(self.bits);
        }
        self.bits & GENERATE_NMI != 0
    }

    /// Replaces every bit with those of `data`.
    pub fn update(&mut self, data: u8)
        ensures
            final(self)@ == data,
    {
        self.bits = data;
    }
}

} // verus!
