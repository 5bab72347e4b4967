use vstd::prelude::*;

verus! {

/// PPUMASK ($2001): greyscale, left-column clipping, layer enables and colour
/// emphasis.
pub struct MaskRegister {
    bits: u8,
}

pub const GREYSCALE: u8 = 0b0000_0001;
pub const LEFTMOST_8PIXEL_BACKGROUND: u8 = 0b0000_0010;
pub const LEFTMOST_8PIXEL_SPRITE: u8 = 0b0000_0100;
pub const SHOW_BACKGROUND: u8 = 0b0000_1000;
pub const SHOW_SPRITES: u8 = 0b0001_0000;
pub const EMPHASIZE_RED: u8 = 0b0010_0000;
pub const EMPHASIZE_GREEN: u8 = 0b0100_0000;
pub const EMPHASIZE_BLUE: u8 = 0b1000_0000;

impl View for MaskRegister {
    type V = u8;

    closed spec fn view(&self) -> u8 {
        self.bits
    }
}

impl MaskRegister {
    pub fn new() -> (r: Self)
        ensures
            r@ == 0,
    {
        MaskRegister { bits: 0 }
    }

    pub fn from_bits_truncate(data: u8) -> (r: Self)
        ensures
            r@ == data,
    {
        MaskRegister { bits: data }
    }

    pub fn bits(&self) -> (r: u8)
        ensures
            r == self@,
    {
        self.bits
    }

    pub fn is_greyscale(&self) -> (r: bool)
        ensures
            r == (self@ & GREYSCALE != 0),
            r == ((self@ >> 0u8) & 1 == 1),
    {
        proof {
            crate::bits::lemma_byte_tests(self.bits);
        }
        self.bits & GREYSCALE != 0
    }

    pub fn leftmost_8pixel_background(&self) -> (r: bool)
        ensures
            r == (self@ & LEFTMOST_8PIXEL_BACKGROUND != 0),
            r == ((self@ >> 1u8) & 1 == 1),
    {
        proof {
            crate::bits::lemma_byte_tests(self.bits);
        }
        self.bits & LEFTMOST_8PIXEL_BACKGROUND != 0
    }

    pub fn leftmost_8pixel_sprite(&self) -> (r: bool)
        ensures
            r == (self@ & LEFTMOST_8PIXEL_SPRITE != 0),
            r == ((self@ >> 2u8) & 1 == 1),
    {
        proof {
            crate::bits::lemma_byte_tests(self.bits);
        }
        self.bits & LEFTMOST_8PIXEL_SPRITE != 0
    }

    pub fn show_background(&self) -> (r: bool)
        ensures
            r == (self@ & SHOW_BACKGROUND != 0),
            r == ((self@ >> 3u8) & 1 == 1),
    {
        proof {
            crate::bits::lemma_byte_tests(self.bits);
        }
        self.bits & SHOW_BACKGROUND != 0
    }

    pub fn show_sprites(&self) -> (r: bool)
        ensures
            r == (self@ & SHOW_SPRITES != 0),
            r == ((self@ >> 4u8) & 1 == 1),
    {
        proof {
            crate::bits::lemma_byte_tests(self.bits);
        }
        self.bits & SHOW_SPRITES != 0
    }

    /// Red, green and blue emphasis bits (5, 6, 7).
    pub fn emphasis(&self) -> (r: (bool, bool, bool))
        ensures
            r == (self@ & EMPHASIZE_RED != 0, self@ & EMPHASIZE_GREEN != 0, self@ & EMPHASIZE_BLUE != 0),
            r == ((self@ >> 5u8) & 1 == 1, (self@ >> 6u8) & 1 == 1, (self@ >> 7u8) & 1 == 1),
    {
        proof {
            crate::bits::lemma_byte_tests(self.bits);
        }
        (
            self.bits & EMPHASIZE_RED != 0,
            self.bits & EMPHASIZE_GREEN != 0,
            self.bits & EMPHASIZE_BLUE != 0,
        )
    }

    pub fn update(&mut self, data: u8)
        ensures
            final(self)@ == data,
    {
        self.bits = data;
    }
}

} // verus!
