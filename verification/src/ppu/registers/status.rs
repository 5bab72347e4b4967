use vstd::prelude::*;

verus! {

/// PPUSTATUS ($2002): sprite overflow, sprite-0 hit and vblank.
pub struct StatusRegister {
    bits: u8,
}

pub const SPRITE_OVERFLOW: u8 = 0b0010_0000;
pub const SPRITE_ZERO_HIT: u8 = 0b0100_0000;
pub const VBLANK_STARTED: u8 = 0b1000_0000;

impl View for StatusRegister {
    type V = u8;

    closed spec fn view(&self) -> u8 {
        self.bits
    }
}

/// `v` with the bits of `mask` set when `on`, cleared otherwise.
pub open spec fn with_bit(v: u8, mask: u8, on: bool) -> u8 {
    if on {
        v | mask
    } else {
        v & !mask
    }
}

impl StatusRegister {
    pub fn new() -> (r: StatusRegister)
        ensures
            r@ == 0,
    {
        StatusRegister { bits: 0 }
    }

    pub fn from_bits_truncate(data: u8) -> (r: Self)
        ensures
            r@ == data,
    {
        StatusRegister { bits: data }
    }

    pub fn bits(&self) -> (r: u8)
        ensures
            r == self@,
    {
        self.bits
    }

    pub fn set_vblank_status(&mut self, status: bool)
        ensures
            final(self)@ == with_bit(old(self)@, VBLANK_STARTED, status),
            ((final(self)@ >> 7u8) & 1 == 1) == status,
            final(self)@ & 127 == old(self)@ & 127,
    {
        let ghost b = self.bits;
        self.set(VBLANK_STARTED, status);
        proof {
            crate::bits::lemma_flag_bits(b, status);
            crate::bits::lemma_byte_tests(self.bits);
        }
    }

    pub fn set_sprite_zero_hit(&mut self, status: bool)
        ensures
            final(self)@ == with_bit(old(self)@, SPRITE_ZERO_HIT, status),
            ((final(self)@ >> 6u8) & 1 == 1) == status,
            final(self)@ & 191 == old(self)@ & 191,
    {
        let ghost b = self.bits;
        self.set(SPRITE_ZERO_HIT, status);
        proof {
            crate::bits::lemma_flag_bits(b, status);
            crate::bits::lemma_byte_tests(self.bits);
        }
    }

    pub fn set_sprite_overflow(&mut self, status: bool)
        ensures
            final(self)@ == with_bit(old(self)@, SPRITE_OVERFLOW, status),
            ((final(self)@ >> 5u8) & 1 == 1) == status,
            final(self)@ & 223 == old(self)@ & 223,
    {
        let ghost b = self.bits;
        self.set(SPRITE_OVERFLOW, status);
        proof {
            crate::bits::lemma_flag_bits(b, status);
            crate::bits::lemma_byte_tests(self.bits);
        }
    }

    pub fn reset_vblank_status(&mut self)
        ensures
            final(self)@ == old(self)@ & !VBLANK_STARTED,
    {
        self.bits = self.bits & !VBLANK_STARTED;
    }

    pub fn is_in_vblank(&mut self) -> (r: bool)
        ensures
            r == (old(self)@ & VBLANK_STARTED != 0),
            final(self)@ == old(self)@,
    {
        self.bits & VBLANK_STARTED != 0
    }

    /// Sets or clears the bits of `mask`.
    pub fn set(&mut self, mask: u8, value: bool)
        ensures
            final(self)@ == with_bit(old(self)@, mask, value),
    {
        if value {
            self.bits = self.bits | mask;
        } else {
            self.bits = self.bits & !mask;
        }
    }
}

} // verus!
