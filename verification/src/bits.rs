use vstd::prelude::*;

verus! {

/// Tests of single bits of a byte, and a right shift, stated arithmetically.
pub proof fn lemma_byte_tests(v: u8)
    by (bit_vector)
    ensures
        (v & 0x80 != 0) == (v >= 128),
        (v >> 7u8 == 1) == (v >= 128),
        (v & 1 != 0) == (v % 2 == 1),
        (v & 1 == 1) == (v & 1 != 0),
        (v & 0x80 == 0x80) == (v >= 128),
        (v & 0x40 != 0) == (v % 128 >= 64),
        v >> 1u8 == v / 2,
        (v >> 1u8) & 0x7f == v / 2,
        v & 0b11 == v % 4,
        (v >> 0u8) & 0b11 == v % 4,
        (v >> 0u8) & 1 == v % 2,
        (v >> 2u8) & 0b11 == (v / 4) % 4,
        (v >> 4u8) & 0b11 == (v / 16) % 4,
        (v >> 6u8) & 0b11 == v / 64,
        v & !1u8 == v & 0xFE,
        v & !4u8 == v & 0xFB,
        v & !8u8 == v & 0xF7,
        v & !0x40u8 == v & 0xBF,
        v & !0x10u8 == v & 0xEF,
        v | 0x10 | 0x20 == v | 0x30,
        (v & 0x2 != 0) == ((v >> 1u8) & 1 == 1),
        (v >> 1u8) & 1 == (v / 2) % 2,
        (v & 0x1 != 0) == ((v >> 0u8) & 1 == 1),
        (v & 0x2 != 0) == ((v >> 1u8) & 1 == 1),
        (v >> 1u8) & 1 == (v / 2) % 2,
        (v & 0x4 != 0) == ((v >> 2u8) & 1 == 1),
        (v >> 2u8) & 1 == (v / 4) % 2,
        (v & 0x8 != 0) == ((v >> 3u8) & 1 == 1),
        (v >> 3u8) & 1 == (v / 8) % 2,
        (v & 0x10 != 0) == ((v >> 4u8) & 1 == 1),
        (v >> 4u8) & 1 == (v / 16) % 2,
        (v & 0x20 != 0) == ((v >> 5u8) & 1 == 1),
        (v >> 5u8) & 1 == (v / 32) % 2,
        (v & 0x40 != 0) == ((v >> 6u8) & 1 == 1),
        (v >> 6u8) & 1 == (v / 64) % 2,
        (v & 0x80 != 0) == ((v >> 7u8) & 1 == 1),
        (v >> 7u8) & 1 == (v / 128) % 2,
{
}

/// The bit tests and one-place shifts of a byte, stated arithmetically.
pub proof fn lemma_byte_bits(v: u8)
    ensures
        (v & 0x80 != 0) == (v >= 128),
        (v >> 7u8 == 1) == (v >= 128),
        (v & 1 != 0) == (v % 2 == 1),
        (v & 0x80 == 0x80) == (v >= 128),
        (v & 0x40 != 0) == (v % 128 >= 64),
        v >> 1u8 == v / 2,
        v << 1u8 == (2 * v) % 256,
        (v >> 1u8) & 0x7f == v / 2,
        (v >> 1u8) | 0x80 == v / 2 + 128,
        (v << 1u8) | 1 == (2 * v + 1) % 256,
{
    lemma_byte_tests(v);
    lemma_shift_left(v);
    lemma_shift_right_set_top(v);
    lemma_shift_left_set_low(v);
}

/// Shifting a byte left by one doubles it modulo 256.
pub proof fn lemma_shift_left(v: u8)
    by (bit_vector)
    ensures
        v << 1u8 == (2 * v) % 256,
{
}

/// Shifting a byte right by one and setting bit 7.
pub proof fn lemma_shift_right_set_top(v: u8)
    by (bit_vector)
    ensures
        (v >> 1u8) | 0x80 == v / 2 + 128,
{
}

/// Shifting a byte left by one and setting bit 0.
pub proof fn lemma_shift_left_set_low(v: u8)
    by (bit_vector)
    ensures
        (v << 1u8) | 1 == (2 * v + 1) % 256,
{
}

/// Setting (`on`) or clearing one flag bit of a byte sets that bit as asked
/// and keeps every other bit.
pub proof fn lemma_flag_bits(p: u8, on: bool)
    by (bit_vector)
    ensures
        ((if on { p | 0x01 } else { p & !0x01u8 }) & 0x01 != 0) == on,
        (if on { p | 0x01 } else { p & !0x01u8 }) & 0xfe == p & 0xfe,
        (if on { p | 0x01 } else { p & !0x01u8 }) & 0x02 == p & 0x02,
        (if on { p | 0x01 } else { p & !0x01u8 }) & 0x40 == p & 0x40,
        (if on { p | 0x01 } else { p & !0x01u8 }) & 0x80 == p & 0x80,
        ((if on { p | 0x02 } else { p & !0x02u8 }) & 0x02 != 0) == on,
        (if on { p | 0x02 } else { p & !0x02u8 }) & 0xfd == p & 0xfd,
        (if on { p | 0x02 } else { p & !0x02u8 }) & 0x01 == p & 0x01,
        (if on { p | 0x02 } else { p & !0x02u8 }) & 0x40 == p & 0x40,
        (if on { p | 0x02 } else { p & !0x02u8 }) & 0x80 == p & 0x80,
        ((if on { p | 0x04 } else { p & !0x04u8 }) & 0x04 != 0) == on,
        (if on { p | 0x04 } else { p & !0x04u8 }) & 0xfb == p & 0xfb,
        (if on { p | 0x04 } else { p & !0x04u8 }) & 0x01 == p & 0x01,
        (if on { p | 0x04 } else { p & !0x04u8 }) & 0x02 == p & 0x02,
        (if on { p | 0x04 } else { p & !0x04u8 }) & 0x40 == p & 0x40,
        (if on { p | 0x04 } else { p & !0x04u8 }) & 0x80 == p & 0x80,
        ((if on { p | 0x08 } else { p & !0x08u8 }) & 0x08 != 0) == on,
        (if on { p | 0x08 } else { p & !0x08u8 }) & 0xf7 == p & 0xf7,
        (if on { p | 0x08 } else { p & !0x08u8 }) & 0x01 == p & 0x01,
        (if on { p | 0x08 } else { p & !0x08u8 }) & 0x02 == p & 0x02,
        (if on { p | 0x08 } else { p & !0x08u8 }) & 0x40 == p & 0x40,
        (if on { p | 0x08 } else { p & !0x08u8 }) & 0x80 == p & 0x80,
        ((if on { p | 0x20 } else { p & !0x20u8 }) & 0x20 != 0) == on,
        (if on { p | 0x20 } else { p & !0x20u8 }) & 0xdf == p & 0xdf,
        (if on { p | 0x20 } else { p & !0x20u8 }) & 0x01 == p & 0x01,
        (if on { p | 0x20 } else { p & !0x20u8 }) & 0x02 == p & 0x02,
        (if on { p | 0x20 } else { p & !0x20u8 }) & 0x40 == p & 0x40,
        (if on { p | 0x20 } else { p & !0x20u8 }) & 0x80 == p & 0x80,
        ((if on { p | 0x40 } else { p & !0x40u8 }) & 0x40 != 0) == on,
        (if on { p | 0x40 } else { p & !0x40u8 }) & 0xbf == p & 0xbf,
        (if on { p | 0x40 } else { p & !0x40u8 }) & 0x01 == p & 0x01,
        (if on { p | 0x40 } else { p & !0x40u8 }) & 0x02 == p & 0x02,
        (if on { p | 0x40 } else { p & !0x40u8 }) & 0x80 == p & 0x80,
        ((if on { p | 0x80 } else { p & !0x80u8 }) & 0x80 != 0) == on,
        (if on { p | 0x80 } else { p & !0x80u8 }) & 0x7f == p & 0x7f,
        (if on { p | 0x80 } else { p & !0x80u8 }) & 0x01 == p & 0x01,
        (if on { p | 0x80 } else { p & !0x80u8 }) & 0x02 == p & 0x02,
        (if on { p | 0x80 } else { p & !0x80u8 }) & 0x40 == p & 0x40,
{
}

/// A little-endian word built from two bytes by shift and or.
pub proof fn lemma_word(lo: u16, hi: u16)
    by (bit_vector)
    requires
        lo < 256,
        hi < 256,
    ensures
        (hi << 8u16) | lo == hi * 256 + lo,
{
}

/// The halves of a word, its low bit, and shifts right by up to seven
/// places.
pub proof fn lemma_split_word(w: u16)
    by (bit_vector)
    ensures
        (w >> 8u16) as u8 == w / 256,
        (w & 0xff) as u8 == w % 256,
        w & 0xff00 == w - w % 256,
        (w & 0x00ff == 0x00ff) == (w % 256 == 255),
        w as u8 == w % 256,
        (w & 1 == 0) == (w % 2 == 0),
        w >> 0u16 == w,
        w >> 1u16 == w / 2,
        w >> 2u16 == w / 4,
        w >> 3u16 == w / 8,
        w >> 4u16 == w / 16,
        w >> 5u16 == w / 32,
        w >> 6u16 == w / 64,
        w >> 7u16 == w / 128,
{
}

/// Truncating a word to a byte keeps its low eight bits.
pub proof fn lemma_low_byte(w: u16)
    ensures
        w as u8 == w % 256,
{
    lemma_split_word(w);
}

/// Shifting a byte right by one and moving a carry bit into bit 7.
pub proof fn lemma_rotate_in(v: u8, c: u8)
    by (bit_vector)
    requires
        c <= 1,
    ensures
        (v >> 1u8) | (c << 7u8) == v / 2 + 128 * c,
{
}

/// The sign bits that decide signed overflow of a sum or difference.
pub proof fn lemma_sign_bits(a: u8, m: u8, r: u8)
    by (bit_vector)
    ensures
        ((a ^ r) & (m ^ r) & 0x80 != 0) == ((a >= 128) == (m >= 128) && (a >= 128) != (r >= 128)),
        ((a ^ r) & (a ^ m) & 0x80 != 0) == ((a >= 128) != (m >= 128) && (a >= 128) != (r >= 128)),
{
}

/// `p & 1 == 1` and `p & 1 != 0` say the same.
pub proof fn lemma_bit0_eq(p: u8)
    ensures
        (p & 1 == 1) == (p & 1 != 0),
{
    lemma_byte_tests(p);
}

} // verus!
