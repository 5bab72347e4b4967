use vstd::prelude::*;

use super::AddressingMode;

verus! {

/// The instruction of an opcode.
#[derive(Clone, Copy, PartialEq, Eq, Structural, Debug)]
pub enum Op {
    Adc,
    Anc,
    And,
    Asl,
    AslAccumulator,
    Bcc,
    Bcs,
    Beq,
    Bit,
    Bmi,
    Bne,
    Bpl,
    Brk,
    Bvc,
    Bvs,
    Clc,
    Cld,
    Cli,
    Clv,
    Cmp,
    Cpx,
    Cpy,
    Dcp,
    Dec,
    Dex,
    Dey,
    Eor,
    Hlt,
    Inc,
    Inx,
    Iny,
    Isb,
    Jmp,
    Jsr,
    Lax,
    Lda,
    Ldx,
    Ldy,
    Lsr,
    LsrAccumulator,
    Nop,
    Ora,
    Pha,
    Php,
    Pla,
    Plp,
    Rla,
    Rol,
    RolAccumulator,
    Ror,
    RorAccumulator,
    Rra,
    Rti,
    Rts,
    Sax,
    Sbc,
    Sec,
    Sed,
    Sei,
    Slo,
    Sre,
    Sta,
    Stx,
    Sty,
    Tax,
    Tay,
    Tsx,
    Txa,
    Txs,
    Tya,
    Unsupported,
}

/// What the decoder knows of an opcode: the instruction, its addressing mode,
/// the number of operand bytes, the base cycle count and whether an indexed
/// read pays a cycle for crossing a page.
#[derive(Clone, Copy, PartialEq, Eq, Structural, Debug)]
pub struct Decoded {
    pub op: Op,
    pub mode: AddressingMode,
    pub len: u8,
    pub cycles: u8,
    pub penalty: bool,
}

/// The opcode table of the NMOS 6502, including the stable undocumented
/// instructions.
#[verifier::opaque]
pub open spec fn decode_spec(opcode: u8) -> Decoded {
    match opcode {
        0x00 => Decoded { op: Op::Brk, mode: AddressingMode::Implied, len: 0, cycles: 7, penalty: false },
        0x01 => Decoded { op: Op::Ora, mode: AddressingMode::IndirectX, len: 1, cycles: 6, penalty: false },
        0x02 => Decoded { op: Op::Hlt, mode: AddressingMode::Implied, len: 0, cycles: 2, penalty: false },
        0x03 => Decoded { op: Op::Slo, mode: AddressingMode::IndirectX, len: 1, cycles: 8, penalty: false },
        0x04 => Decoded { op: Op::Nop, mode: AddressingMode::ZeroPage, len: 1, cycles: 3, penalty: false },
        0x05 => Decoded { op: Op::Ora, mode: AddressingMode::ZeroPage, len: 1, cycles: 3, penalty: false },
        0x06 => Decoded { op: Op::Asl, mode: AddressingMode::ZeroPage, len: 1, cycles: 5, penalty: false },
        0x07 => Decoded { op: Op::Slo, mode: AddressingMode::ZeroPage, len: 1, cycles: 5, penalty: false },
        0x08 => Decoded { op: Op::Php, mode: AddressingMode::Implied, len: 0, cycles: 3, penalty: false },
        0x09 => Decoded { op: Op::Ora, mode: AddressingMode::Immediate, len: 1, cycles: 2, penalty: false },
        0x0A => Decoded { op: Op::AslAccumulator, mode: AddressingMode::Accumulator, len: 0, cycles: 2, penalty: false },
        0x0B => Decoded { op: Op::Anc, mode: AddressingMode::Immediate, len: 1, cycles: 2, penalty: false },
        0x0C => Decoded { op: Op::Nop, mode: AddressingMode::Absolute, len: 2, cycles: 4, penalty: false },
        0x0D => Decoded { op: Op::Ora, mode: AddressingMode::Absolute, len: 2, cycles: 4, penalty: false },
        0x0E => Decoded { op: Op::Asl, mode: AddressingMode::Absolute, len: 2, cycles: 6, penalty: false },
        0x0F => Decoded { op: Op::Slo, mode: AddressingMode::Absolute, len: 2, cycles: 6, penalty: false },
        0x10 => Decoded { op: Op::Bpl, mode: AddressingMode::Relative, len: 1, cycles: 2, penalty: false },
        0x11 => Decoded { op: Op::Ora, mode: AddressingMode::IndirectY, len: 1, cycles: 5, penalty: true },
        0x12 => Decoded { op: Op::Hlt, mode: AddressingMode::Implied, len: 0, cycles: 2, penalty: false },
        0x13 => Decoded { op: Op::Slo, mode: AddressingMode::IndirectY, len: 1, cycles: 8, penalty: false },
        0x14 => Decoded { op: Op::Nop, mode: AddressingMode::ZeroPageX, len: 1, cycles: 4, penalty: false },
        0x15 => Decoded { op: Op::Ora, mode: AddressingMode::ZeroPageX, len: 1, cycles: 4, penalty: false },
        0x16 => Decoded { op: Op::Asl, mode: AddressingMode::ZeroPageX, len: 1, cycles: 6, penalty: false },
        0x17 => Decoded { op: Op::Slo, mode: AddressingMode::ZeroPageX, len: 1, cycles: 6, penalty: false },
        0x18 => Decoded { op: Op::Clc, mode: AddressingMode::Implied, len: 0, cycles: 2, penalty: false },
        0x19 => Decoded { op: Op::Ora, mode: AddressingMode::AbsoluteY, len: 2, cycles: 4, penalty: true },
        0x1A => Decoded { op: Op::Nop, mode: AddressingMode::Implied, len: 0, cycles: 2, penalty: false },
        0x1B => Decoded { op: Op::Slo, mode: AddressingMode::AbsoluteY, len: 2, cycles: 7, penalty: false },
        0x1C => Decoded { op: Op::Nop, mode: AddressingMode::AbsoluteX, len: 2, cycles: 4, penalty: true },
        0x1D => Decoded { op: Op::Ora, mode: AddressingMode::AbsoluteX, len: 2, cycles: 4, penalty: true },
        0x1E => Decoded { op: Op::Asl, mode: AddressingMode::AbsoluteX, len: 2, cycles: 7, penalty: false },
        0x1F => Decoded { op: Op::Slo, mode: AddressingMode::AbsoluteX, len: 2, cycles: 7, penalty: false },
        0x20 => Decoded { op: Op::Jsr, mode: AddressingMode::Absolute, len: 2, cycles: 6, penalty: false },
        0x21 => Decoded { op: Op::And, mode: AddressingMode::IndirectX, len: 1, cycles: 6, penalty: false },
        0x22 => Decoded { op: Op::Hlt, mode: AddressingMode::Implied, len: 0, cycles: 2, penalty: false },
        0x23 => Decoded { op: Op::Rla, mode: AddressingMode::IndirectX, len: 1, cycles: 8, penalty: false },
        0x24 => Decoded { op: Op::Bit, mode: AddressingMode::ZeroPage, len: 1, cycles: 3, penalty: false },
        0x25 => Decoded { op: Op::And, mode: AddressingMode::ZeroPage, len: 1, cycles: 3, penalty: false },
        0x26 => Decoded { op: Op::Rol, mode: AddressingMode::ZeroPage, len: 1, cycles: 5, penalty: false },
        0x27 => Decoded { op: Op::Rla, mode: AddressingMode::ZeroPage, len: 1, cycles: 5, penalty: false },
        0x28 => Decoded { op: Op::Plp, mode: AddressingMode::Implied, len: 0, cycles: 4, penalty: false },
        0x29 => Decoded { op: Op::And, mode: AddressingMode::Immediate, len: 1, cycles: 2, penalty: false },
        0x2A => Decoded { op: Op::RolAccumulator, mode: AddressingMode::Accumulator, len: 0, cycles: 2, penalty: false },
        0x2B => Decoded { op: Op::Anc, mode: AddressingMode::Immediate, len: 1, cycles: 2, penalty: false },
        0x2C => Decoded { op: Op::Bit, mode: AddressingMode::Absolute, len: 2, cycles: 4, penalty: false },
        0x2D => Decoded { op: Op::And, mode: AddressingMode::Absolute, len: 2, cycles: 4, penalty: false },
        0x2E => Decoded { op: Op::Rol, mode: AddressingMode::Absolute, len: 2, cycles: 6, penalty: false },
        0x2F => Decoded { op: Op::Rla, mode: AddressingMode::Absolute, len: 2, cycles: 6, penalty: false },
        0x30 => Decoded { op: Op::Bmi, mode: AddressingMode::Relative, len: 1, cycles: 2, penalty: false },
        0x31 => Decoded { op: Op::And, mode: AddressingMode::IndirectY, len: 1, cycles: 5, penalty: true },
        0x32 => Decoded { op: Op::Hlt, mode: AddressingMode::Implied, len: 0, cycles: 2, penalty: false },
        0x33 => Decoded { op: Op::Rla, mode: AddressingMode::IndirectY, len: 1, cycles: 8, penalty: false },
        0x34 => Decoded { op: Op::Nop, mode: AddressingMode::ZeroPageX, len: 1, cycles: 4, penalty: false },
        0x35 => Decoded { op: Op::And, mode: AddressingMode::ZeroPageX, len: 1, cycles: 4, penalty: false },
        0x36 => Decoded { op: Op::Rol, mode: AddressingMode::ZeroPageX, len: 1, cycles: 6, penalty: false },
        0x37 => Decoded { op: Op::Rla, mode: AddressingMode::ZeroPageX, len: 1, cycles: 6, penalty: false },
        0x38 => Decoded { op: Op::Sec, mode: AddressingMode::Implied, len: 0, cycles: 2, penalty: false },
        0x39 => Decoded { op: Op::And, mode: AddressingMode::AbsoluteY, len: 2, cycles: 4, penalty: true },
        0x3A => Decoded { op: Op::Nop, mode: AddressingMode::Implied, len: 0, cycles: 2, penalty: false },
        0x3B => Decoded { op: Op::Rla, mode: AddressingMode::AbsoluteY, len: 2, cycles: 7, penalty: false },
        0x3C => Decoded { op: Op::Nop, mode: AddressingMode::AbsoluteX, len: 2, cycles: 4, penalty: true },
        0x3D => Decoded { op: Op::And, mode: AddressingMode::AbsoluteX, len: 2, cycles: 4, penalty: true },
        0x3E => Decoded { op: Op::Rol, mode: AddressingMode::AbsoluteX, len: 2, cycles: 7, penalty: false },
        0x3F => Decoded { op: Op::Rla, mode: AddressingMode::AbsoluteX, len: 2, cycles: 7, penalty: false },
        0x40 => Decoded { op: Op::Rti, mode: AddressingMode::Implied, len: 0, cycles: 6, penalty: false },
        0x41 => Decoded { op: Op::Eor, mode: AddressingMode::IndirectX, len: 1, cycles: 6, penalty: false },
        0x42 => Decoded { op: Op::Hlt, mode: AddressingMode::Implied, len: 0, cycles: 2, penalty: false },
        0x43 => Decoded { op: Op::Sre, mode: AddressingMode::IndirectX, len: 1, cycles: 8, penalty: false },
        0x44 => Decoded { op: Op::Nop, mode: AddressingMode::ZeroPage, len: 1, cycles: 3, penalty: false },
        0x45 => Decoded { op: Op::Eor, mode: AddressingMode::ZeroPage, len: 1, cycles: 3, penalty: false },
        0x46 => Decoded { op: Op::Lsr, mode: AddressingMode::ZeroPage, len: 1, cycles: 5, penalty: false },
        0x47 => Decoded { op: Op::Sre, mode: AddressingMode::ZeroPage, len: 1, cycles: 5, penalty: false },
        0x48 => Decoded { op: Op::Pha, mode: AddressingMode::Implied, len: 0, cycles: 3, penalty: false },
        0x49 => Decoded { op: Op::Eor, mode: AddressingMode::Immediate, len: 1, cycles: 2, penalty: false },
        0x4A => Decoded { op: Op::LsrAccumulator, mode: AddressingMode::Accumulator, len: 0, cycles: 2, penalty: false },
        0x4B => Decoded { op: Op::Unsupported, mode: AddressingMode::Implied, len: 0, cycles: 2, penalty: false },
        0x4C => Decoded { op: Op::Jmp, mode: AddressingMode::Absolute, len: 2, cycles: 3, penalty: false },
        0x4D => Decoded { op: Op::Eor, mode: AddressingMode::Absolute, len: 2, cycles: 4, penalty: false },
        0x4E => Decoded { op: Op::Lsr, mode: AddressingMode::Absolute, len: 2, cycles: 6, penalty: false },
        0x4F => Decoded { op: Op::Sre, mode: AddressingMode::Absolute, len: 2, cycles: 6, penalty: false },
        0x50 => Decoded { op: Op::Bvc, mode: AddressingMode::Relative, len: 1, cycles: 2, penalty: false },
        0x51 => Decoded { op: Op::Eor, mode: AddressingMode::IndirectY, len: 1, cycles: 5, penalty: true },
        0x52 => Decoded { op: Op::Hlt, mode: AddressingMode::Implied, len: 0, cycles: 2, penalty: false },
        0x53 => Decoded { op: Op::Sre, mode: AddressingMode::IndirectY, len: 1, cycles: 8, penalty: false },
        0x54 => Decoded { op: Op::Nop, mode: AddressingMode::ZeroPageX, len: 1, cycles: 4, penalty: false },
        0x55 => Decoded { op: Op::Eor, mode: AddressingMode::ZeroPageX, len: 1, cycles: 4, penalty: false },
        0x56 => Decoded { op: Op::Lsr, mode: AddressingMode::ZeroPageX, len: 1, cycles: 6, penalty: false },
        0x57 => Decoded { op: Op::Sre, mode: AddressingMode::ZeroPageX, len: 1, cycles: 6, penalty: false },
        0x58 => Decoded { op: Op::Cli, mode: AddressingMode::Implied, len: 0, cycles: 2, penalty: false },
        0x59 => Decoded { op: Op::Eor, mode: AddressingMode::AbsoluteY, len: 2, cycles: 4, penalty: true },
        0x5A => Decoded { op: Op::Nop, mode: AddressingMode::Implied, len: 0, cycles: 2, penalty: false },
        0x5B => Decoded { op: Op::Sre, mode: AddressingMode::AbsoluteY, len: 2, cycles: 7, penalty: false },
        0x5C => Decoded { op: Op::Nop, mode: AddressingMode::AbsoluteX, len: 2, cycles: 4, penalty: true },
        0x5D => Decoded { op: Op::Eor, mode: AddressingMode::AbsoluteX, len: 2, cycles: 4, penalty: true },
        0x5E => Decoded { op: Op::Lsr, mode: AddressingMode::AbsoluteX, len: 2, cycles: 7, penalty: false },
        0x5F => Decoded { op: Op::Sre, mode: AddressingMode::AbsoluteX, len: 2, cycles: 7, penalty: false },
        0x60 => Decoded { op: Op::Rts, mode: AddressingMode::Implied, len: 0, cycles: 6, penalty: false },
        0x61 => Decoded { op: Op::Adc, mode: AddressingMode::IndirectX, len: 1, cycles: 6, penalty: false },
        0x62 => Decoded { op: Op::Hlt, mode: AddressingMode::Implied, len: 0, cycles: 2, penalty: false },
        0x63 => Decoded { op: Op::Rra, mode: AddressingMode::IndirectX, len: 1, cycles: 8, penalty: false },
        0x64 => Decoded { op: Op::Nop, mode: AddressingMode::ZeroPage, len: 1, cycles: 3, penalty: false },
        0x65 => Decoded { op: Op::Adc, mode: AddressingMode::ZeroPage, len: 1, cycles: 3, penalty: false },
        0x66 => Decoded { op: Op::Ror, mode: AddressingMode::ZeroPage, len: 1, cycles: 5, penalty: false },
        0x67 => Decoded { op: Op::Rra, mode: AddressingMode::ZeroPage, len: 1, cycles: 5, penalty: false },
        0x68 => Decoded { op: Op::Pla, mode: AddressingMode::Implied, len: 0, cycles: 4, penalty: false },
        0x69 => Decoded { op: Op::Adc, mode: AddressingMode::Immediate, len: 1, cycles: 2, penalty: false },
        0x6A => Decoded { op: Op::RorAccumulator, mode: AddressingMode::Accumulator, len: 0, cycles: 2, penalty: false },
        0x6B => Decoded { op: Op::Unsupported, mode: AddressingMode::Implied, len: 0, cycles: 2, penalty: false },
        0x6C => Decoded { op: Op::Jmp, mode: AddressingMode::Indirect, len: 2, cycles: 5, penalty: false },
        0x6D => Decoded { op: Op::Adc, mode: AddressingMode::Absolute, len: 2, cycles: 4, penalty: false },
        0x6E => Decoded { op: Op::Ror, mode: AddressingMode::Absolute, len: 2, cycles: 6, penalty: false },
        0x6F => Decoded { op: Op::Rra, mode: AddressingMode::Absolute, len: 2, cycles: 6, penalty: false },
        0x70 => Decoded { op: Op::Bvs, mode: AddressingMode::Relative, len: 1, cycles: 2, penalty: false },
        0x71 => Decoded { op: Op::Adc, mode: AddressingMode::IndirectY, len: 1, cycles: 5, penalty: true },
        0x72 => Decoded { op: Op::Hlt, mode: AddressingMode::Implied, len: 0, cycles: 2, penalty: false },
        0x73 => Decoded { op: Op::Rra, mode: AddressingMode::IndirectY, len: 1, cycles: 8, penalty: false },
        0x74 => Decoded { op: Op::Nop, mode: AddressingMode::ZeroPageX, len: 1, cycles: 4, penalty: false },
        0x75 => Decoded { op: Op::Adc, mode: AddressingMode::ZeroPageX, len: 1, cycles: 4, penalty: false },
        0x76 => Decoded { op: Op::Ror, mode: AddressingMode::ZeroPageX, len: 1, cycles: 6, penalty: false },
        0x77 => Decoded { op: Op::Rra, mode: AddressingMode::ZeroPageX, len: 1, cycles: 6, penalty: false },
        0x78 => Decoded { op: Op::Sei, mode: AddressingMode::Implied, len: 0, cycles: 2, penalty: false },
        0x79 => Decoded { op: Op::Adc, mode: AddressingMode::AbsoluteY, len: 2, cycles: 4, penalty: true },
        0x7A => Decoded { op: Op::Nop, mode: AddressingMode::Implied, len: 0, cycles: 2, penalty: false },
        0x7B => Decoded { op: Op::Rra, mode: AddressingMode::AbsoluteY, len: 2, cycles: 7, penalty: false },
        0x7C => Decoded { op: Op::Nop, mode: AddressingMode::AbsoluteX, len: 2, cycles: 4, penalty: true },
        0x7D => Decoded { op: Op::Adc, mode: AddressingMode::AbsoluteX, len: 2, cycles: 4, penalty: true },
        0x7E => Decoded { op: Op::Ror, mode: AddressingMode::AbsoluteX, len: 2, cycles: 7, penalty: false },
        0x7F => Decoded { op: Op::Rra, mode: AddressingMode::AbsoluteX, len: 2, cycles: 7, penalty: false },
        0x80 => Decoded { op: Op::Nop, mode: AddressingMode::Immediate, len: 1, cycles: 2, penalty: false },
        0x81 => Decoded { op: Op::Sta, mode: AddressingMode::IndirectX, len: 1, cycles: 6, penalty: false },
        0x82 => Decoded { op: Op::Nop, mode: AddressingMode::Immediate, len: 1, cycles: 2, penalty: false },
        0x83 => Decoded { op: Op::Sax, mode: AddressingMode::IndirectX, len: 1, cycles: 6, penalty: false },
        0x84 => Decoded { op: Op::Sty, mode: AddressingMode::ZeroPage, len: 1, cycles: 3, penalty: false },
        0x85 => Decoded { op: Op::Sta, mode: AddressingMode::ZeroPage, len: 1, cycles: 3, penalty: false },
        0x86 => Decoded { op: Op::Stx, mode: AddressingMode::ZeroPage, len: 1, cycles: 3, penalty: false },
        0x87 => Decoded { op: Op::Sax, mode: AddressingMode::ZeroPage, len: 1, cycles: 3, penalty: false },
        0x88 => Decoded { op: Op::Dey, mode: AddressingMode::Implied, len: 0, cycles: 2, penalty: false },
        0x89 => Decoded { op: Op::Nop, mode: AddressingMode::Immediate, len: 1, cycles: 2, penalty: false },
        0x8A => Decoded { op: Op::Txa, mode: AddressingMode::Implied, len: 0, cycles: 2, penalty: false },
        0x8B => Decoded { op: Op::Unsupported, mode: AddressingMode::Implied, len: 0, cycles: 2, penalty: false },
        0x8C => Decoded { op: Op::Sty, mode: AddressingMode::Absolute, len: 2, cycles: 4, penalty: false },
        0x8D => Decoded { op: Op::Sta, mode: AddressingMode::Absolute, len: 2, cycles: 4, penalty: false },
        0x8E => Decoded { op: Op::Stx, mode: AddressingMode::Absolute, len: 2, cycles: 4, penalty: false },
        0x8F => Decoded { op: Op::Sax, mode: AddressingMode::Absolute, len: 2, cycles: 4, penalty: false },
        0x90 => Decoded { op: Op::Bcc, mode: AddressingMode::Relative, len: 1, cycles: 2, penalty: false },
        0x91 => Decoded { op: Op::Sta, mode: AddressingMode::IndirectY, len: 1, cycles: 6, penalty: false },
        0x92 => Decoded { op: Op::Hlt, mode: AddressingMode::Implied, len: 0, cycles: 2, penalty: false },
        0x93 => Decoded { op: Op::Unsupported, mode: AddressingMode::Implied, len: 0, cycles: 2, penalty: false },
        0x94 => Decoded { op: Op::Sty, mode: AddressingMode::ZeroPageX, len: 1, cycles: 4, penalty: false },
        0x95 => Decoded { op: Op::Sta, mode: AddressingMode::ZeroPageX, len: 1, cycles: 4, penalty: false },
        0x96 => Decoded { op: Op::Stx, mode: AddressingMode::ZeroPageY, len: 1, cycles: 4, penalty: false },
        0x97 => Decoded { op: Op::Sax, mode: AddressingMode::ZeroPageY, len: 1, cycles: 4, penalty: false },
        0x98 => Decoded { op: Op::Tya, mode: AddressingMode::Implied, len: 0, cycles: 2, penalty: false },
        0x99 => Decoded { op: Op::Sta, mode: AddressingMode::AbsoluteY, len: 2, cycles: 5, penalty: false },
        0x9A => Decoded { op: Op::Txs, mode: AddressingMode::Implied, len: 0, cycles: 2, penalty: false },
        0x9B => Decoded { op: Op::Unsupported, mode: AddressingMode::Implied, len: 0, cycles: 2, penalty: false },
        0x9C => Decoded { op: Op::Unsupported, mode: AddressingMode::Implied, len: 0, cycles: 2, penalty: false },
        0x9D => Decoded { op: Op::Sta, mode: AddressingMode::AbsoluteX, len: 2, cycles: 5, penalty: false },
        0x9E => Decoded { op: Op::Unsupported, mode: AddressingMode::Implied, len: 0, cycles: 2, penalty: false },
        0x9F => Decoded { op: Op::Unsupported, mode: AddressingMode::Implied, len: 0, cycles: 2, penalty: false },
        0xA0 => Decoded { op: Op::Ldy, mode: AddressingMode::Immediate, len: 1, cycles: 2, penalty: false },
        0xA1 => Decoded { op: Op::Lda, mode: AddressingMode::IndirectX, len: 1, cycles: 6, penalty: false },
        0xA2 => Decoded { op: Op::Ldx, mode: AddressingMode::Immediate, len: 1, cycles: 2, penalty: false },
        0xA3 => Decoded { op: Op::Lax, mode: AddressingMode::IndirectX, len: 1, cycles: 6, penalty: false },
        0xA4 => Decoded { op: Op::Ldy, mode: AddressingMode::ZeroPage, len: 1, cycles: 3, penalty: false },
        0xA5 => Decoded { op: Op::Lda, mode: AddressingMode::ZeroPage, len: 1, cycles: 3, penalty: false },
        0xA6 => Decoded { op: Op::Ldx, mode: AddressingMode::ZeroPage, len: 1, cycles: 3, penalty: false },
        0xA7 => Decoded { op: Op::Lax, mode: AddressingMode::ZeroPage, len: 1, cycles: 3, penalty: false },
        0xA8 => Decoded { op: Op::Tay, mode: AddressingMode::Implied, len: 0, cycles: 2, penalty: false },
        0xA9 => Decoded { op: Op::Lda, mode: AddressingMode::Immediate, len: 1, cycles: 2, penalty: false },
        0xAA => Decoded { op: Op::Tax, mode: AddressingMode::Implied, len: 0, cycles: 2, penalty: false },
        0xAB => Decoded { op: Op::Unsupported, mode: AddressingMode::Implied, len: 0, cycles: 2, penalty: false },
        0xAC => Decoded { op: Op::Ldy, mode: AddressingMode::Absolute, len: 2, cycles: 4, penalty: false },
        0xAD => Decoded { op: Op::Lda, mode: AddressingMode::Absolute, len: 2, cycles: 4, penalty: false },
        0xAE => Decoded { op: Op::Ldx, mode: AddressingMode::Absolute, len: 2, cycles: 4, penalty: false },
        0xAF => Decoded { op: Op::Lax, mode: AddressingMode::Absolute, len: 2, cycles: 4, penalty: false },
        0xB0 => Decoded { op: Op::Bcs, mode: AddressingMode::Relative, len: 1, cycles: 2, penalty: false },
        0xB1 => Decoded { op: Op::Lda, mode: AddressingMode::IndirectY, len: 1, cycles: 5, penalty: true },
        0xB2 => Decoded { op: Op::Hlt, mode: AddressingMode::Implied, len: 0, cycles: 2, penalty: false },
        0xB3 => Decoded { op: Op::Lax, mode: AddressingMode::IndirectY, len: 1, cycles: 5, penalty: true },
        0xB4 => Decoded { op: Op::Ldy, mode: AddressingMode::ZeroPageX, len: 1, cycles: 4, penalty: false },
        0xB5 => Decoded { op: Op::Lda, mode: AddressingMode::ZeroPageX, len: 1, cycles: 4, penalty: false },
        0xB6 => Decoded { op: Op::Ldx, mode: AddressingMode::ZeroPageY, len: 1, cycles: 4, penalty: false },
        0xB7 => Decoded { op: Op::Lax, mode: AddressingMode::ZeroPageY, len: 1, cycles: 4, penalty: false },
        0xB8 => Decoded { op: Op::Clv, mode: AddressingMode::Implied, len: 0, cycles: 2, penalty: false },
        0xB9 => Decoded { op: Op::Lda, mode: AddressingMode::AbsoluteY, len: 2, cycles: 4, penalty: true },
        0xBA => Decoded { op: Op::Tsx, mode: AddressingMode::Implied, len: 0, cycles: 2, penalty: false },
        0xBB => Decoded { op: Op::Unsupported, mode: AddressingMode::Implied, len: 0, cycles: 2, penalty: false },
        0xBC => Decoded { op: Op::Ldy, mode: AddressingMode::AbsoluteX, len: 2, cycles: 4, penalty: true },
        0xBD => Decoded { op: Op::Lda, mode: AddressingMode::AbsoluteX, len: 2, cycles: 4, penalty: true },
        0xBE => Decoded { op: Op::Ldx, mode: AddressingMode::AbsoluteY, len: 2, cycles: 4, penalty: true },
        0xBF => Decoded { op: Op::Lax, mode: AddressingMode::AbsoluteY, len: 2, cycles: 4, penalty: true },
        0xC0 => Decoded { op: Op::Cpy, mode: AddressingMode::Immediate, len: 1, cycles: 2, penalty: false },
        0xC1 => Decoded { op: Op::Cmp, mode: AddressingMode::IndirectX, len: 1, cycles: 6, penalty: false },
        0xC2 => Decoded { op: Op::Nop, mode: AddressingMode::Immediate, len: 1, cycles: 2, penalty: false },
        0xC3 => Decoded { op: Op::Dcp, mode: AddressingMode::IndirectX, len: 1, cycles: 8, penalty: false },
        0xC4 => Decoded { op: Op::Cpy, mode: AddressingMode::ZeroPage, len: 1, cycles: 3, penalty: false },
        0xC5 => Decoded { op: Op::Cmp, mode: AddressingMode::ZeroPage, len: 1, cycles: 3, penalty: false },
        0xC6 => Decoded { op: Op::Dec, mode: AddressingMode::ZeroPage, len: 1, cycles: 5, penalty: false },
        0xC7 => Decoded { op: Op::Dcp, mode: AddressingMode::ZeroPage, len: 1, cycles: 5, penalty: false },
        0xC8 => Decoded { op: Op::Iny, mode: AddressingMode::Implied, len: 0, cycles: 2, penalty: false },
        0xC9 => Decoded { op: Op::Cmp, mode: AddressingMode::Immediate, len: 1, cycles: 2, penalty: false },
        0xCA => Decoded { op: Op::Dex, mode: AddressingMode::Implied, len: 0, cycles: 2, penalty: false },
        0xCB => Decoded { op: Op::Unsupported, mode: AddressingMode::Implied, len: 0, cycles: 2, penalty: false },
        0xCC => Decoded { op: Op::Cpy, mode: AddressingMode::Absolute, len: 2, cycles: 4, penalty: false },
        0xCD => Decoded { op: Op::Cmp, mode: AddressingMode::Absolute, len: 2, cycles: 4, penalty: false },
        0xCE => Decoded { op: Op::Dec, mode: AddressingMode::Absolute, len: 2, cycles: 6, penalty: false },
        0xCF => Decoded { op: Op::Dcp, mode: AddressingMode::Absolute, len: 2, cycles: 6, penalty: false },
        0xD0 => Decoded { op: Op::Bne, mode: AddressingMode::Relative, len: 1, cycles: 2, penalty: false },
        0xD1 => Decoded { op: Op::Cmp, mode: AddressingMode::IndirectY, len: 1, cycles: 5, penalty: true },
        0xD2 => Decoded { op: Op::Hlt, mode: AddressingMode::Implied, len: 0, cycles: 2, penalty: false },
        0xD3 => Decoded { op: Op::Dcp, mode: AddressingMode::IndirectY, len: 1, cycles: 8, penalty: false },
        0xD4 => Decoded { op: Op::Nop, mode: AddressingMode::ZeroPageX, len: 1, cycles: 4, penalty: false },
        0xD5 => Decoded { op: Op::Cmp, mode: AddressingMode::ZeroPageX, len: 1, cycles: 4, penalty: false },
        0xD6 => Decoded { op: Op::Dec, mode: AddressingMode::ZeroPageX, len: 1, cycles: 6, penalty: false },
        0xD7 => Decoded { op: Op::Dcp, mode: AddressingMode::ZeroPageX, len: 1, cycles: 6, penalty: false },
        0xD8 => Decoded { op: Op::Cld, mode: AddressingMode::Implied, len: 0, cycles: 2, penalty: false },
        0xD9 => Decoded { op: Op::Cmp, mode: AddressingMode::AbsoluteY, len: 2, cycles: 4, penalty: true },
        0xDA => Decoded { op: Op::Nop, mode: AddressingMode::Implied, len: 0, cycles: 2, penalty: false },
        0xDB => Decoded { op: Op::Dcp, mode: AddressingMode::AbsoluteY, len: 2, cycles: 7, penalty: false },
        0xDC => Decoded { op: Op::Nop, mode: AddressingMode::AbsoluteX, len: 2, cycles: 4, penalty: true },
        0xDD => Decoded { op: Op::Cmp, mode: AddressingMode::AbsoluteX, len: 2, cycles: 4, penalty: true },
        0xDE => Decoded { op: Op::Dec, mode: AddressingMode::AbsoluteX, len: 2, cycles: 7, penalty: false },
        0xDF => Decoded { op: Op::Dcp, mode: AddressingMode::AbsoluteX, len: 2, cycles: 7, penalty: false },
        0xE0 => Decoded { op: Op::Cpx, mode: AddressingMode::Immediate, len: 1, cycles: 2, penalty: false },
        0xE1 => Decoded { op: Op::Sbc, mode: AddressingMode::IndirectX, len: 1, cycles: 6, penalty: false },
        0xE2 => Decoded { op: Op::Nop, mode: AddressingMode::Immediate, len: 1, cycles: 2, penalty: false },
        0xE3 => Decoded { op: Op::Isb, mode: AddressingMode::IndirectX, len: 1, cycles: 8, penalty: false },
        0xE4 => Decoded { op: Op::Cpx, mode: AddressingMode::ZeroPage, len: 1, cycles: 3, penalty: false },
        0xE5 => Decoded { op: Op::Sbc, mode: AddressingMode::ZeroPage, len: 1, cycles: 3, penalty: false },
        0xE6 => Decoded { op: Op::Inc, mode: AddressingMode::ZeroPage, len: 1, cycles: 5, penalty: false },
        0xE7 => Decoded { op: Op::Isb, mode: AddressingMode::ZeroPage, len: 1, cycles: 5, penalty: false },
        0xE8 => Decoded { op: Op::Inx, mode: AddressingMode::Implied, len: 0, cycles: 2, penalty: false },
        0xE9 => Decoded { op: Op::Sbc, mode: AddressingMode::Immediate, len: 1, cycles: 2, penalty: false },
        0xEA => Decoded { op: Op::Nop, mode: AddressingMode::Implied, len: 0, cycles: 2, penalty: false },
        0xEB => Decoded { op: Op::Sbc, mode: AddressingMode::Immediate, len: 1, cycles: 2, penalty: false },
        0xEC => Decoded { op: Op::Cpx, mode: AddressingMode::Absolute, len: 2, cycles: 4, penalty: false },
        0xED => Decoded { op: Op::Sbc, mode: AddressingMode::Absolute, len: 2, cycles: 4, penalty: false },
        0xEE => Decoded { op: Op::Inc, mode: AddressingMode::Absolute, len: 2, cycles: 6, penalty: false },
        0xEF => Decoded { op: Op::Isb, mode: AddressingMode::Absolute, len: 2, cycles: 6, penalty: false },
        0xF0 => Decoded { op: Op::Beq, mode: AddressingMode::Relative, len: 1, cycles: 2, penalty: false },
        0xF1 => Decoded { op: Op::Sbc, mode: AddressingMode::IndirectY, len: 1, cycles: 5, penalty: true },
        0xF2 => Decoded { op: Op::Hlt, mode: AddressingMode::Implied, len: 0, cycles: 2, penalty: false },
        0xF3 => Decoded { op: Op::Isb, mode: AddressingMode::IndirectY, len: 1, cycles: 8, penalty: false },
        0xF4 => Decoded { op: Op::Nop, mode: AddressingMode::ZeroPageX, len: 1, cycles: 4, penalty: false },
        0xF5 => Decoded { op: Op::Sbc, mode: AddressingMode::ZeroPageX, len: 1, cycles: 4, penalty: false },
        0xF6 => Decoded { op: Op::Inc, mode: AddressingMode::ZeroPageX, len: 1, cycles: 6, penalty: false },
        0xF7 => Decoded { op: Op::Isb, mode: AddressingMode::ZeroPageX, len: 1, cycles: 6, penalty: false },
        0xF8 => Decoded { op: Op::Sed, mode: AddressingMode::Implied, len: 0, cycles: 2, penalty: false },
        0xF9 => Decoded { op: Op::Sbc, mode: AddressingMode::AbsoluteY, len: 2, cycles: 4, penalty: true },
        0xFA => Decoded { op: Op::Nop, mode: AddressingMode::Implied, len: 0, cycles: 2, penalty: false },
        0xFB => Decoded { op: Op::Isb, mode: AddressingMode::AbsoluteY, len: 2, cycles: 7, penalty: false },
        0xFC => Decoded { op: Op::Nop, mode: AddressingMode::AbsoluteX, len: 2, cycles: 4, penalty: true },
        0xFD => Decoded { op: Op::Sbc, mode: AddressingMode::AbsoluteX, len: 2, cycles: 4, penalty: true },
        0xFE => Decoded { op: Op::Inc, mode: AddressingMode::AbsoluteX, len: 2, cycles: 7, penalty: false },
        0xFF => Decoded { op: Op::Isb, mode: AddressingMode::AbsoluteX, len: 2, cycles: 7, penalty: false },
    }
}

#[verifier::rlimit(50)]
pub fn decode(opcode: u8) -> (d: Decoded)
    ensures
        d == decode_spec(opcode),
{
    reveal(decode_spec);
    match opcode {
        0x00 => Decoded { op: Op::Brk, mode: AddressingMode::Implied, len: 0, cycles: 7, penalty: false },
        0x01 => Decoded { op: Op::Ora, mode: AddressingMode::IndirectX, len: 1, cycles: 6, penalty: false },
        0x02 => Decoded { op: Op::Hlt, mode: AddressingMode::Implied, len: 0, cycles: 2, penalty: false },
        0x03 => Decoded { op: Op::Slo, mode: AddressingMode::IndirectX, len: 1, cycles: 8, penalty: false },
        0x04 => Decoded { op: Op::Nop, mode: AddressingMode::ZeroPage, len: 1, cycles: 3, penalty: false },
        0x05 => Decoded { op: Op::Ora, mode: AddressingMode::ZeroPage, len: 1, cycles: 3, penalty: false },
        0x06 => Decoded { op: Op::Asl, mode: AddressingMode::ZeroPage, len: 1, cycles: 5, penalty: false },
        0x07 => Decoded { op: Op::Slo, mode: AddressingMode::ZeroPage, len: 1, cycles: 5, penalty: false },
        0x08 => Decoded { op: Op::Php, mode: AddressingMode::Implied, len: 0, cycles: 3, penalty: false },
        0x09 => Decoded { op: Op::Ora, mode: AddressingMode::Immediate, len: 1, cycles: 2, penalty: false },
        0x0A => Decoded { op: Op::AslAccumulator, mode: AddressingMode::Accumulator, len: 0, cycles: 2, penalty: false },
        0x0B => Decoded { op: Op::Anc, mode: AddressingMode::Immediate, len: 1, cycles: 2, penalty: false },
        0x0C => Decoded { op: Op::Nop, mode: AddressingMode::Absolute, len: 2, cycles: 4, penalty: false },
        0x0D => Decoded { op: Op::Ora, mode: AddressingMode::Absolute, len: 2, cycles: 4, penalty: false },
        0x0E => Decoded { op: Op::Asl, mode: AddressingMode::Absolute, len: 2, cycles: 6, penalty: false },
        0x0F => Decoded { op: Op::Slo, mode: AddressingMode::Absolute, len: 2, cycles: 6, penalty: false },
        0x10 => Decoded { op: Op::Bpl, mode: AddressingMode::Relative, len: 1, cycles: 2, penalty: false },
        0x11 => Decoded { op: Op::Ora, mode: AddressingMode::IndirectY, len: 1, cycles: 5, penalty: true },
        0x12 => Decoded { op: Op::Hlt, mode: AddressingMode::Implied, len: 0, cycles: 2, penalty: false },
        0x13 => Decoded { op: Op::Slo, mode: AddressingMode::IndirectY, len: 1, cycles: 8, penalty: false },
        0x14 => Decoded { op: Op::Nop, mode: AddressingMode::ZeroPageX, len: 1, cycles: 4, penalty: false },
        0x15 => Decoded { op: Op::Ora, mode: AddressingMode::ZeroPageX, len: 1, cycles: 4, penalty: false },
        0x16 => Decoded { op: Op::Asl, mode: AddressingMode::ZeroPageX, len: 1, cycles: 6, penalty: false },
        0x17 => Decoded { op: Op::Slo, mode: AddressingMode::ZeroPageX, len: 1, cycles: 6, penalty: false },
        0x18 => Decoded { op: Op::Clc, mode: AddressingMode::Implied, len: 0, cycles: 2, penalty: false },
        0x19 => Decoded { op: Op::Ora, mode: AddressingMode::AbsoluteY, len: 2, cycles: 4, penalty: true },
        0x1A => Decoded { op: Op::Nop, mode: AddressingMode::Implied, len: 0, cycles: 2, penalty: false },
        0x1B => Decoded { op: Op::Slo, mode: AddressingMode::AbsoluteY, len: 2, cycles: 7, penalty: false },
        0x1C => Decoded { op: Op::Nop, mode: AddressingMode::AbsoluteX, len: 2, cycles: 4, penalty: true },
        0x1D => Decoded { op: Op::Ora, mode: AddressingMode::AbsoluteX, len: 2, cycles: 4, penalty: true },
        0x1E => Decoded { op: Op::Asl, mode: AddressingMode::AbsoluteX, len: 2, cycles: 7, penalty: false },
        0x1F => Decoded { op: Op::Slo, mode: AddressingMode::AbsoluteX, len: 2, cycles: 7, penalty: false },
        0x20 => Decoded { op: Op::Jsr, mode: AddressingMode::Absolute, len: 2, cycles: 6, penalty: false },
        0x21 => Decoded { op: Op::And, mode: AddressingMode::IndirectX, len: 1, cycles: 6, penalty: false },
        0x22 => Decoded { op: Op::Hlt, mode: AddressingMode::Implied, len: 0, cycles: 2, penalty: false },
        0x23 => Decoded { op: Op::Rla, mode: AddressingMode::IndirectX, len: 1, cycles: 8, penalty: false },
        0x24 => Decoded { op: Op::Bit, mode: AddressingMode::ZeroPage, len: 1, cycles: 3, penalty: false },
        0x25 => Decoded { op: Op::And, mode: AddressingMode::ZeroPage, len: 1, cycles: 3, penalty: false },
        0x26 => Decoded { op: Op::Rol, mode: AddressingMode::ZeroPage, len: 1, cycles: 5, penalty: false },
        0x27 => Decoded { op: Op::Rla, mode: AddressingMode::ZeroPage, len: 1, cycles: 5, penalty: false },
        0x28 => Decoded { op: Op::Plp, mode: AddressingMode::Implied, len: 0, cycles: 4, penalty: false },
        0x29 => Decoded { op: Op::And, mode: AddressingMode::Immediate, len: 1, cycles: 2, penalty: false },
        0x2A => Decoded { op: Op::RolAccumulator, mode: AddressingMode::Accumulator, len: 0, cycles: 2, penalty: false },
        0x2B => Decoded { op: Op::Anc, mode: AddressingMode::Immediate, len: 1, cycles: 2, penalty: false },
        0x2C => Decoded { op: Op::Bit, mode: AddressingMode::Absolute, len: 2, cycles: 4, penalty: false },
        0x2D => Decoded { op: Op::And, mode: AddressingMode::Absolute, len: 2, cycles: 4, penalty: false },
        0x2E => Decoded { op: Op::Rol, mode: AddressingMode::Absolute, len: 2, cycles: 6, penalty: false },
        0x2F => Decoded { op: Op::Rla, mode: AddressingMode::Absolute, len: 2, cycles: 6, penalty: false },
        0x30 => Decoded { op: Op::Bmi, mode: AddressingMode::Relative, len: 1, cycles: 2, penalty: false },
        0x31 => Decoded { op: Op::And, mode: AddressingMode::IndirectY, len: 1, cycles: 5, penalty: true },
        0x32 => Decoded { op: Op::Hlt, mode: AddressingMode::Implied, len: 0, cycles: 2, penalty: false },
        0x33 => Decoded { op: Op::Rla, mode: AddressingMode::IndirectY, len: 1, cycles: 8, penalty: false },
        0x34 => Decoded { op: Op::Nop, mode: AddressingMode::ZeroPageX, len: 1, cycles: 4, penalty: false },
        0x35 => Decoded { op: Op::And, mode: AddressingMode::ZeroPageX, len: 1, cycles: 4, penalty: false },
        0x36 => Decoded { op: Op::Rol, mode: AddressingMode::ZeroPageX, len: 1, cycles: 6, penalty: false },
        0x37 => Decoded { op: Op::Rla, mode: AddressingMode::ZeroPageX, len: 1, cycles: 6, penalty: false },
        0x38 => Decoded { op: Op::Sec, mode: AddressingMode::Implied, len: 0, cycles: 2, penalty: false },
        0x39 => Decoded { op: Op::And, mode: AddressingMode::AbsoluteY, len: 2, cycles: 4, penalty: true },
        0x3A => Decoded { op: Op::Nop, mode: AddressingMode::Implied, len: 0, cycles: 2, penalty: false },
        0x3B => Decoded { op: Op::Rla, mode: AddressingMode::AbsoluteY, len: 2, cycles: 7, penalty: false },
        0x3C => Decoded { op: Op::Nop, mode: AddressingMode::AbsoluteX, len: 2, cycles: 4, penalty: true },
        0x3D => Decoded { op: Op::And, mode: AddressingMode::AbsoluteX, len: 2, cycles: 4, penalty: true },
        0x3E => Decoded { op: Op::Rol, mode: AddressingMode::AbsoluteX, len: 2, cycles: 7, penalty: false },
        0x3F => Decoded { op: Op::Rla, mode: AddressingMode::AbsoluteX, len: 2, cycles: 7, penalty: false },
        0x40 => Decoded { op: Op::Rti, mode: AddressingMode::Implied, len: 0, cycles: 6, penalty: false },
        0x41 => Decoded { op: Op::Eor, mode: AddressingMode::IndirectX, len: 1, cycles: 6, penalty: false },
        0x42 => Decoded { op: Op::Hlt, mode: AddressingMode::Implied, len: 0, cycles: 2, penalty: false },
        0x43 => Decoded { op: Op::Sre, mode: AddressingMode::IndirectX, len: 1, cycles: 8, penalty: false },
        0x44 => Decoded { op: Op::Nop, mode: AddressingMode::ZeroPage, len: 1, cycles: 3, penalty: false },
        0x45 => Decoded { op: Op::Eor, mode: AddressingMode::ZeroPage, len: 1, cycles: 3, penalty: false },
        0x46 => Decoded { op: Op::Lsr, mode: AddressingMode::ZeroPage, len: 1, cycles: 5, penalty: false },
        0x47 => Decoded { op: Op::Sre, mode: AddressingMode::ZeroPage, len: 1, cycles: 5, penalty: false },
        0x48 => Decoded { op: Op::Pha, mode: AddressingMode::Implied, len: 0, cycles: 3, penalty: false },
        0x49 => Decoded { op: Op::Eor, mode: AddressingMode::Immediate, len: 1, cycles: 2, penalty: false },
        0x4A => Decoded { op: Op::LsrAccumulator, mode: AddressingMode::Accumulator, len: 0, cycles: 2, penalty: false },
        0x4B => Decoded { op: Op::Unsupported, mode: AddressingMode::Implied, len: 0, cycles: 2, penalty: false },
        0x4C => Decoded { op: Op::Jmp, mode: AddressingMode::Absolute, len: 2, cycles: 3, penalty: false },
        0x4D => Decoded { op: Op::Eor, mode: AddressingMode::Absolute, len: 2, cycles: 4, penalty: false },
        0x4E => Decoded { op: Op::Lsr, mode: AddressingMode::Absolute, len: 2, cycles: 6, penalty: false },
        0x4F => Decoded { op: Op::Sre, mode: AddressingMode::Absolute, len: 2, cycles: 6, penalty: false },
        0x50 => Decoded { op: Op::Bvc, mode: AddressingMode::Relative, len: 1, cycles: 2, penalty: false },
        0x51 => Decoded { op: Op::Eor, mode: AddressingMode::IndirectY, len: 1, cycles: 5, penalty: true },
        0x52 => Decoded { op: Op::Hlt, mode: AddressingMode::Implied, len: 0, cycles: 2, penalty: false },
        0x53 => Decoded { op: Op::Sre, mode: AddressingMode::IndirectY, len: 1, cycles: 8, penalty: false },
        0x54 => Decoded { op: Op::Nop, mode: AddressingMode::ZeroPageX, len: 1, cycles: 4, penalty: false },
        0x55 => Decoded { op: Op::Eor, mode: AddressingMode::ZeroPageX, len: 1, cycles: 4, penalty: false },
        0x56 => Decoded { op: Op::Lsr, mode: AddressingMode::ZeroPageX, len: 1, cycles: 6, penalty: false },
        0x57 => Decoded { op: Op::Sre, mode: AddressingMode::ZeroPageX, len: 1, cycles: 6, penalty: false },
        0x58 => Decoded { op: Op::Cli, mode: AddressingMode::Implied, len: 0, cycles: 2, penalty: false },
        0x59 => Decoded { op: Op::Eor, mode: AddressingMode::AbsoluteY, len: 2, cycles: 4, penalty: true },
        0x5A => Decoded { op: Op::Nop, mode: AddressingMode::Implied, len: 0, cycles: 2, penalty: false },
        0x5B => Decoded { op: Op::Sre, mode: AddressingMode::AbsoluteY, len: 2, cycles: 7, penalty: false },
        0x5C => Decoded { op: Op::Nop, mode: AddressingMode::AbsoluteX, len: 2, cycles: 4, penalty: true },
        0x5D => Decoded { op: Op::Eor, mode: AddressingMode::AbsoluteX, len: 2, cycles: 4, penalty: true },
        0x5E => Decoded { op: Op::Lsr, mode: AddressingMode::AbsoluteX, len: 2, cycles: 7, penalty: false },
        0x5F => Decoded { op: Op::Sre, mode: AddressingMode::AbsoluteX, len: 2, cycles: 7, penalty: false },
        0x60 => Decoded { op: Op::Rts, mode: AddressingMode::Implied, len: 0, cycles: 6, penalty: false },
        0x61 => Decoded { op: Op::Adc, mode: AddressingMode::IndirectX, len: 1, cycles: 6, penalty: false },
        0x62 => Decoded { op: Op::Hlt, mode: AddressingMode::Implied, len: 0, cycles: 2, penalty: false },
        0x63 => Decoded { op: Op::Rra, mode: AddressingMode::IndirectX, len: 1, cycles: 8, penalty: false },
        0x64 => Decoded { op: Op::Nop, mode: AddressingMode::ZeroPage, len: 1, cycles: 3, penalty: false },
        0x65 => Decoded { op: Op::Adc, mode: AddressingMode::ZeroPage, len: 1, cycles: 3, penalty: false },
        0x66 => Decoded { op: Op::Ror, mode: AddressingMode::ZeroPage, len: 1, cycles: 5, penalty: false },
        0x67 => Decoded { op: Op::Rra, mode: AddressingMode::ZeroPage, len: 1, cycles: 5, penalty: false },
        0x68 => Decoded { op: Op::Pla, mode: AddressingMode::Implied, len: 0, cycles: 4, penalty: false },
        0x69 => Decoded { op: Op::Adc, mode: AddressingMode::Immediate, len: 1, cycles: 2, penalty: false },
        0x6A => Decoded { op: Op::RorAccumulator, mode: AddressingMode::Accumulator, len: 0, cycles: 2, penalty: false },
        0x6B => Decoded { op: Op::Unsupported, mode: AddressingMode::Implied, len: 0, cycles: 2, penalty: false },
        0x6C => Decoded { op: Op::Jmp, mode: AddressingMode::Indirect, len: 2, cycles: 5, penalty: false },
        0x6D => Decoded { op: Op::Adc, mode: AddressingMode::Absolute, len: 2, cycles: 4, penalty: false },
        0x6E => Decoded { op: Op::Ror, mode: AddressingMode::Absolute, len: 2, cycles: 6, penalty: false },
        0x6F => Decoded { op: Op::Rra, mode: AddressingMode::Absolute, len: 2, cycles: 6, penalty: false },
        0x70 => Decoded { op: Op::Bvs, mode: AddressingMode::Relative, len: 1, cycles: 2, penalty: false },
        0x71 => Decoded { op: Op::Adc, mode: AddressingMode::IndirectY, len: 1, cycles: 5, penalty: true },
        0x72 => Decoded { op: Op::Hlt, mode: AddressingMode::Implied, len: 0, cycles: 2, penalty: false },
        0x73 => Decoded { op: Op::Rra, mode: AddressingMode::IndirectY, len: 1, cycles: 8, penalty: false },
        0x74 => Decoded { op: Op::Nop, mode: AddressingMode::ZeroPageX, len: 1, cycles: 4, penalty: false },
        0x75 => Decoded { op: Op::Adc, mode: AddressingMode::ZeroPageX, len: 1, cycles: 4, penalty: false },
        0x76 => Decoded { op: Op::Ror, mode: AddressingMode::ZeroPageX, len: 1, cycles: 6, penalty: false },
        0x77 => Decoded { op: Op::Rra, mode: AddressingMode::ZeroPageX, len: 1, cycles: 6, penalty: false },
        0x78 => Decoded { op: Op::Sei, mode: AddressingMode::Implied, len: 0, cycles: 2, penalty: false },
        0x79 => Decoded { op: Op::Adc, mode: AddressingMode::AbsoluteY, len: 2, cycles: 4, penalty: true },
        0x7A => Decoded { op: Op::Nop, mode: AddressingMode::Implied, len: 0, cycles: 2, penalty: false },
        0x7B => Decoded { op: Op::Rra, mode: AddressingMode::AbsoluteY, len: 2, cycles: 7, penalty: false },
        0x7C => Decoded { op: Op::Nop, mode: AddressingMode::AbsoluteX, len: 2, cycles: 4, penalty: true },
        0x7D => Decoded { op: Op::Adc, mode: AddressingMode::AbsoluteX, len: 2, cycles: 4, penalty: true },
        0x7E => Decoded { op: Op::Ror, mode: AddressingMode::AbsoluteX, len: 2, cycles: 7, penalty: false },
        0x7F => Decoded { op: Op::Rra, mode: AddressingMode::AbsoluteX, len: 2, cycles: 7, penalty: false },
        0x80 => Decoded { op: Op::Nop, mode: AddressingMode::Immediate, len: 1, cycles: 2, penalty: false },
        0x81 => Decoded { op: Op::Sta, mode: AddressingMode::IndirectX, len: 1, cycles: 6, penalty: false },
        0x82 => Decoded { op: Op::Nop, mode: AddressingMode::Immediate, len: 1, cycles: 2, penalty: false },
        0x83 => Decoded { op: Op::Sax, mode: AddressingMode::IndirectX, len: 1, cycles: 6, penalty: false },
        0x84 => Decoded { op: Op::Sty, mode: AddressingMode::ZeroPage, len: 1, cycles: 3, penalty: false },
        0x85 => Decoded { op: Op::Sta, mode: AddressingMode::ZeroPage, len: 1, cycles: 3, penalty: false },
        0x86 => Decoded { op: Op::Stx, mode: AddressingMode::ZeroPage, len: 1, cycles: 3, penalty: false },
        0x87 => Decoded { op: Op::Sax, mode: AddressingMode::ZeroPage, len: 1, cycles: 3, penalty: false },
        0x88 => Decoded { op: Op::Dey, mode: AddressingMode::Implied, len: 0, cycles: 2, penalty: false },
        0x89 => Decoded { op: Op::Nop, mode: AddressingMode::Immediate, len: 1, cycles: 2, penalty: false },
        0x8A => Decoded { op: Op::Txa, mode: AddressingMode::Implied, len: 0, cycles: 2, penalty: false },
        0x8B => Decoded { op: Op::Unsupported, mode: AddressingMode::Implied, len: 0, cycles: 2, penalty: false },
        0x8C => Decoded { op: Op::Sty, mode: AddressingMode::Absolute, len: 2, cycles: 4, penalty: false },
        0x8D => Decoded { op: Op::Sta, mode: AddressingMode::Absolute, len: 2, cycles: 4, penalty: false },
        0x8E => Decoded { op: Op::Stx, mode: AddressingMode::Absolute, len: 2, cycles: 4, penalty: false },
        0x8F => Decoded { op: Op::Sax, mode: AddressingMode::Absolute, len: 2, cycles: 4, penalty: false },
        0x90 => Decoded { op: Op::Bcc, mode: AddressingMode::Relative, len: 1, cycles: 2, penalty: false },
        0x91 => Decoded { op: Op::Sta, mode: AddressingMode::IndirectY, len: 1, cycles: 6, penalty: false },
        0x92 => Decoded { op: Op::Hlt, mode: AddressingMode::Implied, len: 0, cycles: 2, penalty: false },
        0x93 => Decoded { op: Op::Unsupported, mode: AddressingMode::Implied, len: 0, cycles: 2, penalty: false },
        0x94 => Decoded { op: Op::Sty, mode: AddressingMode::ZeroPageX, len: 1, cycles: 4, penalty: false },
        0x95 => Decoded { op: Op::Sta, mode: AddressingMode::ZeroPageX, len: 1, cycles: 4, penalty: false },
        0x96 => Decoded { op: Op::Stx, mode: AddressingMode::ZeroPageY, len: 1, cycles: 4, penalty: false },
        0x97 => Decoded { op: Op::Sax, mode: AddressingMode::ZeroPageY, len: 1, cycles: 4, penalty: false },
        0x98 => Decoded { op: Op::Tya, mode: AddressingMode::Implied, len: 0, cycles: 2, penalty: false },
        0x99 => Decoded { op: Op::Sta, mode: AddressingMode::AbsoluteY, len: 2, cycles: 5, penalty: false },
        0x9A => Decoded { op: Op::Txs, mode: AddressingMode::Implied, len: 0, cycles: 2, penalty: false },
        0x9B => Decoded { op: Op::Unsupported, mode: AddressingMode::Implied, len: 0, cycles: 2, penalty: false },
        0x9C => Decoded { op: Op::Unsupported, mode: AddressingMode::Implied, len: 0, cycles: 2, penalty: false },
        0x9D => Decoded { op: Op::Sta, mode: AddressingMode::AbsoluteX, len: 2, cycles: 5, penalty: false },
        0x9E => Decoded { op: Op::Unsupported, mode: AddressingMode::Implied, len: 0, cycles: 2, penalty: false },
        0x9F => Decoded { op: Op::Unsupported, mode: AddressingMode::Implied, len: 0, cycles: 2, penalty: false },
        0xA0 => Decoded { op: Op::Ldy, mode: AddressingMode::Immediate, len: 1, cycles: 2, penalty: false },
        0xA1 => Decoded { op: Op::Lda, mode: AddressingMode::IndirectX, len: 1, cycles: 6, penalty: false },
        0xA2 => Decoded { op: Op::Ldx, mode: AddressingMode::Immediate, len: 1, cycles: 2, penalty: false },
        0xA3 => Decoded { op: Op::Lax, mode: AddressingMode::IndirectX, len: 1, cycles: 6, penalty: false },
        0xA4 => Decoded { op: Op::Ldy, mode: AddressingMode::ZeroPage, len: 1, cycles: 3, penalty: false },
        0xA5 => Decoded { op: Op::Lda, mode: AddressingMode::ZeroPage, len: 1, cycles: 3, penalty: false },
        0xA6 => Decoded { op: Op::Ldx, mode: AddressingMode::ZeroPage, len: 1, cycles: 3, penalty: false },
        0xA7 => Decoded { op: Op::Lax, mode: AddressingMode::ZeroPage, len: 1, cycles: 3, penalty: false },
        0xA8 => Decoded { op: Op::Tay, mode: AddressingMode::Implied, len: 0, cycles: 2, penalty: false },
        0xA9 => Decoded { op: Op::Lda, mode: AddressingMode::Immediate, len: 1, cycles: 2, penalty: false },
        0xAA => Decoded { op: Op::Tax, mode: AddressingMode::Implied, len: 0, cycles: 2, penalty: false },
        0xAB => Decoded { op: Op::Unsupported, mode: AddressingMode::Implied, len: 0, cycles: 2, penalty: false },
        0xAC => Decoded { op: Op::Ldy, mode: AddressingMode::Absolute, len: 2, cycles: 4, penalty: false },
        0xAD => Decoded { op: Op::Lda, mode: AddressingMode::Absolute, len: 2, cycles: 4, penalty: false },
        0xAE => Decoded { op: Op::Ldx, mode: AddressingMode::Absolute, len: 2, cycles: 4, penalty: false },
        0xAF => Decoded { op: Op::Lax, mode: AddressingMode::Absolute, len: 2, cycles: 4, penalty: false },
        0xB0 => Decoded { op: Op::Bcs, mode: AddressingMode::Relative, len: 1, cycles: 2, penalty: false },
        0xB1 => Decoded { op: Op::Lda, mode: AddressingMode::IndirectY, len: 1, cycles: 5, penalty: true },
        0xB2 => Decoded { op: Op::Hlt, mode: AddressingMode::Implied, len: 0, cycles: 2, penalty: false },
        0xB3 => Decoded { op: Op::Lax, mode: AddressingMode::IndirectY, len: 1, cycles: 5, penalty: true },
        0xB4 => Decoded { op: Op::Ldy, mode: AddressingMode::ZeroPageX, len: 1, cycles: 4, penalty: false },
        0xB5 => Decoded { op: Op::Lda, mode: AddressingMode::ZeroPageX, len: 1, cycles: 4, penalty: false },
        0xB6 => Decoded { op: Op::Ldx, mode: AddressingMode::ZeroPageY, len: 1, cycles: 4, penalty: false },
        0xB7 => Decoded { op: Op::Lax, mode: AddressingMode::ZeroPageY, len: 1, cycles: 4, penalty: false },
        0xB8 => Decoded { op: Op::Clv, mode: AddressingMode::Implied, len: 0, cycles: 2, penalty: false },
        0xB9 => Decoded { op: Op::Lda, mode: AddressingMode::AbsoluteY, len: 2, cycles: 4, penalty: true },
        0xBA => Decoded { op: Op::Tsx, mode: AddressingMode::Implied, len: 0, cycles: 2, penalty: false },
        0xBB => Decoded { op: Op::Unsupported, mode: AddressingMode::Implied, len: 0, cycles: 2, penalty: false },
        0xBC => Decoded { op: Op::Ldy, mode: AddressingMode::AbsoluteX, len: 2, cycles: 4, penalty: true },
        0xBD => Decoded { op: Op::Lda, mode: AddressingMode::AbsoluteX, len: 2, cycles: 4, penalty: true },
        0xBE => Decoded { op: Op::Ldx, mode: AddressingMode::AbsoluteY, len: 2, cycles: 4, penalty: true },
        0xBF => Decoded { op: Op::Lax, mode: AddressingMode::AbsoluteY, len: 2, cycles: 4, penalty: true },
        0xC0 => Decoded { op: Op::Cpy, mode: AddressingMode::Immediate, len: 1, cycles: 2, penalty: false },
        0xC1 => Decoded { op: Op::Cmp, mode: AddressingMode::IndirectX, len: 1, cycles: 6, penalty: false },
        0xC2 => Decoded { op: Op::Nop, mode: AddressingMode::Immediate, len: 1, cycles: 2, penalty: false },
        0xC3 => Decoded { op: Op::Dcp, mode: AddressingMode::IndirectX, len: 1, cycles: 8, penalty: false },
        0xC4 => Decoded { op: Op::Cpy, mode: AddressingMode::ZeroPage, len: 1, cycles: 3, penalty: false },
        0xC5 => Decoded { op: Op::Cmp, mode: AddressingMode::ZeroPage, len: 1, cycles: 3, penalty: false },
        0xC6 => Decoded { op: Op::Dec, mode: AddressingMode::ZeroPage, len: 1, cycles: 5, penalty: false },
        0xC7 => Decoded { op: Op::Dcp, mode: AddressingMode::ZeroPage, len: 1, cycles: 5, penalty: false },
        0xC8 => Decoded { op: Op::Iny, mode: AddressingMode::Implied, len: 0, cycles: 2, penalty: false },
        0xC9 => Decoded { op: Op::Cmp, mode: AddressingMode::Immediate, len: 1, cycles: 2, penalty: false },
        0xCA => Decoded { op: Op::Dex, mode: AddressingMode::Implied, len: 0, cycles: 2, penalty: false },
        0xCB => Decoded { op: Op::Unsupported, mode: AddressingMode::Implied, len: 0, cycles: 2, penalty: false },
        0xCC => Decoded { op: Op::Cpy, mode: AddressingMode::Absolute, len: 2, cycles: 4, penalty: false },
        0xCD => Decoded { op: Op::Cmp, mode: AddressingMode::Absolute, len: 2, cycles: 4, penalty: false },
        0xCE => Decoded { op: Op::Dec, mode: AddressingMode::Absolute, len: 2, cycles: 6, penalty: false },
        0xCF => Decoded { op: Op::Dcp, mode: AddressingMode::Absolute, len: 2, cycles: 6, penalty: false },
        0xD0 => Decoded { op: Op::Bne, mode: AddressingMode::Relative, len: 1, cycles: 2, penalty: false },
        0xD1 => Decoded { op: Op::Cmp, mode: AddressingMode::IndirectY, len: 1, cycles: 5, penalty: true },
        0xD2 => Decoded { op: Op::Hlt, mode: AddressingMode::Implied, len: 0, cycles: 2, penalty: false },
        0xD3 => Decoded { op: Op::Dcp, mode: AddressingMode::IndirectY, len: 1, cycles: 8, penalty: false },
        0xD4 => Decoded { op: Op::Nop, mode: AddressingMode::ZeroPageX, len: 1, cycles: 4, penalty: false },
        0xD5 => Decoded { op: Op::Cmp, mode: AddressingMode::ZeroPageX, len: 1, cycles: 4, penalty: false },
        0xD6 => Decoded { op: Op::Dec, mode: AddressingMode::ZeroPageX, len: 1, cycles: 6, penalty: false },
        0xD7 => Decoded { op: Op::Dcp, mode: AddressingMode::ZeroPageX, len: 1, cycles: 6, penalty: false },
        0xD8 => Decoded { op: Op::Cld, mode: AddressingMode::Implied, len: 0, cycles: 2, penalty: false },
        0xD9 => Decoded { op: Op::Cmp, mode: AddressingMode::AbsoluteY, len: 2, cycles: 4, penalty: true },
        0xDA => Decoded { op: Op::Nop, mode: AddressingMode::Implied, len: 0, cycles: 2, penalty: false },
        0xDB => Decoded { op: Op::Dcp, mode: AddressingMode::AbsoluteY, len: 2, cycles: 7, penalty: false },
        0xDC => Decoded { op: Op::Nop, mode: AddressingMode::AbsoluteX, len: 2, cycles: 4, penalty: true },
        0xDD => Decoded { op: Op::Cmp, mode: AddressingMode::AbsoluteX, len: 2, cycles: 4, penalty: true },
        0xDE => Decoded { op: Op::Dec, mode: AddressingMode::AbsoluteX, len: 2, cycles: 7, penalty: false },
        0xDF => Decoded { op: Op::Dcp, mode: AddressingMode::AbsoluteX, len: 2, cycles: 7, penalty: false },
        0xE0 => Decoded { op: Op::Cpx, mode: AddressingMode::Immediate, len: 1, cycles: 2, penalty: false },
        0xE1 => Decoded { op: Op::Sbc, mode: AddressingMode::IndirectX, len: 1, cycles: 6, penalty: false },
        0xE2 => Decoded { op: Op::Nop, mode: AddressingMode::Immediate, len: 1, cycles: 2, penalty: false },
        0xE3 => Decoded { op: Op::Isb, mode: AddressingMode::IndirectX, len: 1, cycles: 8, penalty: false },
        0xE4 => Decoded { op: Op::Cpx, mode: AddressingMode::ZeroPage, len: 1, cycles: 3, penalty: false },
        0xE5 => Decoded { op: Op::Sbc, mode: AddressingMode::ZeroPage, len: 1, cycles: 3, penalty: false },
        0xE6 => Decoded { op: Op::Inc, mode: AddressingMode::ZeroPage, len: 1, cycles: 5, penalty: false },
        0xE7 => Decoded { op: Op::Isb, mode: AddressingMode::ZeroPage, len: 1, cycles: 5, penalty: false },
        0xE8 => Decoded { op: Op::Inx, mode: AddressingMode::Implied, len: 0, cycles: 2, penalty: false },
        0xE9 => Decoded { op: Op::Sbc, mode: AddressingMode::Immediate, len: 1, cycles: 2, penalty: false },
        0xEA => Decoded { op: Op::Nop, mode: AddressingMode::Implied, len: 0, cycles: 2, penalty: false },
        0xEB => Decoded { op: Op::Sbc, mode: AddressingMode::Immediate, len: 1, cycles: 2, penalty: false },
        0xEC => Decoded { op: Op::Cpx, mode: AddressingMode::Absolute, len: 2, cycles: 4, penalty: false },
        0xED => Decoded { op: Op::Sbc, mode: AddressingMode::Absolute, len: 2, cycles: 4, penalty: false },
        0xEE => Decoded { op: Op::Inc, mode: AddressingMode::Absolute, len: 2, cycles: 6, penalty: false },
        0xEF => Decoded { op: Op::Isb, mode: AddressingMode::Absolute, len: 2, cycles: 6, penalty: false },
        0xF0 => Decoded { op: Op::Beq, mode: AddressingMode::Relative, len: 1, cycles: 2, penalty: false },
        0xF1 => Decoded { op: Op::Sbc, mode: AddressingMode::IndirectY, len: 1, cycles: 5, penalty: true },
        0xF2 => Decoded { op: Op::Hlt, mode: AddressingMode::Implied, len: 0, cycles: 2, penalty: false },
        0xF3 => Decoded { op: Op::Isb, mode: AddressingMode::IndirectY, len: 1, cycles: 8, penalty: false },
        0xF4 => Decoded { op: Op::Nop, mode: AddressingMode::ZeroPageX, len: 1, cycles: 4, penalty: false },
        0xF5 => Decoded { op: Op::Sbc, mode: AddressingMode::ZeroPageX, len: 1, cycles: 4, penalty: false },
        0xF6 => Decoded { op: Op::Inc, mode: AddressingMode::ZeroPageX, len: 1, cycles: 6, penalty: false },
        0xF7 => Decoded { op: Op::Isb, mode: AddressingMode::ZeroPageX, len: 1, cycles: 6, penalty: false },
        0xF8 => Decoded { op: Op::Sed, mode: AddressingMode::Implied, len: 0, cycles: 2, penalty: false },
        0xF9 => Decoded { op: Op::Sbc, mode: AddressingMode::AbsoluteY, len: 2, cycles: 4, penalty: true },
        0xFA => Decoded { op: Op::Nop, mode: AddressingMode::Implied, len: 0, cycles: 2, penalty: false },
        0xFB => Decoded { op: Op::Isb, mode: AddressingMode::AbsoluteY, len: 2, cycles: 7, penalty: false },
        0xFC => Decoded { op: Op::Nop, mode: AddressingMode::AbsoluteX, len: 2, cycles: 4, penalty: true },
        0xFD => Decoded { op: Op::Sbc, mode: AddressingMode::AbsoluteX, len: 2, cycles: 4, penalty: true },
        0xFE => Decoded { op: Op::Inc, mode: AddressingMode::AbsoluteX, len: 2, cycles: 7, penalty: false },
        0xFF => Decoded { op: Op::Isb, mode: AddressingMode::AbsoluteX, len: 2, cycles: 7, penalty: false },
    }
}

/// No opcode takes more than eight base cycles.
pub proof fn lemma_cycles_bound(opcode: u8)
    ensures
        decode_spec(opcode).cycles <= 8,
{
    reveal(decode_spec);
}

} // verus!
