use vstd::prelude::*;

use super::AddressingMode;
use super::decode::{decode_spec, Op};
use super::spec::{rd, operand, operand_address, fetched, step_spec, wrap8, wrap16, word, with_zn, with_flag, exec_spec, CpuState};

verus! {

/// The addressing mode that bits 2-4 select among the arithmetic and logic
/// instructions (opcodes ending in binary 01): (zp,X), zp, #imm, abs,
/// (zp),Y, zp,X, abs,Y, abs,X.
pub open spec fn alu_mode(opcode: u8) -> AddressingMode {
    let b = (opcode / 4) % 8;
    if b == 0 {
        AddressingMode::IndirectX
    } else if b == 1 {
        AddressingMode::ZeroPage
    } else if b == 2 {
        AddressingMode::Immediate
    } else if b == 3 {
        AddressingMode::Absolute
    } else if b == 4 {
        AddressingMode::IndirectY
    } else if b == 5 {
        AddressingMode::ZeroPageX
    } else if b == 6 {
        AddressingMode::AbsoluteY
    } else {
        AddressingMode::AbsoluteX
    }
}

/// The operand bytes of those instructions: two for the absolute modes,
/// one otherwise.
pub open spec fn alu_len(opcode: u8) -> int {
    let b = (opcode / 4) % 8;
    if b == 3 || b == 6 || b == 7 {
        2
    } else {
        1
    }
}

/// Z (bit 1) tells whether `v` is 0 and N (bit 7) whether bit 7 of `v` is set.
pub open spec fn zn_follow(p: u8, v: u8) -> bool {
    &&& (p & 0b0000_0010 != 0) == (v == 0)
    &&& (p & 0b1000_0000 != 0) == (v & 0b1000_0000 != 0)
}

proof fn lemma_zn_bits(p: u8, v: u8)
    ensures
        zn_follow(with_zn(p, v), v),
        with_zn(p, v) & 1 == p & 1,
        with_zn(p, v) & 0b0100_0000 == p & 0b0100_0000,
{
    let z = v == 0;
    let n = v >= 128;
    crate::bits::lemma_byte_tests(v);
    let q = with_flag(p, 0b0000_0010, z);
    assert(q == if z { p | 0x02 } else { p & !0x02u8 });
    crate::bits::lemma_flag_bits(p, z);
    let r = with_flag(q, 0b1000_0000, n);
    assert(r == if n { q | 0x80 } else { q & !0x80u8 });
    crate::bits::lemma_flag_bits(q, n);
}

/// Setting or clearing one flag of P sets that flag as asked and keeps C,
/// Z, V and N otherwise.
proof fn lemma_flag_bit(p: u8, mask: u8, on: bool)
    requires
        mask == 1 || mask == 2 || mask == 0x40 || mask == 0x80,
    ensures
        (with_flag(p, mask, on) & mask != 0) == on,
        mask != 1 ==> with_flag(p, mask, on) & 1 == p & 1,
        mask != 2 ==> with_flag(p, mask, on) & 2 == p & 2,
        mask != 0x40 ==> with_flag(p, mask, on) & 0x40 == p & 0x40,
        mask != 0x80 ==> with_flag(p, mask, on) & 0x80 == p & 0x80,
{
    crate::bits::lemma_flag_bits(p, on);
    assert(with_flag(p, mask, on) == if on { p | mask } else { p & !mask });
}

proof fn lemma_carry_bit(p: u8)
    ensures
        (p % 2 == 1) == (p & 1 != 0),
        p % 2 == (if p & 1 != 0 { 1int } else { 0 }),
{
    crate::bits::lemma_byte_tests(p);
}

/// The instruction that bits 5-7 select among the opcodes ending in 01.
spec fn alu_op(opcode: u8) -> Op {
    let a = opcode / 32;
    if a == 0 {
        Op::Ora
    } else if a == 1 {
        Op::And
    } else if a == 2 {
        Op::Eor
    } else if a == 3 {
        Op::Adc
    } else if a == 4 {
        Op::Sta
    } else if a == 5 {
        Op::Lda
    } else if a == 6 {
        Op::Cmp
    } else {
        Op::Sbc
    }
}

proof fn lemma_alu_decode(opcode: u8)
    requires
        opcode % 4 == 1,
        opcode != 0x89,
    ensures
        decode_spec(opcode).op == alu_op(opcode),
        decode_spec(opcode).mode == alu_mode(opcode),
        decode_spec(opcode).len == alu_len(opcode),
{
    reveal(decode_spec);
}

/// The byte that an arithmetic or logic instruction at PC works on.
pub open spec fn alu_operand(st: CpuState, opcode: u8) -> u8 {
    operand(fetched(st), alu_mode(opcode))
}

/// The arithmetic and logic instructions (opcodes ending in binary 01, all
/// but $89): with `m` the byte that the mode of bits 2-4 finds after the
/// opcode and `c` the carry (bit 0 of P), bits 5-7 choose
/// A | m (ORA), A & m (AND), A ^ m (EOR), A + m + c (ADC), a store of A
/// (STA), m (LDA), a comparison of A with m (CMP) and A - m - (1 - c) (SBC).
/// Z and N follow the new A; ADC and SBC set C on a carry out and on no
/// borrow, CMP sets C when A >= m and Z when A == m. PC moves past the
/// operand.
#[verifier::spinoff_prover]
#[verifier::rlimit(80)]
pub proof fn law_alu_instructions(st: CpuState, opcode: u8)
    requires
        st.wf(),
        rd(st, st.pc) == opcode,
        opcode % 4 == 1,
        opcode != 0x89,
    ensures
        step_spec(st).pc == wrap16(st.pc + 1 + alu_len(opcode)),
        step_spec(st).x == st.x && step_spec(st).y == st.y && step_spec(st).s == st.s,
        opcode / 32 != 4 ==> step_spec(st).mem == st.mem,
        opcode / 32 == 0 ==> step_spec(st).a == st.a | alu_operand(st, opcode) && zn_follow(step_spec(st).p, step_spec(st).a),
        opcode / 32 == 1 ==> step_spec(st).a == st.a & alu_operand(st, opcode) && zn_follow(step_spec(st).p, step_spec(st).a),
        opcode / 32 == 2 ==> step_spec(st).a == st.a ^ alu_operand(st, opcode) && zn_follow(step_spec(st).p, step_spec(st).a),
        opcode / 32 == 3 ==> step_spec(st).a == (st.a + alu_operand(st, opcode) + st.p % 2) % 256 && zn_follow(
            step_spec(st).p,
            step_spec(st).a,
        ) && (step_spec(st).p % 2 == 1) == (st.a + alu_operand(st, opcode) + st.p % 2 > 255),
        opcode / 32 == 4 ==> step_spec(st).mem == st.mem.update(
            operand_address(fetched(st), alu_mode(opcode)) as int,
            st.a,
        ) && step_spec(st).a == st.a && step_spec(st).p == st.p,
        opcode / 32 == 5 ==> step_spec(st).a == alu_operand(st, opcode) && zn_follow(step_spec(st).p, step_spec(st).a),
        opcode / 32 == 6 ==> step_spec(st).a == st.a && (step_spec(st).p % 2 == 1) == (st.a >= alu_operand(st, opcode))
            && (step_spec(st).p & 0b0000_0010 != 0) == (st.a == alu_operand(st, opcode)) && (step_spec(st).p
            & 0b1000_0000 != 0) == ((st.a - alu_operand(st, opcode)) % 256 >= 128),
        opcode / 32 == 7 ==> step_spec(st).a == (st.a - alu_operand(st, opcode) - (1 - st.p % 2)) % 256 && zn_follow(
            step_spec(st).p,
            step_spec(st).a,
        ) && (step_spec(st).p % 2 == 1) == (st.a - alu_operand(st, opcode) - (1 - st.p % 2) >= 0),
{
    reveal(exec_spec);
    lemma_alu_decode(opcode);
    let st1 = fetched(st);
    let m = operand(st1, alu_mode(opcode));
    let new = step_spec(st);
    let k = opcode / 32;
    lemma_carry_bit(st.p);
    if k == 0 || k == 1 || k == 2 || k == 5 {
        let v = if k == 0 { st.a | m } else if k == 1 { st.a & m } else if k == 2 { st.a ^ m } else { m };
        lemma_zn_bits(st.p, v);
    } else if k == 3 || k == 7 {
        let c: int = if st.p & 1 != 0 { 1 } else { 0 };
        let v: int = if k == 3 { st.a + m + c } else { st.a - m - (1 - c) };
        let cy = if k == 3 { v > 255 } else { v >= 0 };
        let ov = if k == 3 {
            super::spec::overflows(super::spec::signed8(st.a) + super::spec::signed8(m) + c)
        } else {
            super::spec::overflows(super::spec::signed8(st.a) - super::spec::signed8(m) - (1 - c))
        };
        let p1 = with_flag(st.p, 1, cy);
        let p2 = with_flag(p1, 0b0100_0000, ov);
        let r = super::spec::wrap8(v);
        assert(new.a == r && new.p == with_zn(p2, r));
        lemma_flag_bit(st.p, 1, cy);
        lemma_zn_bits(p2, r);
        let q = new.p;
        lemma_flag_bit(p1, 0x40, ov);
        lemma_carry_bit(q);
        lemma_carry_bit(st.p);
        } else if k == 6 {
        let p1 = with_flag(st.p, 1, m <= st.a);
        lemma_flag_bit(st.p, 1, m <= st.a);
        let p2 = with_flag(p1, 0b0000_0010, st.a == m);
        let r = with_flag(p2, 0b1000_0000, (st.a - m) % 256 >= 128);
        lemma_flag_bit(p1, 2, st.a == m);
        lemma_flag_bit(p2, 0x80, (st.a - m) % 256 >= 128);
        assert(new.p == r);
        lemma_carry_bit(r);
    }
}

/// The memory mode that bits 3-4 select among the shift, increment and
/// decrement instructions on memory (opcodes ending in binary 10 with bit 2
/// set): zp, abs, zp,X, abs,X.
pub open spec fn rmw_mode(opcode: u8) -> AddressingMode {
    let b = (opcode / 8) % 4;
    if b == 0 {
        AddressingMode::ZeroPage
    } else if b == 1 {
        AddressingMode::Absolute
    } else if b == 2 {
        AddressingMode::ZeroPageX
    } else {
        AddressingMode::AbsoluteX
    }
}

/// The operand bytes of those instructions: two for the absolute modes.
pub open spec fn rmw_len(opcode: u8) -> int {
    if (opcode / 8) % 2 == 1 {
        2
    } else {
        1
    }
}

/// Whether `opcode` is one of the 24 read-modify-write instructions on
/// memory: ASL, ROL, LSR, ROR (bits 5-7 = 0-3), DEC (6) and INC (7).
pub open spec fn is_rmw(opcode: u8) -> bool {
    opcode % 4 == 2 && (opcode / 4) % 2 == 1 && opcode / 32 != 4 && opcode / 32 != 5
}

/// The address and the byte at it that such an instruction modifies.
pub open spec fn rmw_address(st: CpuState, opcode: u8) -> u16 {
    operand_address(fetched(st), rmw_mode(opcode))
}

pub open spec fn rmw_operand(st: CpuState, opcode: u8) -> u8 {
    rd(st, rmw_address(st, opcode))
}

spec fn rmw_op(opcode: u8) -> Op {
    let a = opcode / 32;
    if a == 0 {
        Op::Asl
    } else if a == 1 {
        Op::Rol
    } else if a == 2 {
        Op::Lsr
    } else if a == 3 {
        Op::Ror
    } else if a == 6 {
        Op::Dec
    } else {
        Op::Inc
    }
}

proof fn lemma_rmw_decode(opcode: u8)
    requires
        is_rmw(opcode),
    ensures
        decode_spec(opcode).op == rmw_op(opcode),
        decode_spec(opcode).mode == rmw_mode(opcode),
        decode_spec(opcode).len == rmw_len(opcode),
{
    reveal(decode_spec);
}

proof fn lemma_carry_zn(p: u8, on: bool, r: u8)
    ensures
        zn_follow(with_zn(with_flag(p, 1, on), r), r),
        (with_zn(with_flag(p, 1, on), r) % 2 == 1) == on,
{
    lemma_flag_bit(p, 1, on);
    lemma_zn_bits(with_flag(p, 1, on), r);
    lemma_carry_bit(with_zn(with_flag(p, 1, on), r));
}

/// The read-modify-write instructions: with `m` the byte at the address
/// that the mode of bits 3-4 finds and `c` the carry, bits 5-7 choose
/// 2m (ASL, C = bit 7 of m), 2m + c (ROL, C = bit 7), m / 2 (LSR, C = bit 0),
/// m / 2 + 128c (ROR, C = bit 0), m - 1 (DEC) and m + 1 (INC), all modulo
/// 256. The result is written back, Z and N follow it, A, X and Y are kept
/// and PC moves past the operand.
#[verifier::spinoff_prover]
#[verifier::rlimit(80)]
pub proof fn law_read_modify_write(st: CpuState, opcode: u8)
    requires
        st.wf(),
        rd(st, st.pc) == opcode,
        is_rmw(opcode),
    ensures
        ({
            let m = rmw_operand(st, opcode);
            let c = st.p % 2;
            let k = opcode / 32;
            let r: int = if k == 0 {
                (2 * m) % 256
            } else if k == 1 {
                (2 * m + c) % 256
            } else if k == 2 {
                (m / 2) as int
            } else if k == 3 {
                m / 2 + 128 * c
            } else if k == 6 {
                (m + 255) % 256
            } else {
                (m + 1) % 256
            };
            let new = step_spec(st);
            &&& new.mem == st.mem.update(rmw_address(st, opcode) as int, r as u8)
            &&& zn_follow(new.p, r as u8)
            &&& k <= 1 ==> (new.p % 2 == 1) == (m >= 128)
            &&& k == 2 || k == 3 ==> (new.p % 2 == 1) == (m % 2 == 1)
            &&& k >= 6 ==> new.p % 2 == st.p % 2
            &&& new.a == st.a && new.x == st.x && new.y == st.y && new.s == st.s
            &&& new.pc == wrap16(st.pc + 1 + rmw_len(opcode))
        }),
{
    lemma_rmw_decode(opcode);
    lemma_carry_bit(st.p);
    let st1 = fetched(st);
    let ea = rmw_address(st, opcode);
    let m = rd(st1, ea);
    let k = opcode / 32;
    let c: int = if st.p & 1 != 0 { 1 } else { 0 };
    let mode = rmw_mode(opcode);
    if k == 0 {
        assert(exec_spec(st1, Op::Asl, mode) == super::spec::asl_spec(st1, mode)) by { reveal(exec_spec); }
        lemma_carry_zn(st.p, m >= 128, super::spec::wrap8(2 * m));
    } else if k == 1 {
        assert(exec_spec(st1, Op::Rol, mode) == super::spec::rol_spec(st1, mode)) by { reveal(exec_spec); }
        lemma_carry_zn(st.p, m >= 128, super::spec::wrap8(2 * m + c));
    } else if k == 2 {
        assert(exec_spec(st1, Op::Lsr, mode) == super::spec::lsr_spec(st1, mode)) by { reveal(exec_spec); }
        lemma_carry_zn(st.p, m % 2 == 1, (m / 2) as u8);
    } else if k == 3 {
        assert(exec_spec(st1, Op::Ror, mode) == super::spec::ror_spec(st1, mode)) by { reveal(exec_spec); }
        lemma_carry_zn(st.p, m % 2 == 1, (m / 2 + 128 * c) as u8);
    } else {
        if k == 6 {
            assert(exec_spec(st1, Op::Dec, mode) == super::spec::dec_spec(st1, mode)) by { reveal(exec_spec); }
        } else {
            assert(exec_spec(st1, Op::Inc, mode) == super::spec::inc_spec(st1, mode)) by { reveal(exec_spec); }
        }
        let r = if k == 6 { super::spec::wrap8(m - 1) } else { super::spec::wrap8(m + 1) };
        lemma_zn_bits(st.p, r);
        lemma_carry_bit(with_zn(st.p, r));
    }
}

/// The mode that bits 2-4 select among the loads, stores and comparisons of
/// X and Y: #imm, zp, abs, zp,X (zp,Y for X) and abs,X (abs,Y for X).
pub open spec fn xy_mode(opcode: u8) -> AddressingMode {
    let b = (opcode / 4) % 8;
    if b == 0 {
        AddressingMode::Immediate
    } else if b == 1 {
        AddressingMode::ZeroPage
    } else if b == 3 {
        AddressingMode::Absolute
    } else if b == 5 {
        if opcode % 4 == 2 {
            AddressingMode::ZeroPageY
        } else {
            AddressingMode::ZeroPageX
        }
    } else if opcode % 4 == 2 {
        AddressingMode::AbsoluteY
    } else {
        AddressingMode::AbsoluteX
    }
}

/// Whether `opcode` loads (bits 5-7 = 5), stores (4) or compares (6 for Y,
/// 7 for X) an index register: X when it ends in binary 10, else Y.
pub open spec fn is_xy(opcode: u8) -> bool {
    let b = (opcode / 4) % 8;
    let k = opcode / 32;
    &&& opcode % 4 == 0 || opcode % 4 == 2
    &&& k == 5 ==> b == 0 || b == 1 || b == 3 || b == 5 || b == 7
    &&& k == 4 ==> b == 1 || b == 3 || b == 5
    &&& k == 6 || k == 7 ==> opcode % 4 == 0 && (b == 0 || b == 1 || b == 3)
    &&& 4 <= k
}

pub open spec fn xy_address(st: CpuState, opcode: u8) -> u16 {
    operand_address(fetched(st), xy_mode(opcode))
}

pub open spec fn xy_operand(st: CpuState, opcode: u8) -> u8 {
    rd(fetched(st), xy_address(st, opcode))
}

spec fn xy_op(opcode: u8) -> Op {
    let k = opcode / 32;
    if k == 4 {
        if opcode % 4 == 2 { Op::Stx } else { Op::Sty }
    } else if k == 5 {
        if opcode % 4 == 2 { Op::Ldx } else { Op::Ldy }
    } else if k == 6 {
        Op::Cpy
    } else {
        Op::Cpx
    }
}

proof fn lemma_xy_decode(opcode: u8)
    requires
        is_xy(opcode),
    ensures
        decode_spec(opcode).op == xy_op(opcode),
        decode_spec(opcode).mode == xy_mode(opcode),
        decode_spec(opcode).len == (if (opcode / 4) % 8 == 3 || (opcode / 4) % 8 == 7 { 2int } else { 1 }),
{
    reveal(decode_spec);
}

proof fn lemma_compare_flags(st: CpuState, reg: u8, m: u8)
    ensures
        (super::spec::compare(st, reg, m).p % 2 == 1) == (reg >= m),
        (super::spec::compare(st, reg, m).p & 0b0000_0010 != 0) == (reg == m),
        (super::spec::compare(st, reg, m).p & 0b1000_0000 != 0) == ((reg - m) % 256 >= 128),
{
    let p1 = with_flag(st.p, 1, m <= reg);
    lemma_flag_bit(st.p, 1, m <= reg);
    let b2 = reg == m;
    let b3 = (reg - m) % 256 >= 128;
    let p2 = with_flag(p1, 0b0000_0010, b2);
    let r = with_flag(p2, 0b1000_0000, b3);
    lemma_flag_bit(p1, 2, b2);
    lemma_flag_bit(p2, 0x80, b3);
    assert(super::spec::compare(st, reg, m).p == r);
    lemma_carry_bit(r);
}

/// The loads, stores and comparisons of the index registers: with `m` the
/// byte that the mode of bits 2-4 finds and R the register (X for opcodes
/// ending in binary 10, Y otherwise), LDX/LDY set R to m with Z and N from
/// it, STX/STY write R at the address, and CPY (bits 5-7 = 6) and CPX (7)
/// set C when R >= m, Z when R == m and N from bit 7 of R - m. PC moves past
/// the operand.
#[verifier::spinoff_prover]
#[verifier::rlimit(80)]
pub proof fn law_index_register_instructions(st: CpuState, opcode: u8)
    requires
        st.wf(),
        rd(st, st.pc) == opcode,
        is_xy(opcode),
    ensures
        ({
            let m = xy_operand(st, opcode);
            let k = opcode / 32;
            let on_x = opcode % 4 == 2;
            let new = step_spec(st);
            &&& new.pc == wrap16(st.pc + 1 + (if (opcode / 4) % 8 == 3 || (opcode / 4) % 8 == 7 { 2int } else { 1 }))
            &&& new.a == st.a && new.s == st.s
            &&& k != 4 ==> new.mem == st.mem
            &&& k == 5 && on_x ==> new.x == m && new.y == st.y && zn_follow(new.p, m)
            &&& k == 5 && !on_x ==> new.y == m && new.x == st.x && zn_follow(new.p, m)
            &&& k == 4 ==> new.mem == st.mem.update(
                xy_address(st, opcode) as int,
                if on_x { st.x } else { st.y },
            ) && new.p == st.p && new.x == st.x && new.y == st.y
            &&& k >= 6 ==> {
                let reg = if k == 7 { st.x } else { st.y };
                &&& new.x == st.x && new.y == st.y
                &&& (new.p % 2 == 1) == (reg >= m)
                &&& (new.p & 0b0000_0010 != 0) == (reg == m)
                &&& (new.p & 0b1000_0000 != 0) == ((reg - m) % 256 >= 128)
            }
        }),
{
    lemma_xy_decode(opcode);
    let st1 = fetched(st);
    let mode = xy_mode(opcode);
    let k = opcode / 32;
    let m = operand(st1, mode);
    if k == 4 {
        if opcode % 4 == 2 {
            assert(exec_spec(st1, Op::Stx, mode) == super::spec::store(st1, operand_address(st1, mode), st1.x)) by {
                reveal(exec_spec);
            }
        } else {
            assert(exec_spec(st1, Op::Sty, mode) == super::spec::store(st1, operand_address(st1, mode), st1.y)) by {
                reveal(exec_spec);
            }
        }
    } else if k == 5 {
        lemma_zn_bits(st.p, m);
        if opcode % 4 == 2 {
            assert(exec_spec(st1, Op::Ldx, mode) == super::spec::load_x(st1, m)) by {
                reveal(exec_spec);
            }
        } else {
            assert(exec_spec(st1, Op::Ldy, mode) == super::spec::load_y(st1, m)) by {
                reveal(exec_spec);
            }
        }
    } else if k == 6 {
        assert(exec_spec(st1, Op::Cpy, mode) == super::spec::compare(st1, st1.y, m)) by {
            reveal(exec_spec);
        }
        lemma_compare_flags(st1, st1.y, m);
    } else {
        assert(exec_spec(st1, Op::Cpx, mode) == super::spec::compare(st1, st1.x, m)) by {
            reveal(exec_spec);
        }
        lemma_compare_flags(st1, st1.x, m);
    }
}

/// The increments, decrements and transfers of the registers (one byte
/// each): INX, INY, DEX, DEY modulo 256; TAX, TAY, TXA, TYA, TSX copy one
/// register to another with Z and N from the value, TXS copies X to S and
/// keeps P. PC moves on by one and memory is kept.
#[verifier::spinoff_prover]
#[verifier::rlimit(80)]
pub proof fn law_register_transfers(st: CpuState, opcode: u8)
    requires
        st.wf(),
        rd(st, st.pc) == opcode,
        opcode == 0xE8 || opcode == 0xC8 || opcode == 0xCA || opcode == 0x88 || opcode == 0xAA || opcode == 0xA8 || opcode
            == 0x8A || opcode == 0x98 || opcode == 0xBA || opcode == 0x9A,
    ensures
        ({
            let new = step_spec(st);
            &&& opcode == 0xE8 ==> new.x == (st.x + 1) % 256 && zn_follow(new.p, new.x) && new.a == st.a && new.y == st.y
            &&& opcode == 0xC8 ==> new.y == (st.y + 1) % 256 && zn_follow(new.p, new.y) && new.a == st.a && new.x == st.x
            &&& opcode == 0xCA ==> new.x == (st.x + 255) % 256 && zn_follow(new.p, new.x) && new.a == st.a && new.y == st.y
            &&& opcode == 0x88 ==> new.y == (st.y + 255) % 256 && zn_follow(new.p, new.y) && new.a == st.a && new.x == st.x
            &&& opcode == 0xAA ==> new.x == st.a && zn_follow(new.p, st.a) && new.a == st.a && new.y == st.y
            &&& opcode == 0xA8 ==> new.y == st.a && zn_follow(new.p, st.a) && new.a == st.a && new.x == st.x
            &&& opcode == 0x8A ==> new.a == st.x && zn_follow(new.p, st.x) && new.x == st.x && new.y == st.y
            &&& opcode == 0x98 ==> new.a == st.y && zn_follow(new.p, st.y) && new.x == st.x && new.y == st.y
            &&& opcode == 0xBA ==> new.x == st.s && zn_follow(new.p, st.s) && new.s == st.s
            &&& opcode == 0x9A ==> new.s == st.x && new.p == st.p && new.x == st.x
            &&& new.pc == wrap16(st.pc + 1) && new.mem == st.mem
        }),
{
    let st1 = fetched(st);
    let d = decode_spec(opcode);
    let op = if opcode == 0xE8 {
        Op::Inx
    } else if opcode == 0xC8 {
        Op::Iny
    } else if opcode == 0xCA {
        Op::Dex
    } else if opcode == 0x88 {
        Op::Dey
    } else if opcode == 0xAA {
        Op::Tax
    } else if opcode == 0xA8 {
        Op::Tay
    } else if opcode == 0x8A {
        Op::Txa
    } else if opcode == 0x98 {
        Op::Tya
    } else if opcode == 0xBA {
        Op::Tsx
    } else {
        Op::Txs
    };
    assert(d.len == 0 && d.mode == AddressingMode::Implied && d.op == op) by {
        reveal(decode_spec);
    }
    let v: u8 = if opcode == 0xE8 {
        super::spec::wrap8(st.x + 1)
    } else if opcode == 0xC8 {
        super::spec::wrap8(st.y + 1)
    } else if opcode == 0xCA {
        super::spec::wrap8(st.x - 1)
    } else if opcode == 0x88 {
        super::spec::wrap8(st.y - 1)
    } else if opcode == 0xAA || opcode == 0xA8 {
        st.a
    } else if opcode == 0x8A {
        st.x
    } else if opcode == 0x98 {
        st.y
    } else {
        st.s
    };
    lemma_zn_bits(st.p, v);
    let r = exec_spec(st1, op, AddressingMode::Implied);
    if opcode == 0xE8 || opcode == 0xCA || opcode == 0xAA || opcode == 0xBA {
        assert(r == super::spec::load_x(st1, v)) by { reveal(exec_spec); }
    } else if opcode == 0xC8 || opcode == 0x88 || opcode == 0xA8 {
        assert(r == super::spec::load_y(st1, v)) by { reveal(exec_spec); }
    } else if opcode == 0x8A || opcode == 0x98 {
        assert(r == super::spec::load_a(st1, v)) by { reveal(exec_spec); }
    } else {
        assert(r == CpuState { s: st1.x, ..st1 }) by { reveal(exec_spec); }
    }
}

/// The flag instructions: CLC, SEC, CLI, SEI, CLV, CLD, SED clear or set
/// bit 0, 2, 6 or 3 of P and leave the rest of P and the registers alone;
/// PC moves on by one.
#[verifier::spinoff_prover]
#[verifier::rlimit(80)]
pub proof fn law_flag_instructions(st: CpuState, opcode: u8)
    requires
        st.wf(),
        rd(st, st.pc) == opcode,
        opcode == 0x18 || opcode == 0x38 || opcode == 0x58 || opcode == 0x78 || opcode == 0xB8 || opcode == 0xD8 || opcode
            == 0xF8,
    ensures
        ({
            let new = step_spec(st);
            &&& opcode == 0x18 ==> new.p == st.p & 0b1111_1110
            &&& opcode == 0x38 ==> new.p == st.p | 0b0000_0001
            &&& opcode == 0x58 ==> new.p == st.p & 0b1111_1011
            &&& opcode == 0x78 ==> new.p == st.p | 0b0000_0100
            &&& opcode == 0xB8 ==> new.p == st.p & 0b1011_1111
            &&& opcode == 0xD8 ==> new.p == st.p & 0b1111_0111
            &&& opcode == 0xF8 ==> new.p == st.p | 0b0000_1000
            &&& new.a == st.a && new.x == st.x && new.y == st.y && new.s == st.s && new.mem == st.mem
            &&& new.pc == wrap16(st.pc + 1)
        }),
{
    let st1 = fetched(st);
    let d = decode_spec(opcode);
    let op = if opcode == 0x18 {
        Op::Clc
    } else if opcode == 0x38 {
        Op::Sec
    } else if opcode == 0x58 {
        Op::Cli
    } else if opcode == 0x78 {
        Op::Sei
    } else if opcode == 0xB8 {
        Op::Clv
    } else if opcode == 0xD8 {
        Op::Cld
    } else {
        Op::Sed
    };
    assert(d.len == 0 && d.mode == AddressingMode::Implied && d.op == op) by {
        reveal(decode_spec);
    }
    crate::bits::lemma_byte_tests(st.p);
    let mask: u8 = if opcode == 0x18 || opcode == 0x38 {
        1
    } else if opcode == 0x58 || opcode == 0x78 {
        4
    } else if opcode == 0xB8 {
        0x40
    } else {
        8
    };
    let set = opcode == 0x38 || opcode == 0x78 || opcode == 0xF8;
    assert(exec_spec(st1, op, AddressingMode::Implied) == CpuState {
        p: if set { st1.p | mask } else { st1.p & !mask },
        ..st1
    }) by {
        reveal(exec_spec);
    }
}

/// The shifts and rotations of A: ASL A and ROL A move A left (ROL brings
/// the carry into bit 0), LSR A and ROR A move it right (ROR brings the
/// carry into bit 7); C receives the bit shifted out, Z and N follow the new
/// A, and PC moves on by one.
#[verifier::spinoff_prover]
#[verifier::rlimit(80)]
pub proof fn law_accumulator_shifts(st: CpuState, opcode: u8)
    requires
        st.wf(),
        rd(st, st.pc) == opcode,
        opcode == 0x0A || opcode == 0x2A || opcode == 0x4A || opcode == 0x6A,
    ensures
        ({
            let new = step_spec(st);
            let c = st.p % 2;
            &&& opcode == 0x0A ==> new.a == (2 * st.a) % 256 && (new.p % 2 == 1) == (st.a >= 128)
            &&& opcode == 0x2A ==> new.a == (2 * st.a + c) % 256 && (new.p % 2 == 1) == (st.a >= 128)
            &&& opcode == 0x4A ==> new.a == st.a / 2 && (new.p % 2 == 1) == (st.a % 2 == 1)
            &&& opcode == 0x6A ==> new.a == st.a / 2 + 128 * c && (new.p % 2 == 1) == (st.a % 2 == 1)
            &&& zn_follow(new.p, new.a)
            &&& new.x == st.x && new.y == st.y && new.s == st.s && new.mem == st.mem
            &&& new.pc == wrap16(st.pc + 1)
        }),
{
    let st1 = fetched(st);
    let d = decode_spec(opcode);
    lemma_carry_bit(st.p);
    let a = st.a;
    let cc: int = if st.p & 1 != 0 { 1 } else { 0 };
    assert(d.len == 0 && d.mode == AddressingMode::Accumulator) by {
        reveal(decode_spec);
    }
    if opcode == 0x0A {
        assert(d.op == Op::AslAccumulator) by { reveal(decode_spec); }
        assert(exec_spec(st1, d.op, d.mode) == super::spec::asl_acc_spec(st1)) by { reveal(exec_spec); }
        lemma_carry_zn(st.p, a >= 128, super::spec::wrap8(2 * a));
    } else if opcode == 0x2A {
        assert(d.op == Op::RolAccumulator) by { reveal(decode_spec); }
        assert(exec_spec(st1, d.op, d.mode) == super::spec::rol_acc_spec(st1)) by { reveal(exec_spec); }
        lemma_carry_zn(st.p, a >= 128, super::spec::wrap8(2 * a + cc));
    } else if opcode == 0x4A {
        assert(d.op == Op::LsrAccumulator) by { reveal(decode_spec); }
        assert(exec_spec(st1, d.op, d.mode) == super::spec::lsr_acc_spec(st1)) by { reveal(exec_spec); }
        lemma_carry_zn(st.p, a % 2 == 1, (a / 2) as u8);
    } else {
        assert(d.op == Op::RorAccumulator) by { reveal(decode_spec); }
        assert(exec_spec(st1, d.op, d.mode) == super::spec::ror_acc_spec(st1)) by { reveal(exec_spec); }
        lemma_carry_zn(st.p, a % 2 == 1, (a / 2 + 128 * cc) as u8);
    }
}

/// The conditional branches (opcodes xxy10000): bits 6-7 pick the flag
/// (N, V, C, Z) and bit 5 the value it must have. When it has it, PC moves to
/// the address after the two-byte instruction plus the signed offset byte;
/// otherwise just past the instruction. Nothing else changes.
#[verifier::spinoff_prover]
#[verifier::rlimit(80)]
pub proof fn law_branches(st: CpuState, opcode: u8)
    requires
        st.wf(),
        rd(st, st.pc) == opcode,
        opcode % 32 == 0x10,
    ensures
        ({
            let sel = opcode / 64;
            let mask: u8 = if sel == 0 { 0x80 } else if sel == 1 { 0x40 } else if sel == 2 { 0x01 } else { 0x02 };
            let taken = (st.p & mask != 0) == ((opcode / 32) % 2 == 1);
            let off = rd(st, wrap16(st.pc + 1));
            let new = step_spec(st);
            &&& new.pc == if taken {
                wrap16(st.pc + 2 + (if off < 128 { off as int } else { off - 256 }))
            } else {
                wrap16(st.pc + 2)
            }
            &&& new.a == st.a && new.x == st.x && new.y == st.y && new.s == st.s && new.p == st.p && new.mem == st.mem
        }),
{
    let st1 = fetched(st);
    let op = branch_op(opcode);
    lemma_branch_decode(opcode);
    let taken = super::spec::taken_spec(st1, op);
    assert(exec_spec(st1, op, AddressingMode::Relative) == super::spec::branch_spec(st1, AddressingMode::Relative, taken))
        by {
        reveal(exec_spec);
    }
    let off = rd(st, wrap16(st.pc + 1));
    let t = st.pc + 1 + super::spec::signed8(off);
    assert(wrap16(wrap16(t) + 1) == wrap16(t + 1)) by {
        vstd::arithmetic::div_mod::lemma_add_mod_noop(t, 1, 0x10000);
        vstd::arithmetic::div_mod::lemma_mod_twice(t, 0x10000);
    }
    assert(wrap16(wrap16(st.pc + 1) + 1) == wrap16(st.pc + 2)) by {
        vstd::arithmetic::div_mod::lemma_add_mod_noop(st.pc + 1, 1, 0x10000);
        vstd::arithmetic::div_mod::lemma_mod_twice(st.pc + 1, 0x10000);
    }
    assert(wrap16(wrap16(st.pc + 1) + super::spec::signed8(off)) == wrap16(t)) by {
        vstd::arithmetic::div_mod::lemma_add_mod_noop(st.pc + 1, super::spec::signed8(off), 0x10000);
        vstd::arithmetic::div_mod::lemma_mod_twice(super::spec::signed8(off), 0x10000);
    }
}

/// The instruction of a branch opcode.
spec fn branch_op(opcode: u8) -> Op {
    let sel = opcode / 64;
    let y = (opcode / 32) % 2 == 1;
    if sel == 0 {
        if y { Op::Bmi } else { Op::Bpl }
    } else if sel == 1 {
        if y { Op::Bvs } else { Op::Bvc }
    } else if sel == 2 {
        if y { Op::Bcs } else { Op::Bcc }
    } else {
        if y { Op::Beq } else { Op::Bne }
    }
}

proof fn lemma_branch_decode(opcode: u8)
    requires
        opcode % 32 == 0x10,
    ensures
        decode_spec(opcode).op == branch_op(opcode),
        decode_spec(opcode).mode == AddressingMode::Relative,
        decode_spec(opcode).len == 1,
{
    reveal(decode_spec);
}

/// BIT (zp $24, abs $2C): with `m` the byte read, Z tells whether A & m is
/// 0, N and V are copied from bits 7 and 6 of m; A, C and memory are kept.
#[verifier::spinoff_prover]
#[verifier::rlimit(80)]
pub proof fn law_bit_test(st: CpuState, opcode: u8)
    requires
        st.wf(),
        rd(st, st.pc) == opcode,
        opcode == 0x24 || opcode == 0x2C,
    ensures
        ({
            let mode = if opcode == 0x24 { AddressingMode::ZeroPage } else { AddressingMode::Absolute };
            let m = operand(fetched(st), mode);
            let new = step_spec(st);
            &&& (new.p & 0b0000_0010 != 0) == (st.a & m == 0)
            &&& (new.p & 0b1000_0000 != 0) == (m & 0b1000_0000 != 0)
            &&& (new.p & 0b0100_0000 != 0) == (m & 0b0100_0000 != 0)
            &&& new.p % 2 == st.p % 2
            &&& new.a == st.a && new.x == st.x && new.y == st.y && new.mem == st.mem
            &&& new.pc == wrap16(st.pc + (if opcode == 0x24 { 2int } else { 3 }))
        }),
{
    let st1 = fetched(st);
    let mode = if opcode == 0x24 { AddressingMode::ZeroPage } else { AddressingMode::Absolute };
    let d = decode_spec(opcode);
    assert(d.op == Op::Bit && d.mode == mode && d.len == (if opcode == 0x24 { 1u8 } else { 2 })) by {
        reveal(decode_spec);
    }
    assert(exec_spec(st1, Op::Bit, mode) == super::spec::bit_spec(st1, mode)) by {
        reveal(exec_spec);
    }
    let m = operand(st1, mode);
    let p0 = st.p;
    let z = st.a & m == 0;
    let n = m >= 128;
    let v = m % 128 >= 64;
    let p1 = with_flag(p0, 0b0000_0010, z);
    let p2 = with_flag(p1, 0b1000_0000, n);
    let p3 = with_flag(p2, 0b0100_0000, v);
    crate::bits::lemma_byte_tests(m);
    lemma_flag_bit(p0, 2, z);
    lemma_flag_bit(p1, 0x80, n);
    lemma_flag_bit(p2, 0x40, v);
    lemma_carry_bit(p0);
    lemma_carry_bit(p3);
}

/// Byte `k` of the stack page above the stack pointer: $0100 + (S + k) % 256.
pub open spec fn stack_at(st: CpuState, k: int) -> u8 {
    st.mem[0x100 + (st.s + k) % 256]
}

/// The pushes and pulls of A and P: PHA writes A at $0100 + S and moves S
/// down by one; PHP does the same with P, bits 4 and 5 set; PLA moves S up
/// by one and loads A from $0100 + S with Z and N from it; PLP loads P from
/// there with bit 4 cleared and bit 5 set. PC moves on by one.
#[verifier::spinoff_prover]
#[verifier::rlimit(80)]
pub proof fn law_stack_instructions(st: CpuState, opcode: u8)
    requires
        st.wf(),
        rd(st, st.pc) == opcode,
        opcode == 0x48 || opcode == 0x08 || opcode == 0x68 || opcode == 0x28,
    ensures
        ({
            let new = step_spec(st);
            &&& new.pc == wrap16(st.pc + 1)
            &&& opcode == 0x48 ==> new.mem == st.mem.update(0x100 + st.s, st.a) && new.s == (st.s + 255) % 256
                && new.a == st.a && new.p == st.p
            &&& opcode == 0x08 ==> new.mem == st.mem.update(0x100 + st.s, st.p | 0b0011_0000) && new.s == (st.s + 255)
                % 256 && new.p == st.p
            &&& opcode == 0x68 ==> new.a == stack_at(st, 1) && zn_follow(new.p, new.a) && new.s == (st.s + 1) % 256
                && new.mem == st.mem
            &&& opcode == 0x28 ==> new.p == (stack_at(st, 1) & 0b1110_1111) | 0b0010_0000 && new.s == (st.s + 1) % 256
                && new.a == st.a && new.mem == st.mem
        }),
{
    let st1 = fetched(st);
    let d = decode_spec(opcode);
    let op = if opcode == 0x48 {
        Op::Pha
    } else if opcode == 0x08 {
        Op::Php
    } else if opcode == 0x68 {
        Op::Pla
    } else {
        Op::Plp
    };
    assert(d.op == op && d.mode == AddressingMode::Implied && d.len == 0) by {
        reveal(decode_spec);
    }
    if opcode == 0x48 {
        assert(exec_spec(st1, op, d.mode) == super::spec::push_spec(st1, st1.a)) by { reveal(exec_spec); }
    } else if opcode == 0x08 {
        assert(exec_spec(st1, op, d.mode) == super::spec::push_spec(st1, st1.p | 0x10 | 0x20)) by { reveal(exec_spec); }
        crate::bits::lemma_byte_tests(st.p);
    } else if opcode == 0x68 {
        assert(exec_spec(st1, op, d.mode) == super::spec::load_a(super::spec::pop_spec(st1), super::spec::pop_value(st1)))
            by { reveal(exec_spec); }
        lemma_zn_bits(st.p, stack_at(st, 1));
    } else {
        assert(exec_spec(st1, op, d.mode) == CpuState {
            p: super::spec::pulled_status(super::spec::pop_value(st1)),
            ..super::spec::pop_spec(st1)
        }) by { reveal(exec_spec); }
        crate::bits::lemma_byte_tests(stack_at(st, 1));
    }
}

/// The jumps, subroutine calls and returns. With `t` the little-endian word
/// after the opcode: JMP abs goes to t; JMP (t) goes to the word at t,
/// whose high byte is read from the start of t's page when t ends a page;
/// JSR pushes the address of its own last byte (high byte first) and goes
/// to t; RTS pulls an address (low byte first) and goes to the byte after
/// it; RTI pulls P (bit 4 cleared, bit 5 set) and then the address to go
/// to.
#[verifier::spinoff_prover]
#[verifier::rlimit(80)]
pub proof fn law_jumps(st: CpuState, opcode: u8)
    requires
        st.wf(),
        rd(st, st.pc) == opcode,
        opcode == 0x4C || opcode == 0x6C || opcode == 0x20 || opcode == 0x60 || opcode == 0x40,
    ensures
        ({
            let pc1 = wrap16(st.pc + 1);
            let pc2 = wrap16(pc1 + 1);
            let t = word(rd(st, pc1), rd(st, pc2));
            let back = pc2;
            let new = step_spec(st);
            &&& opcode == 0x4C ==> new.pc == t && new.mem == st.mem && new.s == st.s && new.p == st.p
            &&& opcode == 0x6C ==> new.pc == word(rd(st, t), rd(st, (t - t % 256 + (t % 256 + 1) % 256) as u16))
                && new.mem == st.mem && new.s == st.s && new.p == st.p
            &&& opcode == 0x20 ==> new.pc == t && new.s == (st.s + 254) % 256 && new.mem == st.mem.update(
                0x100 + st.s,
                (back / 256) as u8,
            ).update(0x100 + (st.s + 255) % 256, (back % 256) as u8) && new.p == st.p
            &&& opcode == 0x60 ==> new.pc == wrap16(word(stack_at(st, 1), stack_at(st, 2)) + 1) && new.s == (st.s + 2)
                % 256 && new.mem == st.mem && new.p == st.p
            &&& opcode == 0x40 ==> new.pc == word(stack_at(st, 2), stack_at(st, 3)) && new.p == (stack_at(st, 1)
                & 0b1110_1111) | 0b0010_0000 && new.s == (st.s + 3) % 256 && new.mem == st.mem
            &&& new.a == st.a && new.x == st.x && new.y == st.y
        }),
{
    let st1 = fetched(st);
    let d = decode_spec(opcode);
    let op = if opcode == 0x4C || opcode == 0x6C {
        Op::Jmp
    } else if opcode == 0x20 {
        Op::Jsr
    } else if opcode == 0x60 {
        Op::Rts
    } else {
        Op::Rti
    };
    let mode = if opcode == 0x4C || opcode == 0x20 {
        AddressingMode::Absolute
    } else if opcode == 0x6C {
        AddressingMode::Indirect
    } else {
        AddressingMode::Implied
    };
    let len: u8 = if opcode == 0x60 || opcode == 0x40 { 0 } else { 2 };
    assert(d.op == op && d.mode == mode && d.len == len) by {
        reveal(decode_spec);
    }
    let ea = operand_address(st1, mode);
    assert(wrap16(wrap16(ea - 2) + 2) == ea) by {
        vstd::arithmetic::div_mod::lemma_add_mod_noop(ea - 2, 2, 0x10000);
        vstd::arithmetic::div_mod::lemma_mod_twice(ea - 2, 0x10000);
    }
    if opcode == 0x4C || opcode == 0x6C {
        assert(exec_spec(st1, op, mode) == CpuState { pc: wrap16(ea - 2), ..st1 }) by { reveal(exec_spec); }
    } else if opcode == 0x20 {
        assert(exec_spec(st1, op, mode) == CpuState {
            pc: wrap16(ea - 2),
            ..super::spec::push16_spec(st1, wrap16(st1.pc + 1))
        }) by { reveal(exec_spec); }
    } else if opcode == 0x60 {
        assert(exec_spec(st1, op, mode) == CpuState {
            pc: wrap16(super::spec::pop16_value(st1) + 1),
            ..super::spec::pop_spec(super::spec::pop_spec(st1))
        }) by { reveal(exec_spec); }
        assert(wrap8(wrap8(st.s + 1) + 1) == (st.s + 2) % 256);
    } else {
        let s1 = CpuState {
            p: super::spec::pulled_status(super::spec::pop_value(st1)),
            ..super::spec::pop_spec(st1)
        };
        assert(exec_spec(st1, op, mode) == CpuState {
            pc: super::spec::pop16_value(s1),
            ..super::spec::pop_spec(super::spec::pop_spec(s1))
        }) by { reveal(exec_spec); }
        crate::bits::lemma_byte_tests(stack_at(st, 1));
        assert(wrap8(wrap8(st.s + 1) + 1) == (st.s + 2) % 256);
        assert(wrap8(wrap8(wrap8(st.s + 1) + 1) + 1) == (st.s + 3) % 256);
    }
}

/// The address that BRK pushes: two bytes past the opcode.
pub open spec fn brk_return(st: CpuState) -> u16 {
    wrap16(wrap16(st.pc + 1) + 1)
}

/// BRK: while I (bit 2 of P) is clear it pushes the address two bytes on
/// (high byte first) and P with bit 5 set and bit 4 cleared, sets I and
/// jumps through the vector at $FFFE; while I is set it only moves PC two
/// bytes on.
#[verifier::spinoff_prover]
#[verifier::rlimit(80)]
pub proof fn law_brk(st: CpuState)
    requires
        st.wf(),
        rd(st, st.pc) == 0x00,
    ensures
        st.p & 0b0000_0100 == 0 ==> step_spec(st).pc == word(rd(st, 0xFFFE), rd(st, 0xFFFF)),
        st.p & 0b0000_0100 == 0 ==> step_spec(st).mem == st.mem.update(0x100 + st.s, (brk_return(st) / 256) as u8).update(
            0x100 + (st.s + 255) % 256,
            (brk_return(st) % 256) as u8,
        ).update(0x100 + (st.s + 254) % 256, (st.p | 0b0010_0000) & 0b1110_1111),
        st.p & 0b0000_0100 == 0 ==> step_spec(st).s == (st.s + 253) % 256,
        st.p & 0b0000_0100 == 0 ==> step_spec(st).p == st.p | 0b0000_0100,
        st.p & 0b0000_0100 != 0 ==> step_spec(st) == (CpuState { pc: brk_return(st), ..st }),
{
    let st1 = fetched(st);
    let d = decode_spec(0x00);
    assert(d.op == Op::Brk && d.mode == AddressingMode::Implied && d.len == 0) by {
        reveal(decode_spec);
    }
    assert(exec_spec(st1, Op::Brk, AddressingMode::Implied) == super::spec::brk_spec(st1)) by {
        reveal(exec_spec);
    }
    crate::bits::lemma_byte_tests(st.p | 0b0010_0000);
    crate::bits::lemma_byte_tests(0b0011_0000u8);
    assert(crate::interrupt::spec_brk().mask & 0b0001_0000 != 0 && crate::interrupt::spec_brk().mask & 0b0010_0000 != 0);
    assert(wrap8(st.s - 1) == (st.s + 255) % 256);
    assert(wrap8(wrap8(st.s - 1) - 1) == (st.s + 254) % 256);
    assert(wrap8(wrap8(wrap8(st.s - 1) - 1) - 1) == (st.s + 253) % 256);
    assert(wrap16(0xFFFEint + 1) == 0xFFFF);
}

/// How the indexed and indirect modes derive from the plain ones: zp,X and
/// zp,Y add X or Y to the zero-page address within page 0; abs,X and abs,Y
/// add X or Y to the absolute address modulo 64 KiB; (zp,X) reads the
/// pointer at the zero-page address plus X, (zp),Y adds Y to the pointer at
/// the zero-page address; #imm is the byte at PC.
#[verifier::spinoff_prover]
#[verifier::rlimit(80)]
pub proof fn law_addressing_modes(st: CpuState)
    requires
        st.wf(),
    ensures
        ({
            let z = rd(st, st.pc);
            let abs = operand_address(st, AddressingMode::Absolute);
            &&& operand_address(st, AddressingMode::Immediate) == st.pc
            &&& operand_address(st, AddressingMode::ZeroPage) == z
            &&& operand_address(st, AddressingMode::ZeroPageX) == (z + st.x) % 256
            &&& operand_address(st, AddressingMode::ZeroPageY) == (z + st.y) % 256
            &&& abs == rd(st, st.pc) + 256 * rd(st, wrap16(st.pc + 1))
            &&& operand_address(st, AddressingMode::AbsoluteX) == (abs + st.x) % 0x10000
            &&& operand_address(st, AddressingMode::AbsoluteY) == (abs + st.y) % 0x10000
            &&& operand_address(st, AddressingMode::IndirectX) == rd(st, ((z + st.x) % 256) as u16) + 256 * rd(
                st,
                ((z + st.x + 1) % 256) as u16,
            )
            &&& operand_address(st, AddressingMode::IndirectY) == (rd(st, z as u16) + 256 * rd(st, ((z + 1) % 256) as u16)
                + st.y) % 0x10000
        }),
{
}

} // verus!
