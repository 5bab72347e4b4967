use vstd::prelude::*;

use super::{AddressingMode, RunOutcome, CARRY, ZERO, INTERRUPT_DISABLE, DECIMAL, BREAK, BREAK2, OVERFLOW, NEGATIVE};
use super::decode::{decode_spec, Op};
use crate::interrupt::{Interrupt, spec_brk};

verus! {

/// The architectural state of the core: registers, P, PC and the 64 KiB of
/// memory as a sequence of bytes.
#[verifier::ext_equal]
pub ghost struct CpuState {
    pub a: u8,
    pub x: u8,
    pub y: u8,
    pub s: u8,
    pub p: u8,
    pub pc: u16,
    pub mem: Seq<u8>,
}

impl CpuState {
    pub open spec fn wf(self) -> bool {
        self.mem.len() == 0x10000
    }
}

pub open spec fn wrap8(v: int) -> u8 {
    (v % 256) as u8
}

pub open spec fn wrap16(v: int) -> u16 {
    (v % 0x10000) as u16
}

/// The two's-complement value of a byte.
pub open spec fn signed8(v: u8) -> int {
    if v < 128 {
        v as int
    } else {
        v - 256
    }
}

/// The little-endian word of two bytes.
pub open spec fn word(lo: u8, hi: u8) -> u16 {
    (hi * 256 + lo) as u16
}

pub open spec fn rd(st: CpuState, addr: u16) -> u8 {
    st.mem[addr as int]
}

/// A little-endian word read at `addr` and `addr + 1` (wrapping at $FFFF).
pub open spec fn rd16(st: CpuState, addr: u16) -> u16 {
    word(rd(st, addr), rd(st, wrap16(addr + 1)))
}

pub open spec fn flag(p: u8, mask: u8) -> bool {
    p & mask != 0
}

/// P with the bits of `mask` set when `on`, cleared otherwise.
pub open spec fn with_flag(p: u8, mask: u8, on: bool) -> u8 {
    if on {
        p | mask
    } else {
        p & !mask
    }
}

/// P with Z and N set from a result byte.
pub open spec fn with_zn(p: u8, v: u8) -> u8 {
    with_flag(with_flag(p, ZERO, v == 0), NEGATIVE, v >= 128)
}

/// After Z and N are set from v, the N bit tells whether v is negative.
pub proof fn lemma_zn_negative(p: u8, v: u8)
    ensures
        (with_zn(p, v) & NEGATIVE != 0) == (v >= 128),
{
    let q = with_flag(p, ZERO, v == 0);
    assert((q | 0x80u8) & 0x80u8 != 0) by (bit_vector);
    assert((q & !0x80u8) & 0x80u8 == 0) by (bit_vector);
}

/// The carry flag as a number.
pub open spec fn carry(st: CpuState) -> int {
    if flag(st.p, CARRY) {
        1
    } else {
        0
    }
}

pub open spec fn push_spec(st: CpuState, v: u8) -> CpuState {
    CpuState { mem: st.mem.update(0x100 + st.s, v), s: wrap8(st.s - 1), ..st }
}

pub open spec fn pop_spec(st: CpuState) -> CpuState {
    CpuState { s: wrap8(st.s + 1), ..st }
}

/// The byte that a pull returns: the one just above the stack pointer.
pub open spec fn pop_value(st: CpuState) -> u8 {
    st.mem[0x100 + wrap8(st.s + 1)]
}

/// Pushes the high byte, then the low byte.
pub open spec fn push16_spec(st: CpuState, v: u16) -> CpuState {
    push_spec(push_spec(st, (v / 256) as u8), (v % 256) as u8)
}

/// Pulls the low byte, then the high byte.
pub open spec fn pop16_value(st: CpuState) -> u16 {
    word(pop_value(st), pop_value(pop_spec(st)))
}

/// The effective address of the operand for the bytes at PC.
pub open spec fn operand_address(st: CpuState, mode: AddressingMode) -> u16 {
    match mode {
        AddressingMode::Immediate => st.pc,
        AddressingMode::Implied => st.pc,
        AddressingMode::Accumulator => st.pc,
        AddressingMode::ZeroPage => rd(st, st.pc) as u16,
        AddressingMode::ZeroPageX => wrap8(rd(st, st.pc) + st.x) as u16,
        AddressingMode::ZeroPageY => wrap8(rd(st, st.pc) + st.y) as u16,
        AddressingMode::Absolute => rd16(st, st.pc),
        AddressingMode::AbsoluteX => wrap16(rd16(st, st.pc) + st.x),
        AddressingMode::AbsoluteY => wrap16(rd16(st, st.pc) + st.y),
        AddressingMode::IndirectX => {
            let ptr = wrap8(rd(st, st.pc) + st.x);
            word(rd(st, ptr as u16), rd(st, wrap8(ptr + 1) as u16))
        },
        AddressingMode::IndirectY => {
            let base = rd(st, st.pc);
            wrap16(word(rd(st, base as u16), rd(st, wrap8(base + 1) as u16)) + st.y)
        },
        AddressingMode::Indirect => {
            // the high byte of the pointer is read within the pointer's page
            let ptr = rd16(st, st.pc);
            word(rd(st, ptr), rd(st, (ptr - ptr % 256 + wrap8(ptr % 256 + 1)) as u16))
        },
        AddressingMode::Relative => wrap16(st.pc + signed8(rd(st, st.pc))),
    }
}

/// The operand byte.
pub open spec fn operand(st: CpuState, mode: AddressingMode) -> u8 {
    rd(st, operand_address(st, mode))
}

/// Whether indexing (or a taken branch) moves the address onto another page.
#[verifier::opaque]
pub open spec fn page_crossed(st: CpuState, mode: AddressingMode) -> bool {
    match mode {
        AddressingMode::AbsoluteX => {
            let base = rd16(st, st.pc);
            base / 256 != wrap16(base + st.x) / 256
        },
        AddressingMode::AbsoluteY => {
            let base = rd16(st, st.pc);
            base / 256 != wrap16(base + st.y) / 256
        },
        AddressingMode::Relative => {
            let next = wrap16(st.pc + 1);
            next / 256 != wrap16(next + signed8(rd(st, st.pc))) / 256
        },
        AddressingMode::IndirectY => {
            let b = rd(st, st.pc);
            let base = word(rd(st, b as u16), rd(st, wrap8(b + 1) as u16));
            base / 256 != wrap16(base + st.y) / 256
        },
        _ => false,
    }
}

/// Servicing an interrupt: push PC and the adjusted P, set I, jump through
/// the vector.
pub open spec fn interrupt_spec(st: CpuState, i: Interrupt) -> CpuState {
    let st1 = push16_spec(st, st.pc);
    let f1 = if i.mask & 0b0001_0000 != 0 {
        st.p | BREAK2
    } else {
        st.p
    };
    let f2 = if i.mask & 0b0010_0000 != 0 {
        f1 & !BREAK
    } else {
        f1
    };
    let st2 = push_spec(st1, f2);
    CpuState { p: st2.p | INTERRUPT_DISABLE, pc: rd16(st2, i.vector), ..st2 }
}

pub open spec fn reset_spec(st: CpuState) -> CpuState {
    CpuState { a: 0, x: 0, y: 0, s: 0xFD, p: 0b0010_0100, pc: rd16(st, 0xFFFC), ..st }
}

/// A := v, with Z and N from v.
pub open spec fn load_a(st: CpuState, v: u8) -> CpuState {
    CpuState { a: v, p: with_zn(st.p, v), ..st }
}

pub open spec fn load_x(st: CpuState, v: u8) -> CpuState {
    CpuState { x: v, p: with_zn(st.p, v), ..st }
}

pub open spec fn load_y(st: CpuState, v: u8) -> CpuState {
    CpuState { y: v, p: with_zn(st.p, v), ..st }
}

/// Signed overflow of an 8-bit sum or difference.
pub open spec fn overflows(v: int) -> bool {
    v < -128 || v > 127
}

/// A := A + m + C; C is the carry out of bit 7 and V the signed overflow.
pub open spec fn adc_with(st: CpuState, m: u8) -> CpuState {
    let c = carry(st);
    let sum = st.a + m + c;
    let r = wrap8(sum);
    let p1 = with_flag(st.p, CARRY, sum > 255);
    let p2 = with_flag(p1, OVERFLOW, overflows(signed8(st.a) + signed8(m) + c));
    CpuState { a: r, p: with_zn(p2, r), ..st }
}

/// A := A - m - (1 - C); C is set when no borrow was needed and V is the
/// signed overflow.
pub open spec fn sbc_with(st: CpuState, m: u8) -> CpuState {
    let b = 1 - carry(st);
    let diff = st.a - m - b;
    let r = wrap8(diff);
    let p1 = with_flag(st.p, CARRY, diff >= 0);
    let p2 = with_flag(p1, OVERFLOW, overflows(signed8(st.a) - signed8(m) - b));
    CpuState { a: r, p: with_zn(p2, r), ..st }
}

/// Flags of `reg - m`: C when reg >= m, Z when equal, N from bit 7 of the
/// difference.
pub open spec fn compare(st: CpuState, reg: u8, m: u8) -> CpuState {
    let p1 = with_flag(st.p, CARRY, m <= reg);
    let p2 = with_flag(p1, ZERO, reg == m);
    CpuState { p: with_flag(p2, NEGATIVE, wrap8(reg - m) >= 128), ..st }
}

/// Writes `v` at `addr`.
pub open spec fn store(st: CpuState, addr: u16, v: u8) -> CpuState {
    CpuState { mem: st.mem.update(addr as int, v), ..st }
}

pub open spec fn asl_spec(st: CpuState, mode: AddressingMode) -> CpuState {
    let ea = operand_address(st, mode);
    let m = rd(st, ea);
    let r = wrap8(2 * m);
    CpuState { p: with_zn(with_flag(st.p, CARRY, m >= 128), r), ..store(st, ea, r) }
}

pub open spec fn lsr_spec(st: CpuState, mode: AddressingMode) -> CpuState {
    let ea = operand_address(st, mode);
    let m = rd(st, ea);
    let r = (m / 2) as u8;
    CpuState { p: with_zn(with_flag(st.p, CARRY, m % 2 == 1), r), ..store(st, ea, r) }
}

pub open spec fn rol_spec(st: CpuState, mode: AddressingMode) -> CpuState {
    let ea = operand_address(st, mode);
    let m = rd(st, ea);
    let r = wrap8(2 * m + carry(st));
    CpuState { p: with_zn(with_flag(st.p, CARRY, m >= 128), r), ..store(st, ea, r) }
}

pub open spec fn ror_spec(st: CpuState, mode: AddressingMode) -> CpuState {
    let ea = operand_address(st, mode);
    let m = rd(st, ea);
    let r = (m / 2 + 128 * carry(st)) as u8;
    CpuState { p: with_zn(with_flag(st.p, CARRY, m % 2 == 1), r), ..store(st, ea, r) }
}

pub open spec fn asl_acc_spec(st: CpuState) -> CpuState {
    let r = wrap8(2 * st.a);
    CpuState { a: r, p: with_zn(with_flag(st.p, CARRY, st.a >= 128), r), ..st }
}

pub open spec fn lsr_acc_spec(st: CpuState) -> CpuState {
    let r = (st.a / 2) as u8;
    CpuState { a: r, p: with_zn(with_flag(st.p, CARRY, st.a % 2 == 1), r), ..st }
}

pub open spec fn rol_acc_spec(st: CpuState) -> CpuState {
    let r = wrap8(2 * st.a + carry(st));
    CpuState { a: r, p: with_zn(with_flag(st.p, CARRY, st.a >= 128), r), ..st }
}

pub open spec fn ror_acc_spec(st: CpuState) -> CpuState {
    let r = (st.a / 2 + 128 * carry(st)) as u8;
    CpuState { a: r, p: with_zn(with_flag(st.p, CARRY, st.a % 2 == 1), r), ..st }
}

pub open spec fn inc_spec(st: CpuState, mode: AddressingMode) -> CpuState {
    let ea = operand_address(st, mode);
    let r = wrap8(rd(st, ea) + 1);
    CpuState { p: with_zn(st.p, r), ..store(st, ea, r) }
}

pub open spec fn dec_spec(st: CpuState, mode: AddressingMode) -> CpuState {
    let ea = operand_address(st, mode);
    let r = wrap8(rd(st, ea) - 1);
    CpuState { p: with_zn(st.p, r), ..store(st, ea, r) }
}

/// BIT: Z from A & m, N and V copied from bits 7 and 6 of m.
pub open spec fn bit_spec(st: CpuState, mode: AddressingMode) -> CpuState {
    let m = operand(st, mode);
    let p1 = with_flag(st.p, ZERO, st.a & m == 0);
    let p2 = with_flag(p1, NEGATIVE, m >= 128);
    CpuState { p: with_flag(p2, OVERFLOW, m % 128 >= 64), ..st }
}

/// A conditional branch: PC moves to the target when `cond` holds.
pub open spec fn branch_spec(st: CpuState, mode: AddressingMode, cond: bool) -> CpuState {
    if cond {
        CpuState { pc: operand_address(st, mode), ..st }
    } else {
        st
    }
}

/// The condition of a branch instruction; false for every other instruction.
pub open spec fn taken_spec(st: CpuState, op: Op) -> bool {
    match op {
        Op::Bcc => !flag(st.p, CARRY),
        Op::Bcs => flag(st.p, CARRY),
        Op::Beq => flag(st.p, ZERO),
        Op::Bne => !flag(st.p, ZERO),
        Op::Bmi => flag(st.p, NEGATIVE),
        Op::Bpl => !flag(st.p, NEGATIVE),
        Op::Bvc => !flag(st.p, OVERFLOW),
        Op::Bvs => flag(st.p, OVERFLOW),
        _ => false,
    }
}

/// BRK skips its padding byte and, unless I is set, enters the handler.
pub open spec fn brk_spec(st: CpuState) -> CpuState {
    let st1 = CpuState { pc: wrap16(st.pc + 1), ..st };
    if !flag(st.p, INTERRUPT_DISABLE) {
        interrupt_spec(st1, spec_brk())
    } else {
        st1
    }
}

/// P as pulled by PLP and RTI: B cleared, bit 5 set.
pub open spec fn pulled_status(v: u8) -> u8 {
    (v & !BREAK) | BREAK2
}

pub open spec fn and_spec(st: CpuState, mode: AddressingMode) -> CpuState {
    load_a(st, st.a & operand(st, mode))
}

pub open spec fn adc_spec(st: CpuState, mode: AddressingMode) -> CpuState {
    adc_with(st, operand(st, mode))
}

pub open spec fn tax_spec(st: CpuState) -> CpuState {
    load_x(st, st.a)
}

/// The effect of an instruction on a state whose PC already points past the
/// opcode, before PC moves past the operand bytes.
pub open spec fn exec_spec(st: CpuState, op: Op, mode: AddressingMode) -> CpuState {
    match op {
        Op::Adc => adc_spec(st, mode),
        Op::Anc => {
            let s1 = and_spec(st, mode);
            CpuState { p: with_flag(s1.p, CARRY, s1.a >= 128), ..s1 }
        },
        Op::And => and_spec(st, mode),
        Op::Asl => asl_spec(st, mode),
        Op::AslAccumulator => asl_acc_spec(st),
        Op::Bcc | Op::Bcs | Op::Beq | Op::Bne | Op::Bmi | Op::Bpl | Op::Bvc | Op::Bvs =>
            branch_spec(st, mode, taken_spec(st, op)),
        Op::Bit => bit_spec(st, mode),
        Op::Brk => brk_spec(st),
        Op::Clc => CpuState { p: st.p & !CARRY, ..st },
        Op::Cld => CpuState { p: st.p & !DECIMAL, ..st },
        Op::Cli => CpuState { p: st.p & !INTERRUPT_DISABLE, ..st },
        Op::Clv => CpuState { p: st.p & !OVERFLOW, ..st },
        Op::Sec => CpuState { p: st.p | CARRY, ..st },
        Op::Sed => CpuState { p: st.p | DECIMAL, ..st },
        Op::Sei => CpuState { p: st.p | INTERRUPT_DISABLE, ..st },
        Op::Cmp => compare(st, st.a, operand(st, mode)),
        Op::Cpx => compare(st, st.x, operand(st, mode)),
        Op::Cpy => compare(st, st.y, operand(st, mode)),
        Op::Dcp => {
            let ea = operand_address(st, mode);
            let d = wrap8(rd(st, ea) - 1);
            compare(store(st, ea, d), st.a, d)
        },
        Op::Dec => dec_spec(st, mode),
        Op::Dex => load_x(st, wrap8(st.x - 1)),
        Op::Dey => load_y(st, wrap8(st.y - 1)),
        Op::Eor => load_a(st, st.a ^ operand(st, mode)),
        Op::Inc => inc_spec(st, mode),
        Op::Inx => load_x(st, wrap8(st.x + 1)),
        Op::Iny => load_y(st, wrap8(st.y + 1)),
        Op::Isb => {
            let ea = operand_address(st, mode);
            let v = wrap8(rd(st, ea) + 1);
            sbc_with(store(st, ea, v), v)
        },
        Op::Jmp => CpuState { pc: wrap16(operand_address(st, mode) - 2), ..st },
        Op::Jsr => {
            let ea = operand_address(st, mode);
            CpuState { pc: wrap16(ea - 2), ..push16_spec(st, wrap16(st.pc + 1)) }
        },
        Op::Lax => tax_spec(load_a(st, operand(st, mode))),
        Op::Lda => load_a(st, operand(st, mode)),
        Op::Ldx => load_x(st, operand(st, mode)),
        Op::Ldy => load_y(st, operand(st, mode)),
        Op::Lsr => lsr_spec(st, mode),
        Op::LsrAccumulator => lsr_acc_spec(st),
        Op::Nop => st,
        Op::Ora => load_a(st, st.a | operand(st, mode)),
        Op::Pha => push_spec(st, st.a),
        Op::Php => push_spec(st, st.p | BREAK | BREAK2),
        Op::Pla => load_a(pop_spec(st), pop_value(st)),
        Op::Plp => CpuState { p: pulled_status(pop_value(st)), ..pop_spec(st) },
        Op::Rla => and_spec(rol_spec(st, mode), mode),
        Op::Rol => rol_spec(st, mode),
        Op::RolAccumulator => rol_acc_spec(st),
        Op::Ror => ror_spec(st, mode),
        Op::RorAccumulator => ror_acc_spec(st),
        Op::Rra => adc_spec(ror_spec(st, mode), mode),
        Op::Rti => {
            let s1 = CpuState { p: pulled_status(pop_value(st)), ..pop_spec(st) };
            CpuState { pc: pop16_value(s1), ..pop_spec(pop_spec(s1)) }
        },
        Op::Rts => CpuState { pc: wrap16(pop16_value(st) + 1), ..pop_spec(pop_spec(st)) },
        Op::Sax => store(st, operand_address(st, mode), st.a & st.x),
        Op::Sbc => sbc_with(st, operand(st, mode)),
        Op::Slo => {
            let ea = operand_address(st, mode);
            let m = rd(st, ea);
            let v = wrap8(2 * m);
            let a = st.a | v;
            CpuState { a: a, p: with_zn(with_flag(st.p, CARRY, m >= 128), a), ..store(st, ea, v) }
        },
        Op::Sre => {
            let ea = operand_address(st, mode);
            let m = rd(st, ea);
            let v = (m / 2) as u8;
            let a = st.a ^ v;
            CpuState { a: a, p: with_zn(with_flag(st.p, CARRY, m % 2 == 1), a), ..store(st, ea, v) }
        },
        Op::Sta => store(st, operand_address(st, mode), st.a),
        Op::Stx => store(st, operand_address(st, mode), st.x),
        Op::Sty => store(st, operand_address(st, mode), st.y),
        Op::Tax => tax_spec(st),
        Op::Tay => load_y(st, st.a),
        Op::Tsx => load_x(st, st.s),
        Op::Txa => load_a(st, st.x),
        Op::Txs => CpuState { s: st.x, ..st },
        Op::Tya => load_a(st, st.y),
        Op::Hlt => st,
        Op::Unsupported => st,
    }
}

/// PC moved past the opcode byte.
pub open spec fn fetched(st: CpuState) -> CpuState {
    CpuState { pc: wrap16(st.pc + 1), ..st }
}

/// The opcode at PC can be executed: it neither jams the core nor is missing
/// from the instruction set that is implemented.
pub open spec fn supported(opcode: u8) -> bool {
    decode_spec(opcode).op != Op::Hlt && decode_spec(opcode).op != Op::Unsupported
}

/// One instruction: fetch, decode, execute, move PC past the operand bytes.
pub open spec fn step_spec(st: CpuState) -> CpuState {
    let d = decode_spec(rd(st, st.pc));
    let st2 = exec_spec(fetched(st), d.op, d.mode);
    CpuState { pc: wrap16(st2.pc + d.len), ..st2 }
}

/// The cycles of one instruction: the base count of the opcode, one more when
/// an indexed read crosses a page, one more for a taken branch and another
/// when its target lies on another page.
pub open spec fn step_cycles(st: CpuState) -> int {
    let d = decode_spec(rd(st, st.pc));
    let st1 = fetched(st);
    let cross = if page_crossed(st1, d.mode) {
        1int
    } else {
        0int
    };
    let penalty = if d.penalty {
        cross
    } else {
        0
    };
    let branch = if taken_spec(st1, d.op) {
        1 + cross
    } else {
        0
    };
    d.cycles + penalty + branch
}

/// Execution until a BRK opcode is fetched (PC then points past it), an
/// opcode that cannot be executed comes up (nothing is done), or `fuel`
/// instructions have run.
pub open spec fn run_spec(st: CpuState, fuel: nat) -> (CpuState, RunOutcome)
    decreases fuel,
{
    let opcode = rd(st, st.pc);
    if fuel == 0 {
        (st, RunOutcome::StepLimit)
    } else if opcode == 0 {
        (fetched(st), RunOutcome::Break)
    } else if !supported(opcode) {
        (st, RunOutcome::Halted(opcode))
    } else {
        run_spec(step_spec(st), (fuel - 1) as nat)
    }
}

/// Memory after a program is placed at $8600 and the reset vector at $FFFC
/// is pointed at it.
pub open spec fn loaded_mem(mem: Seq<u8>, program: Seq<u8>) -> Seq<u8> {
    Seq::new(
        0x10000,
        |k: int|
            if 0x8600 <= k < 0x8600 + program.len() {
                program[k - 0x8600]
            } else {
                mem[k]
            },
    ).update(0xFFFC, 0x00).update(0xFFFD, 0x86)
}

} // verus!
