use vstd::prelude::*;

use super::{AddressingMode, RunOutcome, CARRY, BREAK, BREAK2};
use super::decode::{decode_spec, Decoded, Op};
use super::spec::{
    wrap8,
    wrap16,
    word,
    rd,
    rd16,
    flag,
    with_flag,
    with_zn,
    carry,
    push_spec,
    pop_spec,
    pop_value,
    push16_spec,
    pop16_value,
    interrupt_spec,
    reset_spec,
    adc_with,
    load_a,
    operand_address,
    sbc_with,
    rol_acc_spec,
    ror_acc_spec,
    pulled_status,
    exec_spec,
    step_spec,
    run_spec,
    loaded_mem,
    CpuState,
};
use crate::interrupt::Interrupt;

verus! {

/// How the opcodes of the stack and subroutine instructions decode.
proof fn lemma_decode_stack_ops()
    ensures
        decode_spec(0x20) == (Decoded { op: Op::Jsr, mode: AddressingMode::Absolute, len: 2, cycles: 6, penalty: false }),
        decode_spec(0x60) == (Decoded { op: Op::Rts, mode: AddressingMode::Implied, len: 0, cycles: 6, penalty: false }),
        decode_spec(0x40) == (Decoded { op: Op::Rti, mode: AddressingMode::Implied, len: 0, cycles: 6, penalty: false }),
        decode_spec(0x48) == (Decoded { op: Op::Pha, mode: AddressingMode::Implied, len: 0, cycles: 3, penalty: false }),
        decode_spec(0x68) == (Decoded { op: Op::Pla, mode: AddressingMode::Implied, len: 0, cycles: 4, penalty: false }),
{
    reveal(decode_spec);
}

/// A pull right after a push gives the pushed byte back and returns the
/// stack pointer to where it was.
pub proof fn law_push_then_pull(st: CpuState, v: u8)
    requires
        st.wf(),
    ensures
        pop_value(push_spec(st, v)) == v,
        pop_spec(push_spec(st, v)).s == st.s,
        pop_spec(push_spec(st, v)).mem.len() == 0x10000,
{
    assert(wrap8(wrap8(st.s - 1) + 1) == st.s);
}

/// Pulling a word after pushing it gives the word back, and the stack
/// pointer returns to where it was.
pub proof fn law_push16_then_pull16(st: CpuState, v: u16)
    requires
        st.wf(),
    ensures
        pop16_value(push16_spec(st, v)) == v,
        pop_spec(pop_spec(push16_spec(st, v))).s == st.s,
{
    let hi = (v / 256) as u8;
    let lo = (v % 256) as u8;
    let s1 = push_spec(st, hi);
    let s2 = push_spec(s1, lo);
    law_push_then_pull(s1, lo);
    assert(wrap8(wrap8(s1.s - 1) + 1) == s1.s);
    assert(wrap8(s1.s + 1) == st.s);
    assert(0x100 + wrap8(s1.s + 1) != 0x100 + wrap8(s2.s + 1));
    assert(pop_value(pop_spec(s2)) == hi);
}

/// What the stack instructions do.
proof fn lemma_exec_stack_ops(st: CpuState, mode: AddressingMode)
    ensures
        exec_spec(st, Op::Pha, mode) == push_spec(st, st.a),
        exec_spec(st, Op::Pla, mode) == load_a(pop_spec(st), pop_value(st)),
        exec_spec(st, Op::Jsr, mode) == (CpuState {
            pc: wrap16(operand_address(st, mode) - 2),
            ..push16_spec(st, wrap16(st.pc + 1))
        }),
        exec_spec(st, Op::Rts, mode) == (CpuState { pc: wrap16(pop16_value(st) + 1), ..pop_spec(pop_spec(st)) }),
{
    reveal(exec_spec);
}

/// Going back two bytes and forward two again lands where it started.
proof fn lemma_wrap16_back_and_forth(x: u16)
    ensures
        wrap16(wrap16(x - 2) + 2) == x,
{
    if x >= 2 {
        assert(wrap16(x - 2) == x - 2);
    } else {
        assert(wrap16(x - 2) == x + 0x10000 - 2);
    }
}

/// Two steps forward by one and two add up to three.
proof fn lemma_wrap16_three(pc: u16)
    ensures
        wrap16(wrap16(wrap16(wrap16(pc + 1) + 1) + 1) + 0) == wrap16(pc + 3),
{
}

/// PHA followed by PLA leaves A, X, Y and S as they were and moves PC past
/// both instructions (when the push does not land on the PLA opcode).
pub proof fn law_pha_then_pla(st: CpuState)
    requires
        st.wf(),
        rd(st, st.pc) == 0x48,
        rd(st, wrap16(st.pc + 1)) == 0x68,
        wrap16(st.pc + 1) != 0x100 + st.s,
    ensures
        step_spec(step_spec(st)).a == st.a,
        step_spec(step_spec(st)).x == st.x,
        step_spec(step_spec(st)).y == st.y,
        step_spec(step_spec(st)).s == st.s,
        step_spec(step_spec(st)).pc == wrap16(st.pc + 2),
{
    lemma_decode_stack_ops();
    let st1 = CpuState { pc: wrap16(st.pc + 1), ..st };
    lemma_exec_stack_ops(st1, AddressingMode::Implied);
    let pushed = push_spec(st1, st.a);
    let mid = step_spec(st);
    assert(mid == (CpuState { pc: wrap16(pushed.pc + 0), ..pushed }));
    assert(mid.pc == st1.pc);
    let mid1 = CpuState { pc: wrap16(mid.pc + 1), ..mid };
    lemma_exec_stack_ops(mid1, AddressingMode::Implied);
    law_push_then_pull(st1, st.a);
    assert(mid1.mem == pushed.mem && mid1.s == pushed.s);
    assert(pop_value(mid1) == st.a);
    let r = exec_spec(mid1, Op::Pla, AddressingMode::Implied);
    assert(r.a == st.a && r.s == st.s && r.x == st.x && r.y == st.y && r.pc == mid1.pc);
    assert(step_spec(mid) == (CpuState { pc: wrap16(r.pc + 0), ..r }));
    assert(wrap16(wrap16(st.pc + 1) + 1) == wrap16(st.pc + 2));
}

/// JSR followed by an RTS at the subroutine returns to the instruction after
/// the JSR with the stack pointer where it was.
pub proof fn law_jsr_then_rts(st: CpuState)
    requires
        st.wf(),
        rd(st, st.pc) == 0x20,
        rd(step_spec(st), step_spec(st).pc) == 0x60,
    ensures
        step_spec(step_spec(st)).pc == wrap16(st.pc + 3),
        step_spec(step_spec(st)).s == st.s,
        step_spec(step_spec(st)).a == st.a,
        step_spec(step_spec(st)).x == st.x,
        step_spec(step_spec(st)).y == st.y,
        step_spec(step_spec(st)).p == st.p,
{
    lemma_decode_stack_ops();
    let st1 = CpuState { pc: wrap16(st.pc + 1), ..st };
    lemma_exec_stack_ops(st1, AddressingMode::Absolute);
    let ea = operand_address(st1, AddressingMode::Absolute);
    let ret = wrap16(st1.pc + 1);
    let pushed = push16_spec(st1, ret);
    let j = exec_spec(st1, Op::Jsr, AddressingMode::Absolute);
    assert(j == (CpuState { pc: wrap16(ea - 2), ..pushed }));
    let mid = step_spec(st);
    assert(mid == (CpuState { pc: wrap16(j.pc + 2), ..j }));
    lemma_wrap16_back_and_forth(ea);
    assert(mid.pc == ea);
    let mid1 = CpuState { pc: wrap16(mid.pc + 1), ..mid };
    lemma_exec_stack_ops(mid1, AddressingMode::Implied);
    law_push16_then_pull16(st1, ret);
    assert(mid1.mem == pushed.mem && mid1.s == pushed.s);
    assert(pop16_value(mid1) == pop16_value(pushed));
    let r = exec_spec(mid1, Op::Rts, AddressingMode::Implied);
    assert(r == (CpuState { pc: wrap16(ret + 1), ..pop_spec(pop_spec(mid1)) }));
    assert(step_spec(mid) == (CpuState { pc: wrap16(r.pc + 0), ..r }));
    lemma_wrap16_three(st.pc);
}

/// Returning from an interrupt with RTI at the handler resumes at the PC
/// that was interrupted, with the stack pointer where it was and P as it was
/// but for B cleared and bit 5 set.
pub proof fn law_interrupt_then_rti(st: CpuState, i: Interrupt)
    requires
        st.wf(),
        rd(interrupt_spec(st, i), interrupt_spec(st, i).pc) == 0x40,
    ensures
        step_spec(interrupt_spec(st, i)).pc == st.pc,
        step_spec(interrupt_spec(st, i)).s == st.s,
        step_spec(interrupt_spec(st, i)).p == pulled_status(st.p),
        step_spec(interrupt_spec(st, i)).a == st.a,
        step_spec(interrupt_spec(st, i)).x == st.x,
        step_spec(interrupt_spec(st, i)).y == st.y,
{
    lemma_decode_stack_ops();
    reveal(exec_spec);
    let st1 = push16_spec(st, st.pc);
    let p = st.p;
    let f1 = if i.mask & 0b0001_0000 != 0 {
        p | BREAK2
    } else {
        p
    };
    let f2 = if i.mask & 0b0010_0000 != 0 {
        f1 & !BREAK
    } else {
        f1
    };
    assert(((p | 0x20u8) & !0x10u8) | 0x20u8 == (p & !0x10u8) | 0x20u8 && ((((p | 0x20u8) & !0x10u8) & !0x10u8)
        | 0x20u8) == (p & !0x10u8) | 0x20u8 && (((p & !0x10u8) & !0x10u8) | 0x20u8) == (p & !0x10u8) | 0x20u8)
        by (bit_vector);
    assert(pulled_status(f2) == pulled_status(p));
    let st2 = push_spec(st1, f2);
    law_push_then_pull(st1, f2);
    law_push16_then_pull16(st, st.pc);
    let handler = CpuState { p: st2.p | 0b0000_0100u8, pc: rd16(st2, i.vector), ..st2 };
    let h1 = CpuState { pc: wrap16(handler.pc + 1), ..handler };
    assert(pop_value(h1) == f2);
    let back = CpuState { p: pulled_status(pop_value(h1)), ..pop_spec(h1) };
    assert(back.s == st1.s);
    assert(back.mem == st2.mem);
    assert(st2.mem == st1.mem.update(0x100 + st1.s, f2));
    assert(wrap8(back.s + 1) != st1.s);
    assert(wrap8(wrap8(back.s + 1) + 1) != st1.s);
    assert(pop16_value(back) == pop16_value(st1));
}

/// Adding m with the carry clear and then subtracting m with the carry set
/// gives A back.
pub proof fn law_adc_then_sbc(st: CpuState, m: u8)
    requires
        !flag(st.p, CARRY),
    ensures
        sbc_with(CpuState { p: adc_with(st, m).p | CARRY, ..adc_with(st, m) }, m).a == st.a,
{
    let s1 = adc_with(st, m);
    let s2 = CpuState { p: s1.p | CARRY, ..s1 };
    lemma_carry_bits(s1.p);
    assert(carry(s2) == 1);
    assert(carry(st) == 0);
    assert(s1.a == wrap8(st.a + m));
}

/// Setting or clearing C decides bit 0; setting or clearing Z or N leaves it.
proof fn lemma_carry_bits(p: u8)
    by (bit_vector)
    ensures
        (p | 0x01u8) & 0x01u8 != 0,
        (p & !0x01u8) & 0x01u8 == 0,
        (p | 0x02u8) & 0x01u8 == p & 0x01u8,
        (p & !0x02u8) & 0x01u8 == p & 0x01u8,
        (p | 0x80u8) & 0x01u8 == p & 0x01u8,
        (p & !0x80u8) & 0x01u8 == p & 0x01u8,
{
}

/// After Z and N are set from a result, the carry bit is the one that was
/// just chosen.
proof fn lemma_carry_after(p: u8, c: bool, r: u8)
    ensures
        flag(with_zn(with_flag(p, CARRY, c), r), CARRY) == c,
{
    let q = with_flag(p, CARRY, c);
    lemma_carry_bits(p);
    lemma_carry_bits(q);
    lemma_carry_bits(with_flag(q, 0x02u8, r == 0));
}

/// ROL A followed by ROR A gives A and the carry back.
pub proof fn law_rol_then_ror(st: CpuState)
    ensures
        ror_acc_spec(rol_acc_spec(st)).a == st.a,
        carry(ror_acc_spec(rol_acc_spec(st))) == carry(st),
{
    let s1 = rol_acc_spec(st);
    lemma_carry_after(st.p, st.a >= 128, s1.a);
    lemma_carry_after(s1.p, s1.a % 2 == 1, ror_acc_spec(s1).a);
}

/// Running for f1 + f2 instructions is running for f1 and then, when the
/// budget was what stopped it, for f2 more.
pub proof fn law_run_split(st: CpuState, f1: nat, f2: nat)
    ensures
        run_spec(st, f1 + f2) == if run_spec(st, f1).1 == RunOutcome::StepLimit {
            run_spec(run_spec(st, f1).0, f2)
        } else {
            run_spec(st, f1)
        },
    decreases f1,
{
    if f1 > 0 {
        law_run_split(step_spec(st), (f1 - 1) as nat, f2);
        assert((f1 + f2 - 1) as nat == ((f1 - 1) as nat + f2) as nat);
    }
}

/// After a program is loaded, a reset starts execution at $8600, where the
/// program's bytes lie.
pub proof fn law_load_then_reset(st: CpuState, program: Seq<u8>)
    requires
        st.wf(),
        program.len() <= 0x79FC,
    ensures
        reset_spec(CpuState { mem: loaded_mem(st.mem, program), ..st }).pc == 0x8600,
        forall|k: int|
            0 <= k < program.len() ==> #[trigger] reset_spec(
                CpuState { mem: loaded_mem(st.mem, program), ..st },
            ).mem[0x8600 + k] == program[k],
{
    let l = CpuState { mem: loaded_mem(st.mem, program), ..st };
    assert(rd(l, 0xFFFC) == 0x00 && rd(l, 0xFFFD) == 0x86);
    assert(wrap16(0xFFFCu16 + 1) == 0xFFFD);
}

} // verus!
