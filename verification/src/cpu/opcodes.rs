use vstd::prelude::*;

use super::{AddressingMode, StatusFlags, CPU, CARRY, ZERO, NEGATIVE, OVERFLOW, INTERRUPT_DISABLE, BREAK, BREAK2};
use super::spec::{wrap8, wrap16, signed8, word, rd, rd16, flag, with_flag, with_zn, lemma_zn_negative, carry, push_spec, pop_spec, pop_value, push16_spec, pop16_value, operand_address, operand, page_crossed, interrupt_spec, reset_spec, load_a, load_x, load_y, overflows, adc_with, sbc_with, compare, store, asl_spec, lsr_spec, rol_spec, ror_spec, asl_acc_spec, lsr_acc_spec, rol_acc_spec, ror_acc_spec, inc_spec, dec_spec, bit_spec, branch_spec, taken_spec, brk_spec, pulled_status, and_spec, adc_spec, tax_spec, exec_spec, fetched, supported, step_spec, step_cycles, CpuState};
use super::decode::Op;
use crate::bits::{lemma_byte_bits, lemma_low_byte, lemma_rotate_in, lemma_sign_bits, lemma_bit0_eq};
use crate::interrupt::brk_interrupt;

verus! {

/// The xor test of ADC detects signed overflow of the sum.
proof fn lemma_adc_overflow(a: u8, m: u8, c: int, r: u8)
    requires
        c == 0 || c == 1,
        r == wrap8(a + m + c),
    ensures
        ((a ^ r) & (m ^ r) & 0x80 != 0) == overflows(signed8(a) + signed8(m) + c),
{
    lemma_sign_bits(a, m, r);
}

/// The xor test of SBC detects signed overflow of the difference.
proof fn lemma_sbc_overflow(a: u8, m: u8, b: int, r: u8)
    requires
        b == 0 || b == 1,
        r == wrap8(a - m - b),
    ensures
        ((a ^ r) & (a ^ m) & 0x80 != 0) == overflows(signed8(a) - signed8(m) - b),
{
    lemma_sign_bits(a, m, r);
}

impl CPU {
    pub(crate) fn adc_value(&mut self, value: u8)
        ensures
            final(self)@ == adc_with(old(self)@, value),
    {
        let carry: u16 = if self.status & CARRY != 0 { 1 } else { 0 };
        let result = self.registers.a as u16 + value as u16 + carry;
        self.set_flag_else_clear(StatusFlags::Carry, result > 0xFF);
        proof {
            lemma_low_byte(result);
        }
        let result_u8 = result as u8;
        proof {
            lemma_adc_overflow(self.registers.a, value, carry as int, result_u8);
        }
        self.set_flag_else_clear(
            StatusFlags::Overflow,
            (self.registers.a ^ result_u8) & (value ^ result_u8) & 0x80 != 0,
        );
        self.registers.a = result_u8;
        self.set_zn(self.registers.a);
    }

    pub(crate) fn sbc_value(&mut self, value: u8)
        ensures
            final(self)@ == sbc_with(old(self)@, value),
    {
        let carry: u16 = if self.status & CARRY != 0 { 0 } else { 1 };
        let result = (self.registers.a as u16).wrapping_sub(value as u16).wrapping_sub(carry);
        self.set_flag_else_clear(StatusFlags::Carry, result < 0x100);
        proof {
            lemma_low_byte(result);
        }
        let result_u8 = result as u8;
        proof {
            lemma_sbc_overflow(self.registers.a, value, carry as int, result_u8);
        }
        self.set_flag_else_clear(
            StatusFlags::Overflow,
            ((self.registers.a ^ result_u8) & (self.registers.a ^ value) & 0x80) != 0,
        );
        self.registers.a = result_u8;
        self.set_zn(self.registers.a);
    }

    pub(crate) fn compare_with(&mut self, reg: u8, data: u8)
        ensures
            final(self)@ == compare(old(self)@, reg, data),
    {
        self.set_flag_else_clear(StatusFlags::Carry, data <= reg);
        let subbed = reg.wrapping_sub(data);
        proof {
            lemma_byte_bits(subbed);
        }
        self.set_flag_else_clear(StatusFlags::Zero, subbed == 0);
        self.set_flag_else_clear(StatusFlags::Negative, (subbed >> 7u8) == 1);
    }

    fn adc(&mut self, mode: &AddressingMode) -> (r: bool)
        ensures
            final(self)@ == exec_spec(old(self)@, Op::Adc, *mode),
            !r,
    {
        reveal(exec_spec);
        let addr = self.operand_address(mode);
        let value = self.read(addr);
        self.adc_value(value);
        false
    }

    fn anc(&mut self, mode: &AddressingMode) -> (r: bool)
        ensures
            final(self)@ == exec_spec(old(self)@, Op::Anc, *mode),
            !r,
    {
        reveal(exec_spec);
        self.and(mode);
        proof {
            lemma_zn_negative(old(self).status, self.registers.a);
        }
        self.set_flag_else_clear(StatusFlags::Carry, self.status & NEGATIVE != 0);
        false
    }

    fn and(&mut self, mode: &AddressingMode) -> (r: bool)
        ensures
            final(self)@ == exec_spec(old(self)@, Op::And, *mode),
            !r,
    {
        reveal(exec_spec);
        let addr = self.operand_address(mode);
        let value = self.read(addr);
        self.registers.a = self.registers.a & value;
        self.set_zn(self.registers.a);
        false
    }

    fn asl(&mut self, mode: &AddressingMode) -> (r: bool)
        ensures
            final(self)@ == exec_spec(old(self)@, Op::Asl, *mode),
            !r,
    {
        reveal(exec_spec);
        let addr = self.operand_address(mode);
        let mut value = self.read(addr);
        proof {
            lemma_byte_bits(value);
        }
        self.set_flag_else_clear(StatusFlags::Carry, (value & 0x80) != 0);
        value = value << 1u8;
        self.write(addr, value);
        self.set_zn(value);
        false
    }

    fn asl_accumulator(&mut self, _mode: &AddressingMode) -> (r: bool)
        ensures
            final(self)@ == exec_spec(old(self)@, Op::AslAccumulator, *_mode),
            !r,
    {
        reveal(exec_spec);
        let mut value = self.registers.a;
        proof {
            lemma_byte_bits(value);
        }
        self.set_flag_else_clear(StatusFlags::Carry, (value & 0x80) != 0);
        value = value << 1u8;
        self.registers.a = value;
        self.set_zn(value);
        false
    }

    fn branch(&mut self, mode: &AddressingMode, cond: bool) -> (r: bool)
        ensures
            final(self)@ == branch_spec(old(self)@, *mode, cond),
            r == cond,
    {
        if cond {
            self.pc = self.operand_address(mode);
            return true;
        }
        false
    }

    fn bit(&mut self, mode: &AddressingMode) -> (r: bool)
        ensures
            final(self)@ == exec_spec(old(self)@, Op::Bit, *mode),
            !r,
    {
        reveal(exec_spec);
        let addr = self.operand_address(mode);
        let data = self.read(addr);
        let and = self.registers.a & data;
        proof {
            lemma_byte_bits(data);
        }
        self.set_flag_else_clear(StatusFlags::Zero, and == 0);
        self.set_flag_else_clear(StatusFlags::Negative, (data & 0b1000_0000) != 0);
        self.set_flag_else_clear(StatusFlags::Overflow, (data & 0b0100_0000) != 0);
        false
    }

    fn brk(&mut self, _mode: &AddressingMode) -> (r: bool)
        ensures
            final(self)@ == exec_spec(old(self)@, Op::Brk, *_mode),
            !r,
    {
        reveal(exec_spec);
        self.pc = self.pc.wrapping_add(1);
        if self.status & INTERRUPT_DISABLE == 0 {
            self.interrupt(brk_interrupt());
        }
        false
    }

    fn cmp(&mut self, mode: &AddressingMode) -> (r: bool)
        ensures
            final(self)@ == exec_spec(old(self)@, Op::Cmp, *mode),
            !r,
    {
        reveal(exec_spec);
        let addr = self.operand_address(mode);
        let data = self.read(addr);
        self.compare_with(self.registers.a, data);
        false
    }

    fn cpx(&mut self, mode: &AddressingMode) -> (r: bool)
        ensures
            final(self)@ == exec_spec(old(self)@, Op::Cpx, *mode),
            !r,
    {
        reveal(exec_spec);
        let addr = self.operand_address(mode);
        let data = self.read(addr);
        self.compare_with(self.registers.x, data);
        false
    }

    fn cpy(&mut self, mode: &AddressingMode) -> (r: bool)
        ensures
            final(self)@ == exec_spec(old(self)@, Op::Cpy, *mode),
            !r,
    {
        reveal(exec_spec);
        let addr = self.operand_address(mode);
        let data = self.read(addr);
        self.compare_with(self.registers.y, data);
        false
    }

    fn dcp(&mut self, mode: &AddressingMode) -> (r: bool)
        ensures
            final(self)@ == exec_spec(old(self)@, Op::Dcp, *mode),
            !r,
    {
        reveal(exec_spec);
        let addr = self.operand_address(mode);
        let mut data = self.read(addr);
        data = data.wrapping_sub(1);
        self.write(addr, data);
        self.compare_with(self.registers.a, data);
        false
    }

    fn dec(&mut self, mode: &AddressingMode) -> (r: bool)
        ensures
            final(self)@ == exec_spec(old(self)@, Op::Dec, *mode),
            !r,
    {
        reveal(exec_spec);
        let addr: u16 = self.operand_address(mode);
        let value: u8 = self.read(addr);
        let result: u8 = value.wrapping_sub(1);
        self.write(addr, result);
        self.set_zn(result);
        false
    }

    fn dex(&mut self, _mode: &AddressingMode) -> (r: bool)
        ensures
            final(self)@ == exec_spec(old(self)@, Op::Dex, *_mode),
            !r,
    {
        reveal(exec_spec);
        self.registers.x = self.registers.x.wrapping_sub(1);
        self.set_zn(self.registers.x);
        false
    }

    fn dey(&mut self, _mode: &AddressingMode) -> (r: bool)
        ensures
            final(self)@ == exec_spec(old(self)@, Op::Dey, *_mode),
            !r,
    {
        reveal(exec_spec);
        self.registers.y = self.registers.y.wrapping_sub(1);
        self.set_zn(self.registers.y);
        false
    }

    fn eor(&mut self, mode: &AddressingMode) -> (r: bool)
        ensures
            final(self)@ == exec_spec(old(self)@, Op::Eor, *mode),
            !r,
    {
        reveal(exec_spec);
        let addr = self.operand_address(mode);
        let value = self.read(addr);
        self.registers.a = self.registers.a ^ value;
        self.set_zn(self.registers.a);
        false
    }

    fn inc(&mut self, mode: &AddressingMode) -> (r: bool)
        ensures
            final(self)@ == exec_spec(old(self)@, Op::Inc, *mode),
            !r,
    {
        reveal(exec_spec);
        let addr: u16 = self.operand_address(mode);
        let value: u8 = self.read(addr);
        let result: u8 = value.wrapping_add(1);
        self.write(addr, result);
        self.set_zn(result);
        false
    }

    fn inx(&mut self, _mode: &AddressingMode) -> (r: bool)
        ensures
            final(self)@ == exec_spec(old(self)@, Op::Inx, *_mode),
            !r,
    {
        reveal(exec_spec);
        self.registers.x = self.registers.x.wrapping_add(1);
        self.set_zn(self.registers.x);
        false
    }

    fn iny(&mut self, _mode: &AddressingMode) -> (r: bool)
        ensures
            final(self)@ == exec_spec(old(self)@, Op::Iny, *_mode),
            !r,
    {
        reveal(exec_spec);
        self.registers.y = self.registers.y.wrapping_add(1);
        self.set_zn(self.registers.y);
        false
    }

    fn isb(&mut self, mode: &AddressingMode) -> (r: bool)
        ensures
            final(self)@ == exec_spec(old(self)@, Op::Isb, *mode),
            !r,
    {
        reveal(exec_spec);
        let addr = self.operand_address(mode);
        let mut value = self.read(addr);
        value = value.wrapping_add(1);
        self.write(addr, value);
        self.sbc_value(value);
        false
    }

    fn jmp(&mut self, mode: &AddressingMode) -> (r: bool)
        ensures
            final(self)@ == exec_spec(old(self)@, Op::Jmp, *mode),
            !r,
    {
        reveal(exec_spec);
        let addr: u16 = self.operand_address(mode);
        // the caller moves PC past the two operand bytes afterwards
        self.pc = addr.wrapping_sub(2);
        false
    }

    fn jsr(&mut self, mode: &AddressingMode) -> (r: bool)
        ensures
            final(self)@ == exec_spec(old(self)@, Op::Jsr, *mode),
            !r,
    {
        reveal(exec_spec);
        let addr = self.operand_address(mode);
        // push the address of the last byte of this instruction
        self.stack_push_u16(self.pc.wrapping_add(1));
        self.pc = addr.wrapping_sub(2);
        false
    }

    fn lax(&mut self, mode: &AddressingMode) -> (r: bool)
        ensures
            final(self)@ == exec_spec(old(self)@, Op::Lax, *mode),
            !r,
    {
        reveal(exec_spec);
        self.lda(mode);
        self.tax(mode);
        false
    }

    fn lda(&mut self, mode: &AddressingMode) -> (r: bool)
        ensures
            final(self)@ == exec_spec(old(self)@, Op::Lda, *mode),
            !r,
    {
        reveal(exec_spec);
        let addr = self.operand_address(mode);
        let value = self.read(addr);
        self.registers.a = value;
        self.set_zn(self.registers.a);
        false
    }

    fn ldx(&mut self, mode: &AddressingMode) -> (r: bool)
        ensures
            final(self)@ == exec_spec(old(self)@, Op::Ldx, *mode),
            !r,
    {
        reveal(exec_spec);
        let addr = self.operand_address(mode);
        let value = self.read(addr);
        self.registers.x = value;
        self.set_zn(self.registers.x);
        false
    }

    fn ldy(&mut self, mode: &AddressingMode) -> (r: bool)
        ensures
            final(self)@ == exec_spec(old(self)@, Op::Ldy, *mode),
            !r,
    {
        reveal(exec_spec);
        let addr = self.operand_address(mode);
        let value = self.read(addr);
        self.registers.y = value;
        self.set_zn(self.registers.y);
        false
    }

    fn lsr(&mut self, mode: &AddressingMode) -> (r: bool)
        ensures
            final(self)@ == exec_spec(old(self)@, Op::Lsr, *mode),
            !r,
    {
        reveal(exec_spec);
        let addr = self.operand_address(mode);
        let mut data = self.read(addr);
        proof {
            lemma_byte_bits(data);
        }
        self.set_flag_else_clear(StatusFlags::Carry, data & 1 != 0);
        data = data >> 1u8;
        self.write(addr, data);
        self.set_zn(data);
        false
    }

    fn lsr_accumulator(&mut self, _mode: &AddressingMode) -> (r: bool)
        ensures
            final(self)@ == exec_spec(old(self)@, Op::LsrAccumulator, *_mode),
            !r,
    {
        reveal(exec_spec);
        let value = self.registers.a;
        proof {
            lemma_byte_bits(value);
        }
        self.registers.a = (value >> 1u8) & 0b0111_1111;
        self.set_flag_else_clear(StatusFlags::Carry, (value & 0b0000_0001) != 0);
        self.set_zn(self.registers.a);
        false
    }

    fn nop(&mut self, mode: &AddressingMode) -> (r: bool)
        ensures
            final(self)@ == exec_spec(old(self)@, Op::Nop, *mode),
            !r,
    {
        reveal(exec_spec);
        match mode {
            AddressingMode::Implied => {},
            _ => {
                // the operand is read and discarded
                let addr = self.operand_address(mode);
                let _ = self.read(addr);
            },
        }
        false
    }

    fn ora(&mut self, mode: &AddressingMode) -> (r: bool)
        ensures
            final(self)@ == exec_spec(old(self)@, Op::Ora, *mode),
            !r,
    {
        reveal(exec_spec);
        let addr = self.operand_address(mode);
        let value = self.read(addr);
        self.registers.a = self.registers.a | value;
        self.set_zn(self.registers.a);
        false
    }

    fn pha(&mut self, _mode: &AddressingMode) -> (r: bool)
        ensures
            final(self)@ == exec_spec(old(self)@, Op::Pha, *_mode),
            !r,
    {
        reveal(exec_spec);
        self.stack_push(self.registers.a);
        false
    }

    fn php(&mut self, _mode: &AddressingMode) -> (r: bool)
        ensures
            final(self)@ == exec_spec(old(self)@, Op::Php, *_mode),
            !r,
    {
        reveal(exec_spec);
        let mut status = self.status;
        status = status | BREAK;
        status = status | BREAK2;
        self.stack_push(status);
        false
    }

    fn pla(&mut self, _mode: &AddressingMode) -> (r: bool)
        ensures
            final(self)@ == exec_spec(old(self)@, Op::Pla, *_mode),
            !r,
    {
        reveal(exec_spec);
        self.registers.a = self.stack_pop();
        self.set_zn(self.registers.a);
        false
    }

    fn plp(&mut self, _mode: &AddressingMode) -> (r: bool)
        ensures
            final(self)@ == exec_spec(old(self)@, Op::Plp, *_mode),
            !r,
    {
        reveal(exec_spec);
        self.status = self.stack_pop();
        self.clear_flag(StatusFlags::Break);
        self.set_flag(StatusFlags::Break2);
        false
    }

    fn rla(&mut self, mode: &AddressingMode) -> (r: bool)
        ensures
            final(self)@ == exec_spec(old(self)@, Op::Rla, *mode),
            !r,
    {
        reveal(exec_spec);
        self.rol(mode);
        self.and(mode);
        false
    }

    fn rol(&mut self, mode: &AddressingMode) -> (r: bool)
        ensures
            final(self)@ == exec_spec(old(self)@, Op::Rol, *mode),
            !r,
    {
        reveal(exec_spec);
        let addr = self.operand_address(mode);
        let mut value = self.read(addr);
        proof {
            lemma_byte_bits(value);
        }
        let old_b7 = (value & 0x80) != 0;
        value = value << 1u8;
        if self.status & CARRY != 0 {
            value = value | 0b0000_0001;
        }
        self.write(addr, value);
        self.set_flag_else_clear(StatusFlags::Carry, old_b7);
        self.set_zn(value);
        false
    }

    fn rol_accumulator(&mut self, _mode: &AddressingMode) -> (r: bool)
        ensures
            final(self)@ == exec_spec(old(self)@, Op::RolAccumulator, *_mode),
            !r,
    {
        reveal(exec_spec);
        proof {
            lemma_byte_bits(self.registers.a);
        }
        let old_b7 = (self.registers.a & 0x80) != 0;
        self.registers.a = self.registers.a << 1u8;
        if self.status & CARRY != 0 {
            self.registers.a = self.registers.a | 0b0000_0001;
        }
        self.set_flag_else_clear(StatusFlags::Carry, old_b7);
        self.set_zn(self.registers.a);
        false
    }

    fn ror_accumulator(&mut self, _mode: &AddressingMode) -> (r: bool)
        ensures
            final(self)@ == exec_spec(old(self)@, Op::RorAccumulator, *_mode),
            !r,
    {
        reveal(exec_spec);
        proof {
            lemma_byte_bits(self.registers.a);
            lemma_byte_bits(self.registers.a >> 1u8);
            lemma_bit0_eq(self.status);
        }
        let old_b0 = self.registers.a & 0b0000_0001;
        self.registers.a = self.registers.a >> 1u8;
        if self.status & CARRY == 1 {
            self.registers.a = self.registers.a | 0b1000_0000;
        } else {
            self.registers.a = self.registers.a & 0b0111_1111;
        }
        self.set_flag_else_clear(StatusFlags::Carry, old_b0 != 0);
        self.set_zn(self.registers.a);
        false
    }

    fn ror(&mut self, mode: &AddressingMode) -> (r: bool)
        ensures
            final(self)@ == exec_spec(old(self)@, Op::Ror, *mode),
            !r,
    {
        reveal(exec_spec);
        let addr = self.operand_address(mode);
        let value = self.read(addr);
        let carry: u8 = if self.status & CARRY != 0 { 1 } else { 0 };
        proof {
            lemma_rotate_in(value, carry);
            lemma_byte_bits(value);
        }
        let result = (value >> 1u8) | (carry << 7u8);
        self.write(addr, result);
        self.set_flag_else_clear(StatusFlags::Carry, value & 0x01 != 0);
        self.set_zn(result);
        false
    }

    fn rra(&mut self, mode: &AddressingMode) -> (r: bool)
        ensures
            final(self)@ == exec_spec(old(self)@, Op::Rra, *mode),
            !r,
    {
        reveal(exec_spec);
        self.ror(mode);
        self.adc(mode);
        false
    }

    fn rti(&mut self, _mode: &AddressingMode) -> (r: bool)
        ensures
            final(self)@ == exec_spec(old(self)@, Op::Rti, *_mode),
            !r,
    {
        reveal(exec_spec);
        self.status = self.stack_pop();
        self.clear_flag(StatusFlags::Break);
        self.set_flag(StatusFlags::Break2);
        self.pc = self.stack_pop_u16();
        false
    }

    fn rts(&mut self, _mode: &AddressingMode) -> (r: bool)
        ensures
            final(self)@ == exec_spec(old(self)@, Op::Rts, *_mode),
            !r,
    {
        reveal(exec_spec);
        self.pc = self.stack_pop_u16().wrapping_add(1);
        false
    }

    fn sax(&mut self, mode: &AddressingMode) -> (r: bool)
        ensures
            final(self)@ == exec_spec(old(self)@, Op::Sax, *mode),
            !r,
    {
        reveal(exec_spec);
        let addr = self.operand_address(mode);
        self.write(addr, self.registers.a & self.registers.x);
        false
    }

    fn sbc(&mut self, mode: &AddressingMode) -> (r: bool)
        ensures
            final(self)@ == exec_spec(old(self)@, Op::Sbc, *mode),
            !r,
    {
        reveal(exec_spec);
        let addr = self.operand_address(mode);
        let value = self.read(addr);
        self.sbc_value(value);
        false
    }

    fn slo(&mut self, mode: &AddressingMode) -> (r: bool)
        ensures
            final(self)@ == exec_spec(old(self)@, Op::Slo, *mode),
            !r,
    {
        reveal(exec_spec);
        let addr = self.operand_address(mode);
        let mut value = self.read(addr);
        proof {
            lemma_byte_bits(value);
        }
        self.set_flag_else_clear(StatusFlags::Carry, (value & 0x80) != 0);
        value = value << 1u8;
        self.registers.a = self.registers.a | value;
        self.set_zn(self.registers.a);
        self.write(addr, value);
        false
    }

    fn sre(&mut self, mode: &AddressingMode) -> (r: bool)
        ensures
            final(self)@ == exec_spec(old(self)@, Op::Sre, *mode),
            !r,
    {
        reveal(exec_spec);
        let addr = self.operand_address(mode);
        let mut value = self.read(addr);
        proof {
            lemma_byte_bits(value);
        }
        self.set_flag_else_clear(StatusFlags::Carry, (value & 0x01) != 0);
        value = value >> 1u8;
        self.registers.a = self.registers.a ^ value;
        self.set_zn(self.registers.a);
        self.write(addr, value);
        false
    }

    fn sta(&mut self, mode: &AddressingMode) -> (r: bool)
        ensures
            final(self)@ == exec_spec(old(self)@, Op::Sta, *mode),
            !r,
    {
        reveal(exec_spec);
        let addr = self.operand_address(mode);
        self.write(addr, self.registers.a);
        false
    }

    fn stx(&mut self, mode: &AddressingMode) -> (r: bool)
        ensures
            final(self)@ == exec_spec(old(self)@, Op::Stx, *mode),
            !r,
    {
        reveal(exec_spec);
        let addr = self.operand_address(mode);
        self.write(addr, self.registers.x);
        false
    }

    fn sty(&mut self, mode: &AddressingMode) -> (r: bool)
        ensures
            final(self)@ == exec_spec(old(self)@, Op::Sty, *mode),
            !r,
    {
        reveal(exec_spec);
        let addr = self.operand_address(mode);
        self.write(addr, self.registers.y);
        false
    }

    fn tax(&mut self, _mode: &AddressingMode) -> (r: bool)
        ensures
            final(self)@ == exec_spec(old(self)@, Op::Tax, *_mode),
            !r,
    {
        reveal(exec_spec);
        self.registers.x = self.registers.a;
        self.set_zn(self.registers.x);
        false
    }

    fn tay(&mut self, _mode: &AddressingMode) -> (r: bool)
        ensures
            final(self)@ == exec_spec(old(self)@, Op::Tay, *_mode),
            !r,
    {
        reveal(exec_spec);
        self.registers.y = self.registers.a;
        self.set_zn(self.registers.y);
        false
    }

    fn tsx(&mut self, _mode: &AddressingMode) -> (r: bool)
        ensures
            final(self)@ == exec_spec(old(self)@, Op::Tsx, *_mode),
            !r,
    {
        reveal(exec_spec);
        self.registers.x = self.registers.s;
        self.set_zn(self.registers.x);
        false
    }

    fn txa(&mut self, _mode: &AddressingMode) -> (r: bool)
        ensures
            final(self)@ == exec_spec(old(self)@, Op::Txa, *_mode),
            !r,
    {
        reveal(exec_spec);
        self.registers.a = self.registers.x;
        self.set_zn(self.registers.a);
        false
    }

    fn txs(&mut self, _mode: &AddressingMode) -> (r: bool)
        ensures
            final(self)@ == exec_spec(old(self)@, Op::Txs, *_mode),
            !r,
    {
        reveal(exec_spec);
        self.registers.s = self.registers.x;
        false
    }

    fn tya(&mut self, _mode: &AddressingMode) -> (r: bool)
        ensures
            final(self)@ == exec_spec(old(self)@, Op::Tya, *_mode),
            !r,
    {
        reveal(exec_spec);
        self.registers.a = self.registers.y;
        self.set_zn(self.registers.a);
        false
    }

    fn bcc(&mut self, mode: &AddressingMode) -> (r: bool)
        ensures
            final(self)@ == exec_spec(old(self)@, Op::Bcc, *mode),
            r == taken_spec(old(self)@, Op::Bcc),
    {
        reveal(exec_spec);
        let cond = self.status & CARRY == 0;
        self.branch(mode, cond)
    }

    fn bcs(&mut self, mode: &AddressingMode) -> (r: bool)
        ensures
            final(self)@ == exec_spec(old(self)@, Op::Bcs, *mode),
            r == taken_spec(old(self)@, Op::Bcs),
    {
        reveal(exec_spec);
        let cond = self.status & CARRY != 0;
        self.branch(mode, cond)
    }

    fn beq(&mut self, mode: &AddressingMode) -> (r: bool)
        ensures
            final(self)@ == exec_spec(old(self)@, Op::Beq, *mode),
            r == taken_spec(old(self)@, Op::Beq),
    {
        reveal(exec_spec);
        let cond = self.status & ZERO != 0;
        self.branch(mode, cond)
    }

    fn bne(&mut self, mode: &AddressingMode) -> (r: bool)
        ensures
            final(self)@ == exec_spec(old(self)@, Op::Bne, *mode),
            r == taken_spec(old(self)@, Op::Bne),
    {
        reveal(exec_spec);
        let cond = self.status & ZERO == 0;
        self.branch(mode, cond)
    }

    fn bmi(&mut self, mode: &AddressingMode) -> (r: bool)
        ensures
            final(self)@ == exec_spec(old(self)@, Op::Bmi, *mode),
            r == taken_spec(old(self)@, Op::Bmi),
    {
        reveal(exec_spec);
        let cond = self.status & NEGATIVE != 0;
        self.branch(mode, cond)
    }

    fn bpl(&mut self, mode: &AddressingMode) -> (r: bool)
        ensures
            final(self)@ == exec_spec(old(self)@, Op::Bpl, *mode),
            r == taken_spec(old(self)@, Op::Bpl),
    {
        reveal(exec_spec);
        let cond = self.status & NEGATIVE == 0;
        self.branch(mode, cond)
    }

    fn bvc(&mut self, mode: &AddressingMode) -> (r: bool)
        ensures
            final(self)@ == exec_spec(old(self)@, Op::Bvc, *mode),
            r == taken_spec(old(self)@, Op::Bvc),
    {
        reveal(exec_spec);
        let cond = self.status & OVERFLOW == 0;
        self.branch(mode, cond)
    }

    fn bvs(&mut self, mode: &AddressingMode) -> (r: bool)
        ensures
            final(self)@ == exec_spec(old(self)@, Op::Bvs, *mode),
            r == taken_spec(old(self)@, Op::Bvs),
    {
        reveal(exec_spec);
        let cond = self.status & OVERFLOW != 0;
        self.branch(mode, cond)
    }

    fn clc(&mut self, _mode: &AddressingMode) -> (r: bool)
        ensures
            final(self)@ == exec_spec(old(self)@, Op::Clc, *_mode),
            !r,
    {
        reveal(exec_spec);
        self.clear_flag(StatusFlags::Carry);
        false
    }

    fn cld(&mut self, _mode: &AddressingMode) -> (r: bool)
        ensures
            final(self)@ == exec_spec(old(self)@, Op::Cld, *_mode),
            !r,
    {
        reveal(exec_spec);
        self.clear_flag(StatusFlags::DecimalUnused);
        false
    }

    fn cli(&mut self, _mode: &AddressingMode) -> (r: bool)
        ensures
            final(self)@ == exec_spec(old(self)@, Op::Cli, *_mode),
            !r,
    {
        reveal(exec_spec);
        self.clear_flag(StatusFlags::InterruptDisable);
        false
    }

    fn clv(&mut self, _mode: &AddressingMode) -> (r: bool)
        ensures
            final(self)@ == exec_spec(old(self)@, Op::Clv, *_mode),
            !r,
    {
        reveal(exec_spec);
        self.clear_flag(StatusFlags::Overflow);
        false
    }

    fn sec(&mut self, _mode: &AddressingMode) -> (r: bool)
        ensures
            final(self)@ == exec_spec(old(self)@, Op::Sec, *_mode),
            !r,
    {
        reveal(exec_spec);
        self.set_flag(StatusFlags::Carry);
        false
    }

    fn sed(&mut self, _mode: &AddressingMode) -> (r: bool)
        ensures
            final(self)@ == exec_spec(old(self)@, Op::Sed, *_mode),
            !r,
    {
        reveal(exec_spec);
        self.set_flag(StatusFlags::DecimalUnused);
        false
    }

    fn sei(&mut self, _mode: &AddressingMode) -> (r: bool)
        ensures
            final(self)@ == exec_spec(old(self)@, Op::Sei, *_mode),
            !r,
    {
        reveal(exec_spec);
        self.set_flag(StatusFlags::InterruptDisable);
        false
    }

    fn exec_group0(&mut self, op: Op, mode: &AddressingMode) -> (taken: bool)
        requires
            op == Op::Adc || op == Op::Anc || op == Op::And || op == Op::Asl || op == Op::AslAccumulator || op == Op::Bcc || op == Op::Bcs || op == Op::Beq || op == Op::Bit || op == Op::Bmi,
        ensures
            final(self)@ == exec_spec(old(self)@, op, *mode),
            taken == taken_spec(old(self)@, op),
    {
        match op {
            Op::Adc => self.adc(mode),
            Op::Anc => self.anc(mode),
            Op::And => self.and(mode),
            Op::Asl => self.asl(mode),
            Op::AslAccumulator => self.asl_accumulator(mode),
            Op::Bcc => self.bcc(mode),
            Op::Bcs => self.bcs(mode),
            Op::Beq => self.beq(mode),
            Op::Bit => self.bit(mode),
            Op::Bmi => self.bmi(mode),
            _ => false,
        }
    }

    fn exec_group1(&mut self, op: Op, mode: &AddressingMode) -> (taken: bool)
        requires
            op == Op::Bne || op == Op::Bpl || op == Op::Brk || op == Op::Bvc || op == Op::Bvs || op == Op::Clc || op == Op::Cld || op == Op::Cli || op == Op::Clv || op == Op::Cmp,
        ensures
            final(self)@ == exec_spec(old(self)@, op, *mode),
            taken == taken_spec(old(self)@, op),
    {
        match op {
            Op::Bne => self.bne(mode),
            Op::Bpl => self.bpl(mode),
            Op::Brk => self.brk(mode),
            Op::Bvc => self.bvc(mode),
            Op::Bvs => self.bvs(mode),
            Op::Clc => self.clc(mode),
            Op::Cld => self.cld(mode),
            Op::Cli => self.cli(mode),
            Op::Clv => self.clv(mode),
            Op::Cmp => self.cmp(mode),
            _ => false,
        }
    }

    fn exec_group2(&mut self, op: Op, mode: &AddressingMode) -> (taken: bool)
        requires
            op == Op::Cpx || op == Op::Cpy || op == Op::Dcp || op == Op::Dec || op == Op::Dex || op == Op::Dey || op == Op::Eor || op == Op::Inc || op == Op::Inx || op == Op::Iny,
        ensures
            final(self)@ == exec_spec(old(self)@, op, *mode),
            taken == taken_spec(old(self)@, op),
    {
        match op {
            Op::Cpx => self.cpx(mode),
            Op::Cpy => self.cpy(mode),
            Op::Dcp => self.dcp(mode),
            Op::Dec => self.dec(mode),
            Op::Dex => self.dex(mode),
            Op::Dey => self.dey(mode),
            Op::Eor => self.eor(mode),
            Op::Inc => self.inc(mode),
            Op::Inx => self.inx(mode),
            Op::Iny => self.iny(mode),
            _ => false,
        }
    }

    fn exec_group3(&mut self, op: Op, mode: &AddressingMode) -> (taken: bool)
        requires
            op == Op::Isb || op == Op::Jmp || op == Op::Jsr || op == Op::Lax || op == Op::Lda || op == Op::Ldx || op == Op::Ldy || op == Op::Lsr || op == Op::LsrAccumulator || op == Op::Nop,
        ensures
            final(self)@ == exec_spec(old(self)@, op, *mode),
            taken == taken_spec(old(self)@, op),
    {
        match op {
            Op::Isb => self.isb(mode),
            Op::Jmp => self.jmp(mode),
            Op::Jsr => self.jsr(mode),
            Op::Lax => self.lax(mode),
            Op::Lda => self.lda(mode),
            Op::Ldx => self.ldx(mode),
            Op::Ldy => self.ldy(mode),
            Op::Lsr => self.lsr(mode),
            Op::LsrAccumulator => self.lsr_accumulator(mode),
            Op::Nop => self.nop(mode),
            _ => false,
        }
    }

    fn exec_group4(&mut self, op: Op, mode: &AddressingMode) -> (taken: bool)
        requires
            op == Op::Ora || op == Op::Pha || op == Op::Php || op == Op::Pla || op == Op::Plp || op == Op::Rla || op == Op::Rol || op == Op::RolAccumulator || op == Op::Ror || op == Op::RorAccumulator,
        ensures
            final(self)@ == exec_spec(old(self)@, op, *mode),
            taken == taken_spec(old(self)@, op),
    {
        match op {
            Op::Ora => self.ora(mode),
            Op::Pha => self.pha(mode),
            Op::Php => self.php(mode),
            Op::Pla => self.pla(mode),
            Op::Plp => self.plp(mode),
            Op::Rla => self.rla(mode),
            Op::Rol => self.rol(mode),
            Op::RolAccumulator => self.rol_accumulator(mode),
            Op::Ror => self.ror(mode),
            Op::RorAccumulator => self.ror_accumulator(mode),
            _ => false,
        }
    }

    fn exec_group5(&mut self, op: Op, mode: &AddressingMode) -> (taken: bool)
        requires
            op == Op::Rra || op == Op::Rti || op == Op::Rts || op == Op::Sax || op == Op::Sbc || op == Op::Sec || op == Op::Sed || op == Op::Sei || op == Op::Slo || op == Op::Sre,
        ensures
            final(self)@ == exec_spec(old(self)@, op, *mode),
            taken == taken_spec(old(self)@, op),
    {
        match op {
            Op::Rra => self.rra(mode),
            Op::Rti => self.rti(mode),
            Op::Rts => self.rts(mode),
            Op::Sax => self.sax(mode),
            Op::Sbc => self.sbc(mode),
            Op::Sec => self.sec(mode),
            Op::Sed => self.sed(mode),
            Op::Sei => self.sei(mode),
            Op::Slo => self.slo(mode),
            Op::Sre => self.sre(mode),
            _ => false,
        }
    }

    fn exec_group6(&mut self, op: Op, mode: &AddressingMode) -> (taken: bool)
        requires
            op == Op::Sta || op == Op::Stx || op == Op::Sty || op == Op::Tax || op == Op::Tay || op == Op::Tsx || op == Op::Txa || op == Op::Txs || op == Op::Tya,
        ensures
            final(self)@ == exec_spec(old(self)@, op, *mode),
            taken == taken_spec(old(self)@, op),
    {
        match op {
            Op::Sta => self.sta(mode),
            Op::Stx => self.stx(mode),
            Op::Sty => self.sty(mode),
            Op::Tax => self.tax(mode),
            Op::Tay => self.tay(mode),
            Op::Tsx => self.tsx(mode),
            Op::Txa => self.txa(mode),
            Op::Txs => self.txs(mode),
            Op::Tya => self.tya(mode),
            _ => false,
        }
    }

    /// Executes one decoded instruction; true when it is a branch that was
    /// taken.
    pub(crate) fn exec_op(&mut self, op: Op, mode: &AddressingMode) -> (taken: bool)
        requires
            op != Op::Hlt,
            op != Op::Unsupported,
        ensures
            final(self)@ == exec_spec(old(self)@, op, *mode),
            taken == taken_spec(old(self)@, op),
    {
        match op {
            Op::Adc | Op::Anc | Op::And | Op::Asl | Op::AslAccumulator | Op::Bcc | Op::Bcs | Op::Beq | Op::Bit | Op::Bmi => self.exec_group0(op, mode),
            Op::Bne | Op::Bpl | Op::Brk | Op::Bvc | Op::Bvs | Op::Clc | Op::Cld | Op::Cli | Op::Clv | Op::Cmp => self.exec_group1(op, mode),
            Op::Cpx | Op::Cpy | Op::Dcp | Op::Dec | Op::Dex | Op::Dey | Op::Eor | Op::Inc | Op::Inx | Op::Iny => self.exec_group2(op, mode),
            Op::Isb | Op::Jmp | Op::Jsr | Op::Lax | Op::Lda | Op::Ldx | Op::Ldy | Op::Lsr | Op::LsrAccumulator | Op::Nop => self.exec_group3(op, mode),
            Op::Ora | Op::Pha | Op::Php | Op::Pla | Op::Plp | Op::Rla | Op::Rol | Op::RolAccumulator | Op::Ror | Op::RorAccumulator => self.exec_group4(op, mode),
            Op::Rra | Op::Rti | Op::Rts | Op::Sax | Op::Sbc | Op::Sec | Op::Sed | Op::Sei | Op::Slo | Op::Sre => self.exec_group5(op, mode),
            Op::Sta | Op::Stx | Op::Sty | Op::Tax | Op::Tay | Op::Tsx | Op::Txa | Op::Txs | Op::Tya => self.exec_group6(op, mode),
            Op::Hlt | Op::Unsupported => false,
        }
    }
}

} // verus!
