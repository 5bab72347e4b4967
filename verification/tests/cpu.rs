use pnes::cpu::{AddressingMode, RunOutcome, StatusFlags, CPU};
use std::cell::Cell;

const CARRY: u8 = 0b0000_0001;
const ZERO: u8 = 0b0000_0010;
const INTERRUPT_DISABLE: u8 = 0b0000_0100;
const OVERFLOW: u8 = 0b0100_0000;
const NEGATIVE: u8 = 0b1000_0000;

fn run_program(program: Vec<u8>) -> (CPU, RunOutcome) {
    let mut cpu = CPU::new();
    let outcome = cpu.load_and_run(program, 1000);
    (cpu, outcome)
}

/// A core with `code` at `pc`, ready to step.
fn core_at(pc: u16, code: &[u8]) -> CPU {
    let mut cpu = CPU::new();
    for (i, b) in code.iter().enumerate() {
        cpu.memory[pc as usize + i] = *b;
    }
    cpu.pc = pc;
    cpu
}

#[test]
fn new_core_is_cleared() {
    let cpu = CPU::new();
    assert_eq!(cpu.registers.a, 0);
    assert_eq!(cpu.registers.x, 0);
    assert_eq!(cpu.registers.y, 0);
    assert_eq!(cpu.registers.s, 0xFD);
    assert_eq!(cpu.status, 0);
    assert_eq!(cpu.pc, 0);
    assert!(cpu.memory.iter().all(|b| *b == 0));
}

#[test]
fn load_places_program_and_reset_vector() {
    let mut cpu = CPU::new();
    cpu.load(vec![0xA9, 0x05, 0x00]);
    assert_eq!(cpu.memory[0x8600], 0xA9);
    assert_eq!(cpu.memory[0x8601], 0x05);
    assert_eq!(cpu.memory[0xFFFC], 0x00);
    assert_eq!(cpu.memory[0xFFFD], 0x86);
    cpu.reset();
    assert_eq!(cpu.pc, 0x8600);
    assert_eq!(cpu.registers.s, 0xFD);
    assert_eq!(cpu.status, 0b0010_0100);
}

#[test]
fn lda_immediate_sets_a_and_flags() {
    let (cpu, outcome) = run_program(vec![0xA9, 0x05, 0x00]);
    assert_eq!(outcome, RunOutcome::Break);
    assert_eq!(cpu.registers.a, 0x05);
    assert_eq!(cpu.status & ZERO, 0);
    assert_eq!(cpu.status & NEGATIVE, 0);
    // PC has moved past the BRK opcode
    assert_eq!(cpu.pc, 0x8603);
}

#[test]
fn lda_zero_sets_zero_flag() {
    let (cpu, _) = run_program(vec![0xA9, 0x00, 0x00]);
    assert_eq!(cpu.status & ZERO, ZERO);
}

#[test]
fn lda_negative_sets_negative_flag() {
    let (cpu, _) = run_program(vec![0xA9, 0x80, 0x00]);
    assert_eq!(cpu.status & NEGATIVE, NEGATIVE);
}

#[test]
fn tax_then_inx() {
    let (cpu, _) = run_program(vec![0xA9, 0xC0, 0xAA, 0xE8, 0x00]);
    assert_eq!(cpu.registers.x, 0xC1);
}

#[test]
fn inx_wraps_around() {
    let (cpu, _) = run_program(vec![0xA2, 0xFF, 0xE8, 0xE8, 0x00]);
    assert_eq!(cpu.registers.x, 1);
}

#[test]
fn adc_signed_overflow() {
    // CLC; LDA #$50; ADC #$50
    let (cpu, _) = run_program(vec![0x18, 0xA9, 0x50, 0x69, 0x50, 0x00]);
    assert_eq!(cpu.registers.a, 0xA0);
    assert_eq!(cpu.status & OVERFLOW, OVERFLOW);
    assert_eq!(cpu.status & CARRY, 0);
    assert_eq!(cpu.status & NEGATIVE, NEGATIVE);
}

#[test]
fn adc_carry_out() {
    // CLC; LDA #$FF; ADC #$01
    let (cpu, _) = run_program(vec![0x18, 0xA9, 0xFF, 0x69, 0x01, 0x00]);
    assert_eq!(cpu.registers.a, 0x00);
    assert_eq!(cpu.status & CARRY, CARRY);
    assert_eq!(cpu.status & ZERO, ZERO);
    assert_eq!(cpu.status & OVERFLOW, 0);
}

#[test]
fn adc_adds_carry_in() {
    // SEC; LDA #$10; ADC #$20
    let (cpu, _) = run_program(vec![0x38, 0xA9, 0x10, 0x69, 0x20, 0x00]);
    assert_eq!(cpu.registers.a, 0x31);
}

#[test]
fn sbc_without_borrow() {
    // SEC; LDA #$05; SBC #$03
    let (cpu, _) = run_program(vec![0x38, 0xA9, 0x05, 0xE9, 0x03, 0x00]);
    assert_eq!(cpu.registers.a, 0x02);
    assert_eq!(cpu.status & CARRY, CARRY);
}

#[test]
fn sbc_with_borrow() {
    // SEC; LDA #$03; SBC #$05
    let (cpu, _) = run_program(vec![0x38, 0xA9, 0x03, 0xE9, 0x05, 0x00]);
    assert_eq!(cpu.registers.a, 0xFE);
    assert_eq!(cpu.status & CARRY, 0);
    assert_eq!(cpu.status & NEGATIVE, NEGATIVE);
}

#[test]
fn adc_then_sbc_restores_a() {
    // CLC; LDA #$37; ADC #$F0; SEC; SBC #$F0
    let (cpu, _) = run_program(vec![0x18, 0xA9, 0x37, 0x69, 0xF0, 0x38, 0xE9, 0xF0, 0x00]);
    assert_eq!(cpu.registers.a, 0x37);
}

#[test]
fn cmp_equal_sets_zero_and_carry() {
    let (cpu, _) = run_program(vec![0xA9, 0x10, 0xC9, 0x10, 0x00]);
    assert_eq!(cpu.status & ZERO, ZERO);
    assert_eq!(cpu.status & CARRY, CARRY);
    assert_eq!(cpu.status & NEGATIVE, 0);
}

#[test]
fn cmp_smaller_clears_carry() {
    let (cpu, _) = run_program(vec![0xA9, 0x10, 0xC9, 0x20, 0x00]);
    assert_eq!(cpu.status & ZERO, 0);
    assert_eq!(cpu.status & CARRY, 0);
    assert_eq!(cpu.status & NEGATIVE, NEGATIVE);
}

#[test]
fn sta_and_ldx_through_memory() {
    // LDA #$42; STA $10; LDX $10
    let (cpu, _) = run_program(vec![0xA9, 0x42, 0x85, 0x10, 0xA6, 0x10, 0x00]);
    assert_eq!(cpu.memory[0x10], 0x42);
    assert_eq!(cpu.registers.x, 0x42);
}

#[test]
fn jsr_then_rts_returns_after_call() {
    // $8600: JSR $8606; INX; BRK; (pad) ; $8606: LDA #$07; RTS
    let (cpu, outcome) = run_program(vec![0x20, 0x06, 0x86, 0xE8, 0x00, 0x00, 0xA9, 0x07, 0x60]);
    assert_eq!(outcome, RunOutcome::Break);
    assert_eq!(cpu.registers.a, 0x07);
    assert_eq!(cpu.registers.x, 0x01);
    assert_eq!(cpu.registers.s, 0xFD);
    assert_eq!(cpu.pc, 0x8605);
}

#[test]
fn pha_then_pla_restores_a() {
    // LDA #$33; PHA; LDA #$00; PLA
    let (cpu, _) = run_program(vec![0xA9, 0x33, 0x48, 0xA9, 0x00, 0x68, 0x00]);
    assert_eq!(cpu.registers.a, 0x33);
    assert_eq!(cpu.registers.s, 0xFD);
    assert_eq!(cpu.memory[0x01FD], 0x33);
}

#[test]
fn rol_then_ror_restores_a_and_carry() {
    // SEC; LDA #$81; ROL A; ROR A
    let (cpu, _) = run_program(vec![0x38, 0xA9, 0x81, 0x2A, 0x6A, 0x00]);
    assert_eq!(cpu.registers.a, 0x81);
    assert_eq!(cpu.status & CARRY, CARRY);
}

#[test]
fn asl_moves_bit_7_into_carry() {
    let (cpu, _) = run_program(vec![0xA9, 0x81, 0x0A, 0x00]);
    assert_eq!(cpu.registers.a, 0x02);
    assert_eq!(cpu.status & CARRY, CARRY);
}

#[test]
fn lsr_moves_bit_0_into_carry() {
    let (cpu, _) = run_program(vec![0xA9, 0x03, 0x4A, 0x00]);
    assert_eq!(cpu.registers.a, 0x01);
    assert_eq!(cpu.status & CARRY, CARRY);
}

#[test]
fn countdown_loop() {
    // LDX #$05; loop: DEX; BNE loop; BRK
    let (cpu, outcome) = run_program(vec![0xA2, 0x05, 0xCA, 0xD0, 0xFD, 0x00]);
    assert_eq!(outcome, RunOutcome::Break);
    assert_eq!(cpu.registers.x, 0);
    assert_eq!(cpu.status & ZERO, ZERO);
}

#[test]
fn jam_opcode_halts_without_executing() {
    let mut cpu = CPU::new();
    cpu.load(vec![0x02]);
    cpu.reset();
    assert!(!cpu.next_opcode_supported());
    let outcome = cpu.run(10);
    assert_eq!(outcome, RunOutcome::Halted(0x02));
    assert_eq!(cpu.pc, 0x8600);
}

#[test]
fn step_budget_runs_out() {
    // JMP $8600 forever
    let mut cpu = CPU::new();
    let outcome = cpu.load_and_run(vec![0x4C, 0x00, 0x86], 10);
    assert_eq!(outcome, RunOutcome::StepLimit);
    assert_eq!(cpu.pc, 0x8600);
}

#[test]
fn branch_cycles() {
    // BNE +2, taken, same page: 3 cycles
    let mut cpu = core_at(0x8000, &[0xD0, 0x02]);
    assert_eq!(cpu.step(), 3);
    assert_eq!(cpu.pc, 0x8004);
    // not taken: 2 cycles
    let mut cpu = core_at(0x8000, &[0xD0, 0x02]);
    cpu.status = ZERO;
    assert_eq!(cpu.step(), 2);
    assert_eq!(cpu.pc, 0x8002);
    // taken onto the next page: 4 cycles
    let mut cpu = core_at(0x80F0, &[0xD0, 0x20]);
    assert_eq!(cpu.step(), 4);
    assert_eq!(cpu.pc, 0x8112);
    // taken backwards
    let mut cpu = core_at(0x8010, &[0xD0, 0xFE]);
    assert_eq!(cpu.step(), 3);
    assert_eq!(cpu.pc, 0x8010);
}

#[test]
fn indexed_read_page_cross_costs_a_cycle() {
    // LDA $80FF,X with X = 1 crosses into $8100
    let mut cpu = core_at(0x0200, &[0xBD, 0xFF, 0x80]);
    cpu.registers.x = 1;
    cpu.memory[0x8100] = 0x99;
    assert_eq!(cpu.step(), 5);
    assert_eq!(cpu.registers.a, 0x99);
    assert_eq!(cpu.pc, 0x0203);
    // same page: base cycles
    let mut cpu = core_at(0x0200, &[0xBD, 0x00, 0x80]);
    cpu.registers.x = 1;
    cpu.memory[0x8001] = 0x11;
    assert_eq!(cpu.step(), 4);
    assert_eq!(cpu.registers.a, 0x11);
}

#[test]
fn indirect_jump_wraps_within_page() {
    // JMP ($02FF): the high byte comes from $0200, not $0300
    let mut cpu = core_at(0x0400, &[0x6C, 0xFF, 0x02]);
    cpu.memory[0x02FF] = 0x34;
    cpu.memory[0x0200] = 0x12;
    cpu.memory[0x0300] = 0x56;
    assert_eq!(cpu.step(), 5);
    assert_eq!(cpu.pc, 0x1234);
}

#[test]
fn indirect_indexed_addressing() {
    // LDA ($10),Y
    let mut cpu = core_at(0x0400, &[0xB1, 0x10]);
    cpu.memory[0x10] = 0x00;
    cpu.memory[0x11] = 0x30;
    cpu.registers.y = 0x05;
    cpu.memory[0x3005] = 0x77;
    assert_eq!(cpu.step(), 5);
    assert_eq!(cpu.registers.a, 0x77);
}

#[test]
fn zero_page_x_wraps() {
    // LDA $F0,X with X = $20 reads $10
    let mut cpu = core_at(0x0400, &[0xB5, 0xF0]);
    cpu.registers.x = 0x20;
    cpu.memory[0x10] = 0x5A;
    cpu.step();
    assert_eq!(cpu.registers.a, 0x5A);
}

#[test]
fn brk_enters_handler() {
    let mut cpu = core_at(0x0400, &[0x00, 0x00]);
    cpu.memory[0xFFFE] = 0x00;
    cpu.memory[0xFFFF] = 0x90;
    cpu.registers.s = 0xFD;
    cpu.status = 0;
    assert_eq!(cpu.step(), 7);
    assert_eq!(cpu.pc, 0x9000);
    assert_eq!(cpu.registers.s, 0xFA);
    assert_eq!(cpu.status & INTERRUPT_DISABLE, INTERRUPT_DISABLE);
    // the return address skips the padding byte
    assert_eq!(cpu.memory[0x01FD], 0x04);
    assert_eq!(cpu.memory[0x01FC], 0x02);
}

#[test]
fn rti_returns_from_brk() {
    let mut cpu = core_at(0x0400, &[0x00, 0x00]);
    cpu.memory[0xFFFE] = 0x00;
    cpu.memory[0xFFFF] = 0x90;
    cpu.memory[0x9000] = 0x40;
    cpu.status = 0b1100_0001;
    cpu.step();
    cpu.step();
    assert_eq!(cpu.pc, 0x0402);
    assert_eq!(cpu.registers.s, 0xFD);
    assert_eq!(cpu.status & 0b1100_0001, 0b1100_0001);
}

#[test]
fn set_and_clear_flag() {
    let mut cpu = CPU::new();
    cpu.set_flag(StatusFlags::Carry);
    cpu.set_flag(StatusFlags::Negative);
    assert_eq!(cpu.status, CARRY | NEGATIVE);
    cpu.clear_flag(StatusFlags::Carry);
    assert_eq!(cpu.status, NEGATIVE);
}

#[test]
fn get_operand_address_modes() {
    let mut cpu = core_at(0x0400, &[0x34, 0x12]);
    cpu.registers.x = 0x10;
    cpu.registers.y = 0x01;
    assert_eq!(cpu.get_operand_address(&AddressingMode::Immediate), 0x0400);
    assert_eq!(cpu.get_operand_address(&AddressingMode::ZeroPage), 0x34);
    assert_eq!(cpu.get_operand_address(&AddressingMode::ZeroPageX), 0x44);
    assert_eq!(cpu.get_operand_address(&AddressingMode::Absolute), 0x1234);
    assert_eq!(cpu.get_operand_address(&AddressingMode::AbsoluteX), 0x1244);
    assert_eq!(cpu.get_operand_address(&AddressingMode::AbsoluteY), 0x1235);
}

#[test]
fn callback_sees_each_instruction() {
    let count = Cell::new(0u32);
    let mut cpu = CPU::new();
    cpu.load(vec![0xE8, 0xE8, 0xE8, 0x00]);
    cpu.reset();
    let outcome = cpu.run_with_callback(|_c: &CPU| count.set(count.get() + 1), 100);
    assert_eq!(outcome, RunOutcome::Break);
    assert_eq!(count.get(), 3);
    assert_eq!(cpu.registers.x, 3);
}

#[test]
fn undocumented_lax_loads_a_and_x() {
    // LAX $10
    let mut cpu = core_at(0x0400, &[0xA7, 0x10]);
    cpu.memory[0x10] = 0x8F;
    assert_eq!(cpu.step(), 3);
    assert_eq!(cpu.registers.a, 0x8F);
    assert_eq!(cpu.registers.x, 0x8F);
    assert_eq!(cpu.status & NEGATIVE, NEGATIVE);
}

#[test]
fn running_in_two_parts_is_running_once() {
    let program = vec![0xA2, 0x05, 0xCA, 0xD0, 0xFD, 0xA9, 0x11, 0x00];
    let mut whole = CPU::new();
    whole.load(program.clone());
    whole.reset();
    let outcome = whole.run(7);
    let mut split = CPU::new();
    split.load(program);
    split.reset();
    assert_eq!(split.run(3), RunOutcome::StepLimit);
    assert_eq!(split.run(4), outcome);
    assert_eq!(split.pc, whole.pc);
    assert_eq!(split.registers.x, whole.registers.x);
    assert_eq!(split.status, whole.status);
}
