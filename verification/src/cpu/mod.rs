use vstd::prelude::*;

use crate::bits::{lemma_byte_bits, lemma_split_word, lemma_word};
use crate::bus::Mem;
use crate::interrupt::Interrupt;

pub mod spec;
pub mod decode;
pub mod opcodes;
pub mod laws;
pub mod isa;

use spec::{wrap8, wrap16, signed8, word, rd, rd16, flag, with_flag, with_zn, lemma_zn_negative, carry, push_spec, pop_spec, pop_value, push16_spec, pop16_value, operand_address, operand, page_crossed, interrupt_spec, reset_spec, load_a, load_x, load_y, overflows, adc_with, sbc_with, compare, store, asl_spec, lsr_spec, rol_spec, ror_spec, asl_acc_spec, lsr_acc_spec, rol_acc_spec, ror_acc_spec, inc_spec, dec_spec, bit_spec, branch_spec, taken_spec, brk_spec, pulled_status, and_spec, adc_spec, tax_spec, exec_spec, fetched, supported, step_spec, step_cycles, run_spec, loaded_mem, CpuState};
use decode::{decode, decode_spec, lemma_cycles_bound, Decoded, Op};

verus! {

/// Bit masks of the processor status register P.
pub const CARRY: u8 = 0b0000_0001;
pub const ZERO: u8 = 0b0000_0010;
pub const INTERRUPT_DISABLE: u8 = 0b0000_0100;
pub const DECIMAL: u8 = 0b0000_1000;
pub const BREAK: u8 = 0b0001_0000;
pub const BREAK2: u8 = 0b0010_0000;
pub const OVERFLOW: u8 = 0b0100_0000;
pub const NEGATIVE: u8 = 0b1000_0000;

/// One flag of the status register.
#[derive(Clone, Copy, PartialEq, Eq, Structural, Debug)]
pub enum StatusFlags {
    Carry,
    Zero,
    InterruptDisable,
    DecimalUnused,
    Break,
    Break2,
    Overflow,
    Negative,
}

impl StatusFlags {
    /// The single bit that the flag occupies in P.
    pub open spec fn mask(self) -> u8 {
        match self {
            StatusFlags::Carry => CARRY,
            StatusFlags::Zero => ZERO,
            StatusFlags::InterruptDisable => INTERRUPT_DISABLE,
            StatusFlags::DecimalUnused => DECIMAL,
            StatusFlags::Break => BREAK,
            StatusFlags::Break2 => BREAK2,
            StatusFlags::Overflow => OVERFLOW,
            StatusFlags::Negative => NEGATIVE,
        }
    }

    pub fn bits(&self) -> (r: u8)
        ensures
            r == self.mask(),
    {
        match self {
            StatusFlags::Carry => CARRY,
            StatusFlags::Zero => ZERO,
            StatusFlags::InterruptDisable => INTERRUPT_DISABLE,
            StatusFlags::DecimalUnused => DECIMAL,
            StatusFlags::Break => BREAK,
            StatusFlags::Break2 => BREAK2,
            StatusFlags::Overflow => OVERFLOW,
            StatusFlags::Negative => NEGATIVE,
        }
    }
}

/// How an instruction finds its operand.
#[derive(Clone, Copy, PartialEq, Eq, Structural, Debug)]
pub enum AddressingMode {
    Immediate,
    ZeroPage,
    ZeroPageX,
    ZeroPageY,
    Absolute,
    AbsoluteX,
    AbsoluteY,
    Indirect,
    IndirectX,
    IndirectY,
    Implied,
    Accumulator,
    Relative,
}

/// The accumulator, the two index registers and the stack pointer.
pub struct Registers {
    pub a: u8,
    pub x: u8,
    pub y: u8,
    pub s: u8,
}

/// A 6502 core over a flat 64 KiB address space.
pub struct CPU {
    pub registers: Registers,
    pub status: u8,
    pub pc: u16,
    pub memory: [u8; 0x10000],
}

/// Why `run` stopped.
#[derive(Clone, Copy, PartialEq, Eq, Structural, Debug)]
pub enum RunOutcome {
    /// A BRK opcode (0x00) was fetched; `pc` has moved past it.
    Break,
    /// The next opcode jams the processor or is not implemented; nothing was done.
    Halted(u8),
    /// The step budget ran out.
    StepLimit,
}

impl View for CPU {
    type V = CpuState;

    open spec fn view(&self) -> CpuState {
        CpuState {
            a: self.registers.a,
            x: self.registers.x,
            y: self.registers.y,
            s: self.registers.s,
            p: self.status,
            pc: self.pc,
            mem: self.memory@,
        }
    }
}

impl CPU {
    /// A core with cleared registers, S = $FD, P = 0, PC = 0 and zeroed memory.
    pub fn new() -> (cpu: CPU)
        ensures
            cpu.registers.a == 0,
            cpu.registers.x == 0,
            cpu.registers.y == 0,
            cpu.registers.s == 0xFD,
            cpu.status == 0,
            cpu.pc == 0,
            forall|i: int| 0 <= i < 0x10000 ==> cpu.memory@[i] == 0,
            cpu@.wf(),
    {
        CPU {
            registers: Registers { a: 0, x: 0, y: 0, s: 0xFD },
            status: 0,
            pc: 0,
            memory: [0u8; 0x10000],
        }
    }

    /// The memory of a core always holds 64 KiB.
    pub proof fn lemma_wf(&self)
        ensures
            self@.wf(),
    {
    }

    pub(crate) fn read(&self, addr: u16) -> (r: u8)
        ensures
            r == rd(self@, addr),
    {
        self.memory[addr as usize]
    }

    pub(crate) fn write(&mut self, addr: u16, data: u8)
        ensures
            final(self)@ == (CpuState { mem: old(self)@.mem.update(addr as int, data), ..old(self)@ }),
    {
        self.memory[addr as usize] = data;
    }

    pub(crate) fn read_u16(&self, addr: u16) -> (r: u16)
        ensures
            r == rd16(self@, addr),
    {
        let lo = self.read(addr) as u16;
        let hi = self.read(addr.wrapping_add(1)) as u16;
        proof {
            lemma_word(lo, hi);
        }
        (hi << 8) | lo
    }

    pub(crate) fn stack_push(&mut self, data: u8)
        ensures
            final(self)@ == push_spec(old(self)@, data),
    {
        self.write(0x100 + self.registers.s as u16, data);
        self.registers.s = self.registers.s.wrapping_sub(1);
    }

    pub(crate) fn stack_pop(&mut self) -> (r: u8)
        ensures
            r == pop_value(old(self)@),
            final(self)@ == pop_spec(old(self)@),
    {
        self.registers.s = self.registers.s.wrapping_add(1);
        self.read(0x100 + self.registers.s as u16)
    }

    pub(crate) fn stack_push_u16(&mut self, data: u16)
        ensures
            final(self)@ == push16_spec(old(self)@, data),
    {
        proof {
            lemma_split_word(data);
        }
        let hi = (data >> 8) as u8;
        let lo = (data & 0xff) as u8;
        self.stack_push(hi);
        self.stack_push(lo);
    }

    pub(crate) fn stack_pop_u16(&mut self) -> (r: u16)
        ensures
            r == pop16_value(old(self)@),
            final(self)@ == pop_spec(pop_spec(old(self)@)),
    {
        let lo = self.stack_pop() as u16;
        let hi = self.stack_pop() as u16;
        proof {
            lemma_word(lo, hi);
        }
        (hi << 8) | lo
    }

    /// Sets one flag of P.
    pub fn set_flag(&mut self, flag: StatusFlags)
        ensures
            final(self)@ == (CpuState { p: old(self)@.p | flag.mask(), ..old(self)@ }),
    {
        self.status = self.status | flag.bits();
    }

    /// Clears one flag of P.
    pub fn clear_flag(&mut self, flag: StatusFlags)
        ensures
            final(self)@ == (CpuState { p: old(self)@.p & !flag.mask(), ..old(self)@ }),
    {
        self.status = self.status & !flag.bits();
    }

    pub(crate) fn set_flag_else_clear(&mut self, flag: StatusFlags, expression: bool)
        ensures
            final(self)@ == (CpuState { p: with_flag(old(self)@.p, flag.mask(), expression), ..old(self)@ }),
    {
        if expression {
            self.set_flag(flag);
        } else {
            self.clear_flag(flag);
        }
    }

    /// Sets Z and N from a result byte.
    pub(crate) fn set_zn(&mut self, v: u8)
        ensures
            final(self)@ == (CpuState { p: with_zn(old(self)@.p, v), ..old(self)@ }),
    {
        proof {
            lemma_byte_bits(v);
        }
        self.set_flag_else_clear(StatusFlags::Zero, v == 0);
        self.set_flag_else_clear(StatusFlags::Negative, (v & 0x80) != 0);
    }

    /// The effective address of the operand of the instruction whose operand
    /// bytes start at `pc`.
    pub fn get_operand_address(&mut self, mode: &AddressingMode) -> (r: u16)
        ensures
            r == operand_address(old(self)@, *mode),
            *final(self) == *old(self),
    {
        self.operand_address(mode)
    }

    /// `base` moved by the signed offset `off`, wrapping at 16 bits.
    fn offset_by(base: u16, off: u8) -> (r: u16)
        ensures
            r == wrap16(base + signed8(off)),
    {
        if off < 128 {
            base.wrapping_add(off as u16)
        } else {
            base.wrapping_sub(256 - off as u16)
        }
    }

    /// The word stored at the zero-page pointer `ptr` (its high byte wraps
    /// within the zero page).
    fn zero_page_word(&self, ptr: u8) -> (r: u16)
        ensures
            r == word(rd(self@, ptr as u16), rd(self@, wrap8(ptr + 1) as u16)),
    {
        let lo = self.read(ptr as u16) as u16;
        let hi = self.read(ptr.wrapping_add(1) as u16) as u16;
        proof {
            lemma_word(lo, hi);
        }
        (hi << 8) | lo
    }

    /// The target of JMP (indirect): the high byte comes from the pointer's page.
    fn indirect_target(&self) -> (r: u16)
        ensures
            r == operand_address(self@, AddressingMode::Indirect),
    {
        let mem_address = self.read_u16(self.pc);
        proof {
            lemma_split_word(mem_address);
        }
        if mem_address & 0x00FF == 0x00FF {
            let lo = self.read(mem_address) as u16;
            let hi = self.read(mem_address & 0xFF00) as u16;
            proof {
                lemma_word(lo, hi);
            }
            (hi << 8) | lo
        } else {
            self.read_u16(mem_address)
        }
    }

    /// Whether two addresses lie on different pages.
    fn pages_differ(a: u16, b: u16) -> (r: bool)
        ensures
            r == (a / 256 != b / 256),
    {
        proof {
            lemma_split_word(a);
            lemma_split_word(b);
        }
        a & 0xFF00 != b & 0xFF00
    }

    #[verifier::rlimit(60)]
    pub(crate) fn operand_address(&self, mode: &AddressingMode) -> (r: u16)
        ensures
            r == operand_address(self@, *mode),
    {
        match mode {
            AddressingMode::ZeroPage => self.read(self.pc) as u16,
            AddressingMode::Absolute => self.read_u16(self.pc),
            AddressingMode::ZeroPageX => {
                let pos = self.read(self.pc);
                pos.wrapping_add(self.registers.x) as u16
            },
            AddressingMode::ZeroPageY => {
                let pos = self.read(self.pc);
                pos.wrapping_add(self.registers.y) as u16
            },
            AddressingMode::AbsoluteX => {
                let base = self.read_u16(self.pc);
                base.wrapping_add(self.registers.x as u16)
            },
            AddressingMode::AbsoluteY => {
                let base = self.read_u16(self.pc);
                base.wrapping_add(self.registers.y as u16)
            },
            AddressingMode::IndirectX => {
                let base = self.read(self.pc);
                let ptr: u8 = base.wrapping_add(self.registers.x);
                self.zero_page_word(ptr)
            },
            AddressingMode::IndirectY => {
                let base = self.read(self.pc);
                let deref_base = self.zero_page_word(base);
                deref_base.wrapping_add(self.registers.y as u16)
            },
            AddressingMode::Indirect => self.indirect_target(),
            AddressingMode::Relative => Self::offset_by(self.pc, self.read(self.pc)),
            AddressingMode::Immediate => self.pc,
            AddressingMode::Implied => self.pc,
            AddressingMode::Accumulator => self.pc,
        }
    }

    /// 1 when the operand's address lies on another page than the address it
    /// was indexed from (or, for a branch, than the next instruction), else 0.
    #[verifier::rlimit(40)]
    pub(crate) fn pagecross_penalty(&self, mode: &AddressingMode) -> (r: u8)
        ensures
            r == (if page_crossed(self@, *mode) { 1u8 } else { 0u8 }),
    {
        reveal(page_crossed);
        match mode {
            AddressingMode::AbsoluteX => {
                let base = self.read_u16(self.pc);
                let addr = base.wrapping_add(self.registers.x as u16);
                if Self::pages_differ(base, addr) { 1 } else { 0 }
            },
            AddressingMode::AbsoluteY => {
                let base = self.read_u16(self.pc);
                let addr = base.wrapping_add(self.registers.y as u16);
                if Self::pages_differ(base, addr) { 1 } else { 0 }
            },
            AddressingMode::Relative => {
                let next = self.pc.wrapping_add(1);
                let new_pc = Self::offset_by(next, self.read(self.pc));
                if Self::pages_differ(next, new_pc) { 1 } else { 0 }
            },
            AddressingMode::IndirectY => {
                let base = self.read(self.pc);
                let deref_base = self.zero_page_word(base);
                let deref = deref_base.wrapping_add(self.registers.y as u16);
                if Self::pages_differ(deref, deref_base) { 1 } else { 0 }
            },
            _ => 0,
        }
    }

    /// Pushes PC and the adjusted status, sets I and jumps through the vector.
    pub(crate) fn interrupt(&mut self, interrupt: Interrupt)
        ensures
            final(self)@ == interrupt_spec(old(self)@, interrupt),
    {
        self.stack_push_u16(self.pc);
        let mut flag = self.status;
        if interrupt.mask & 0b0001_0000 != 0 {
            flag = flag | BREAK2;
        }
        if interrupt.mask & 0b0010_0000 != 0 {
            flag = flag & !BREAK;
        }
        self.stack_push(flag);
        self.set_flag(StatusFlags::InterruptDisable);
        self.pc = self.read_u16(interrupt.vector);
    }

    /// Puts A, X, Y to 0, S to $FD, P to $24 and loads PC from the reset
    /// vector at $FFFC.
    pub fn reset(&mut self)
        ensures
            final(self)@ == reset_spec(old(self)@),
    {
        self.registers.a = 0;
        self.registers.x = 0;
        self.registers.y = 0;
        self.registers.s = 0xFD;
        self.status = 0b0010_0100;
        self.pc = self.read_u16(0xFFFC);
    }
    /// Whether the next opcode can be executed by `step`: false for the
    /// opcodes that jam the processor and for those that are not implemented.
    pub fn next_opcode_supported(&self) -> (r: bool)
        ensures
            r == supported(rd(self@, self.pc)),
    {
        let d = decode(self.read(self.pc));
        d.op != Op::Hlt && d.op != Op::Unsupported
    }

    /// Executes one instruction and returns the cycles it took.
    pub fn step(&mut self) -> (cycles: u8)
        requires
            supported(rd(old(self)@, old(self).pc)),
        ensures
            final(self)@ == step_spec(old(self)@),
            cycles == step_cycles(old(self)@),
    {
        self.step_with_callback(|_c: &CPU| {})
    }

    /// Hands the core to `callback`, then executes one instruction and
    /// returns the cycles it took.
    #[verifier::rlimit(100)]
    #[verifier::spinoff_prover]
    pub fn step_with_callback<F>(&mut self, callback: F) -> (cycles: u8) where F: Fn(&CPU)
        requires
            supported(rd(old(self)@, old(self).pc)),
            forall|c: &CPU| call_requires(callback, (c,)),
        ensures
            final(self)@ == step_spec(old(self)@),
            cycles == step_cycles(old(self)@),
    {
        callback(&*self);
        let ghost st0 = self@;
        let opcode = self.read(self.pc);
        self.pc = self.pc.wrapping_add(1);
        let ghost st1 = self@;
        assert(st1 == fetched(st0));
        let d = decode(opcode);
        proof {
            lemma_cycles_bound(opcode);
        }
        let cross = self.pagecross_penalty(&d.mode);
        let taken = self.exec_op(d.op, &d.mode);
        let ghost st2 = self@;
        assert(st2 == exec_spec(st1, d.op, d.mode));
        self.pc = self.pc.wrapping_add(d.len as u16);
        assert(self@ == (CpuState { pc: wrap16(st2.pc + d.len), ..st2 }));
        let mut cycles = d.cycles;
        if d.penalty {
            cycles = cycles + cross;
        }
        if taken {
            cycles = cycles + 1 + cross;
        }
        cycles
    }

    /// Runs until a BRK opcode is fetched, an opcode that cannot be executed
    /// comes up, or `max_steps` instructions have been executed.
    pub fn run(&mut self, max_steps: usize) -> (r: RunOutcome)
        ensures
            (final(self)@, r) == run_spec(old(self)@, max_steps as nat),
    {
        self.run_with_callback(|_c: &CPU| {}, max_steps)
    }

    /// `run`, handing the core to `callback` before each instruction.
    pub fn run_with_callback<F>(&mut self, callback: F, max_steps: usize) -> (r: RunOutcome) where
        F: Fn(&CPU),
        requires
            forall|c: &CPU| call_requires(callback, (c,)),
        ensures
            (final(self)@, r) == run_spec(old(self)@, max_steps as nat),
    {
        let mut remaining = max_steps;
        loop
            invariant
                run_spec(self@, remaining as nat) == run_spec(old(self)@, max_steps as nat),
                forall|c: &CPU| call_requires(callback, (c,)),
            decreases remaining,
        {
            if remaining == 0 {
                return RunOutcome::StepLimit;
            }
            let opcode = self.read(self.pc);
            if opcode == 0x00 {
                self.pc = self.pc.wrapping_add(1);
                return RunOutcome::Break;
            }
            if !self.next_opcode_supported() {
                return RunOutcome::Halted(opcode);
            }
            self.step_with_callback(&callback);
            remaining = remaining - 1;
        }
    }

    /// Copies `program` to $8600 and points the reset vector at it.
    pub fn load(&mut self, program: Vec<u8>)
        requires
            program.len() <= 0x7A00,
        ensures
            final(self)@ == (CpuState { mem: loaded_mem(old(self)@.mem, program@), ..old(self)@ }),
    {
        let len = program.len() as u16;
        let mut i: u16 = 0;
        while i < len
            invariant
                0 <= i <= len,
                len == program.len(),
                len <= 0x7A00,
                self@ == (CpuState { mem: self@.mem, ..old(self)@ }),
                self@.mem.len() == 0x10000,
                forall|k: int|
                    0 <= k < 0x10000 ==> #[trigger] self@.mem[k] == if 0x8600 <= k < 0x8600 + i {
                        program@[k - 0x8600]
                    } else {
                        old(self)@.mem[k]
                    },
            decreases len - i,
        {
            self.write(0x8600 + i, program[i as usize]);
            i = i + 1;
        }
        self.write(0xFFFC, 0x00);
        self.write(0xFFFD, 0x86);
        assert(self@.mem =~= loaded_mem(old(self)@.mem, program@));
    }

    /// Loads `program`, resets the core and runs it.
    pub fn load_and_run(&mut self, program: Vec<u8>, max_steps: usize) -> (r: RunOutcome)
        requires
            program.len() <= 0x7A00,
        ensures
            (final(self)@, r) == run_spec(
                reset_spec(CpuState { mem: loaded_mem(old(self)@.mem, program@), ..old(self)@ }),
                max_steps as nat,
            ),
    {
        self.load(program);
        self.reset();
        self.run(max_steps)
    }
}

impl Mem for CPU {
    open spec fn read_ok(&self, addr: u16) -> bool {
        true
    }

    open spec fn write_ok(&self, addr: u16, data: u8) -> bool {
        true
    }

    open spec fn read16_ok(&self, pos: u16) -> bool {
        true
    }

    open spec fn write16_ok(&self, pos: u16, data: u16) -> bool {
        pos < 0xFFFF
    }

    fn mem_read(&mut self, addr: u16) -> (r: u8)
        ensures
            r == rd(old(self)@, addr),
            *final(self) == *old(self),
    {
        self.read(addr)
    }

    fn mem_write(&mut self, addr: u16, data: u8)
        ensures
            final(self)@ == store(old(self)@, addr, data),
    {
        self.write(addr, data);
    }

    /// The little-endian word at `pos` (the high byte wraps round to $0000).
    fn mem_read_u16(&mut self, pos: u16) -> (r: u16)
        ensures
            r == rd16(old(self)@, pos),
            *final(self) == *old(self),
    {
        self.read_u16(pos)
    }

    /// Writes the low byte at `pos`, the high byte at `pos + 1`.
    fn mem_write_u16(&mut self, pos: u16, data: u16)
        ensures
            final(self)@ == store(store(old(self)@, pos, (data % 256) as u8), (pos + 1) as u16, (data / 256) as u8),
    {
        proof {
            lemma_split_word(data);
        }
        let hi = (data >> 8u16) as u8;
        let lo = (data & 0xff) as u8;
        self.write(pos, lo);
        self.write(pos + 1, hi);
    }
}

} // verus!
