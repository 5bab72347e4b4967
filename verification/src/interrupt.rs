use vstd::prelude::*;

verus! {

/// The kinds of interrupt that the CPU services.
#[derive(Clone, Copy, PartialEq, Eq, Structural, Debug)]
pub enum InterruptType {
    NMI,
    BRK,
}

/// How an interrupt is serviced: the vector that holds the handler's address,
/// a mask that selects how the pushed status byte is adjusted, and its cost
/// in cycles.
#[derive(Clone, Copy, PartialEq, Eq, Structural, Debug)]
pub struct Interrupt {
    pub interrupt_type: InterruptType,
    pub vector: u16,
    pub mask: u8,
    pub cycles: u8,
}

/// The non-maskable interrupt raised by the PPU at the start of vblank:
/// vector $FFFA, mask $20, 2 cycles.
pub open spec fn spec_nmi() -> Interrupt {
    Interrupt { interrupt_type: InterruptType::NMI, vector: 0xFFFA, mask: 0b0010_0000, cycles: 2 }
}

/// The software interrupt of the BRK instruction: vector $FFFE, mask $30,
/// 1 cycle.
pub open spec fn spec_brk() -> Interrupt {
    Interrupt { interrupt_type: InterruptType::BRK, vector: 0xFFFE, mask: 0b0011_0000, cycles: 1 }
}

pub fn nmi_interrupt() -> (r: Interrupt)
    ensures
        r == spec_nmi(),
{
    Interrupt { interrupt_type: InterruptType::NMI, vector: 0xFFFA, mask: 0b0010_0000, cycles: 2 }
}

pub fn brk_interrupt() -> (r: Interrupt)
    ensures
        r == spec_brk(),
{
    Interrupt { interrupt_type: InterruptType::BRK, vector: 0xFFFE, mask: 0b0011_0000, cycles: 1 }
}

} // verus!
