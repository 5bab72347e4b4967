use vstd::prelude::*;

use crate::cartridge::Mirroring;

verus! {

/// How the cartridge maps CPU and PPU addresses onto its ROM and RAM.
pub trait Mapper {
    /// Whether a PRG ROM read at `addr` is within the ROM.
    spec fn prg_readable(&self, addr: u16) -> bool;

    /// Whether a CHR ROM read at `addr` is within the ROM.
    spec fn chr_readable(&self, addr: u16) -> bool;

    fn read_prg_rom(&self, addr: u16) -> u8
        requires
            self.prg_readable(addr),
    ;

    fn write_prg_rom(&mut self, addr: u16, data: u8);

    fn read_chr_rom(&self, addr: u16) -> u8
        requires
            self.chr_readable(addr),
    ;

    fn write_chr_rom(&mut self, addr: u16, data: u8);

    fn read_prg_ram(&self, addr: u16) -> u8;

    fn write_prg_ram(&mut self, addr: u16, data: u8);

    fn mirroring(&self) -> Mirroring;
}

} // verus!
