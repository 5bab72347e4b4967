use vstd::prelude::*;

use crate::cartridge::Mirroring;
use crate::mappers::mapper::Mapper;

verus! {

/// NROM: 16 or 32 KiB of PRG ROM at $8000 (16 KiB mirrored at $C000), CHR
/// ROM, no RAM and no bank switching.
pub struct Mapper0 {
    pub prg_rom: Vec<u8>,
    pub chr_rom: Vec<u8>,
    pub mirroring: Mirroring,
}

/// The offset into PRG ROM of a CPU address at $8000 or above.
pub open spec fn prg_offset(len: int, addr: u16) -> int {
    let a = addr - 0x8000;
    if len == 0x4000 && a >= 0x4000 {
        a % 0x4000
    } else {
        a
    }
}

impl Mapper0 {
    pub fn new(prg_rom: Vec<u8>, chr_rom: Vec<u8>, mirroring: Mirroring) -> (m: Self)
        ensures
            m.prg_rom@ == prg_rom@,
            m.chr_rom@ == chr_rom@,
            m.mirroring == mirroring,
    {
        Mapper0 { prg_rom, chr_rom, mirroring }
    }
}

impl Mapper for Mapper0 {
    open spec fn prg_readable(&self, addr: u16) -> bool {
        addr >= 0x8000 && prg_offset(self.prg_rom.len() as int, addr) < self.prg_rom.len()
    }

    open spec fn chr_readable(&self, addr: u16) -> bool {
        self.chr_rom.len() > 0
    }

    fn read_prg_rom(&self, addr: u16) -> (r: u8)
        ensures
            r == self.prg_rom@[prg_offset(self.prg_rom.len() as int, addr)],
    {
        let addr = addr - 0x8000;
        if self.prg_rom.len() == 0x4000 && addr >= 0x4000 {
            self.prg_rom[addr as usize % 0x4000]
        } else {
            self.prg_rom[addr as usize]
        }
    }

    /// PRG ROM cannot be written; the write is ignored.
    fn write_prg_rom(&mut self, addr: u16, _data: u8)
        ensures
            *final(self) == *old(self),
    {
    }

    fn read_chr_rom(&self, addr: u16) -> (r: u8)
        ensures
            r == self.chr_rom@[(addr as int) % (self.chr_rom.len() as int)],
    {
        self.chr_rom[addr as usize % self.chr_rom.len()]
    }

    /// CHR ROM cannot be written; the write is ignored.
    fn write_chr_rom(&mut self, addr: u16, _data: u8)
        ensures
            *final(self) == *old(self),
    {
    }

    /// There is no PRG RAM: reads give 0.
    fn read_prg_ram(&self, addr: u16) -> (r: u8)
        ensures
            r == 0,
    {
        0
    }

    /// There is no PRG RAM: writes are ignored.
    fn write_prg_ram(&mut self, addr: u16, _data: u8)
        ensures
            *final(self) == *old(self),
    {
    }

    fn mirroring(&self) -> (r: Mirroring)
        ensures
            r == self.mirroring,
    {
        self.mirroring
    }
}

} // verus!
