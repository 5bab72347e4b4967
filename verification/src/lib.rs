pub mod apu;
pub mod bits;
pub mod bus;
pub mod cartridge;
pub mod cpu;
pub mod interrupt;
pub mod joypad;
pub mod mappers;
pub mod pacing;
pub mod ppu;
pub mod render;
