# pnes

A NES emulator core whose logic is verified with Verus.

- `src/cpu`: a 6502 core over a flat 64 KiB memory. `spec.rs` models one
  instruction (`step_spec`), its cycle count (`step_cycles`) and a bounded run
  (`run_spec`); `decode.rs` holds the opcode table; `laws.rs` proves stack,
  subroutine, interrupt and arithmetic round trips.
- `src/ppu`: the picture unit's memory map, registers and scanline timing;
  `laws.rs` covers nametable and palette mirroring.
- `src/render`: draws the background (two scrolled nametables) and the 64
  sprites into a frame, specified pixel by pixel (`picture_pixel`).
- `src/apu`: the audio unit's channels, frame counter and the channel levels
  it samples every 40 CPU cycles.
- `src/bus.rs`: the CPU's view of the console (RAM mirroring, PPU and APU
  registers, controller, cartridge, OAM DMA, write corruption).
- `src/cartridge.rs`, `src/mappers`: iNES parsing and mapper 0.
- `app/`: the SDL front end (window, input, timing, file dialog) and the
  floating-point audio mixer.

The tests under `tests/` exercise the library on concrete programs, images
and pictures.
