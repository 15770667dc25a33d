# nes_emulator

A Nintendo Entertainment System emulator whose core is verified with Verus.

- `src/` is the verified library: the 6502 CPU (`cpu`), the CPU bus with its RAM, DMA
  and I/O ports (`bus`), the iNES loader and cartridge boards (`cartridge`, `mapper`),
  the PPU with its registers, background and sprite pipelines (`ppu`), the APU channel
  components (`apu`), the joypad (`nes::controller`) and the console cycle that ties
  CPU, PPU and DMA together (`nes`).
- `app/` is the program around it: command line, ROM file reading, the window, the
  keyboard, the terminal memory view and the floating-point audio filters.
- `tests/` runs the library on concrete values.
