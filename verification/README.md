# ohboy

A Game Boy (DMG) emulator core whose behaviour is stated in Verus contracts and proved.

## Layout

- `src/` — the verified library.
  - `emulator/` — the machine: `cpu` (decoder, executor, ALU helpers, register file,
    assembler text, and `cpu::semantics`, the specification of every instruction over
    a register file and a `Map<u16, u8>` view of memory), `memory` (the memory map,
    work/high RAM, OAM, video RAM with its decoded tiles, the joypad register),
    `ppu` (the line counter), `rom` (the cartridge header), `mbc` (cartridges
    without a bank controller), `register` and `joypad`.
  - `basic/` — a smaller CPU core with its own register set, decoder and memory.
  - `bit_pattern` — the opcode pattern notation (`0b00xx_x100`) used to describe opcodes.
  - `flags` — byte-sized flag sets.
  - `ui` — color indexes to RGB bytes for the tile viewer.
- `tests/` — tests of the library on concrete programs and values.
- `app/` — the program: command line, the emulator thread, the window with its
  wgpu/egui tile viewer.

Run the program with the path of a ROM image; `--basic` after the path runs the
small CPU core instead of the window.
