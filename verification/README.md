# rbca_core

The core of a Game Boy (DMG) emulator, written in Verus: every function of the
library carries a contract, and the properties that relate several operations
(what a read gives back of a write, that a push is undone by a pop, that an
interrupt jumps to its vector, ...) are stated and proved in `src/laws.rs`.

Layout:

- `src/` — the verified library: flags and registers, the memory map (`mmu`),
  cartridges (ROM only, MBC1, none), timer, joypad, pixel processing unit,
  the CPU and its instruction set, palettes and breakpoint matching.
- `tests/` — tests of the library on concrete values.
- `app/` — the desktop front end: reads the configuration and the ROM files,
  opens an SDL2 window, maps keys to buttons and runs the CPU.

The front end reads its settings from `default` (required) and `config`
(optional) in the configuration directory (`RBCA_DESKTOP_CONFIG`, else the
platform's local configuration directory): key bindings (SDL2 scancode
names), the boot ROM path and saves directory, the palette (a preset or a
custom one in hexadecimal colours), debug settings and breakpoints.
