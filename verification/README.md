# NES core, verified

A cycle-stepped model of the NES's 6502 CPU and of parts of its picture
processing unit, written in Verus. Each step of the CPU and of the PPU is
specified as a function on a plain-value view of the machine, and the code is
proved to compute it.

Layout of `src/`:

- `register.rs`: 8- and 16-bit registers, with bit and byte access.
- `ram.rs`: the 2 KiB CPU RAM, mirrored every 0x800 bytes.
- `vram.rs`: object attribute memory, secondary OAM, palette memory.
- `cartridge.rs`: program RAM and ROM, character ROM, nametable mirroring.
- `instructions.rs`: the opcode table, instruction kinds, addressing modes.
- `transition.rs`: the CPU's micro-step states and how one leads to the next,
  with the proof that every supported instruction runs to its end within
  eight cycles.
- `alu.rs`: the flag and arithmetic rules of the instructions.
- `cpu_model.rs`, `cpu.rs`: the CPU's view, the meaning of each step, and the
  CPU itself.
- `ppu_model.rs`, `ppu.rs`: the PPU's view, the meaning of each dot and
  register access, scrolling and mirroring laws, and the PPU itself.
