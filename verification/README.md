# gameboy_emulator

An SM83 (Game Boy CPU) emulator core, verified with Verus.

- `src/cpu.rs` — the CPU, its abstract model (`CpuModel`) and `step`, whose
  contract is `step_spec`: pending `EI`, halting, opcode fetch, operand fetch
  and execution.
- `src/cpu/registers.rs`, `flags.rs`, `state.rs` — register access, flags,
  and the `CpuState` snapshot.
- `src/instruction/` — the opcode table (`spec_opcode`), operand decoding,
  flag adjustments and instruction execution (`execute_spec`).
- `src/memory/` — the `MemoryBus` interface, a flat 64 KiB memory and the DMG
  memory map with its serial port.
- `app/` — the command-line runner: reads a ROM, steps the CPU, prints serial
  output, and reports errors.
