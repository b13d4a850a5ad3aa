//! A Game Boy (SM83) emulator core: registers and flags, instruction
//! decoding and execution, and the memory buses the CPU runs against.

pub mod cpu;
pub mod instruction;
pub mod memory;
