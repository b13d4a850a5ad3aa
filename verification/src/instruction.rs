//! SM83 instructions: opcode decoding, operand fetching and execution.

use vstd::prelude::*;

pub mod decode;
pub mod execute;
pub mod flag_adjustment;
pub mod opcode;
pub mod semantics;

pub use decode::InstructionDecodeError;
pub use execute::InstructionExecuteError;
pub use opcode::{Opcode, OpcodeDecodeError};

use crate::cpu::registers::{Register16, Register8};

verus! {

/// A decoded instruction together with its immediate operands.
#[allow(inconsistent_fields)]
#[derive(Clone, Copy, Debug, PartialEq, Eq, Structural)]
pub enum Instruction {
    Nop,
    JpImm16(u16),
    LdR8 { reg: Register8, value: u8 },
    LdR8R8 { dst: Register8, src: Register8 },
    LdR16 { reg: Register16, value: u16 },
    IncR8(Register8),
    DecR8(Register8),
    IncR16(Register16),
    DecR16(Register16),
    LdMemHLR8(Register8),
    LdR8FromMemHL(Register8),
    LdAFromAddr(u16),
    LdAddrA(u16),
    Di,
    Ei,
    Halt,
}

} // verus!
