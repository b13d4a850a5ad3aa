use vstd::prelude::*;

use super::{Instruction, Opcode, OpcodeDecodeError};
use crate::cpu::registers::{add16, pair};
use crate::cpu::{with_pc, Cpu};
use crate::memory::MemoryBus;

verus! {

#[derive(Clone, Copy, Debug, PartialEq, Eq, Structural)]
pub enum InstructionDecodeError {
    Opcode(OpcodeDecodeError),
    OperandFormat,
    NotImplemented,
}

impl From<OpcodeDecodeError> for InstructionDecodeError {
    fn from(e: OpcodeDecodeError) -> (r: Self) {
        InstructionDecodeError::Opcode(e)
    }
}

impl vstd::std_specs::convert::FromSpecImpl<OpcodeDecodeError> for InstructionDecodeError {
    open spec fn obeys_from_spec() -> bool {
        true
    }

    open spec fn from_spec(v: OpcodeDecodeError) -> Self {
        InstructionDecodeError::Opcode(v)
    }
}

/// How many operand bytes follow an opcode.
pub open spec fn operand_len(op: Opcode) -> u16 {
    match op {
        Opcode::JpImm16 | Opcode::LdR16(_) | Opcode::LdAFromAddr | Opcode::LdAddrA => 2,
        Opcode::LdR8(_) => 1,
        _ => 0,
    }
}

/// The instruction an opcode makes when the two bytes after it are `imm8`
/// and `imm8_next`: an 8-bit immediate is `imm8`, a 16-bit immediate is
/// little-endian, `imm8_next` its high byte.
pub open spec fn spec_instruction(op: Opcode, imm8: u8, imm8_next: u8) -> Instruction {
    let imm16 = pair(imm8_next, imm8);
    match op {
        Opcode::Nop => Instruction::Nop,
        Opcode::JpImm16 => Instruction::JpImm16(imm16),
        Opcode::LdR8(reg) => Instruction::LdR8 { reg, value: imm8 },
        Opcode::LdR8R8 { dst, src } => Instruction::LdR8R8 { dst, src },
        Opcode::LdR16(reg) => Instruction::LdR16 { reg, value: imm16 },
        Opcode::IncR8(reg) => Instruction::IncR8(reg),
        Opcode::DecR8(reg) => Instruction::DecR8(reg),
        Opcode::IncR16(reg) => Instruction::IncR16(reg),
        Opcode::DecR16(reg) => Instruction::DecR16(reg),
        Opcode::LdMemHLR8(reg) => Instruction::LdMemHLR8(reg),
        Opcode::LdR8FromMemHL(reg) => Instruction::LdR8FromMemHL(reg),
        Opcode::LdAFromAddr => Instruction::LdAFromAddr(imm16),
        Opcode::LdAddrA => Instruction::LdAddrA(imm16),
        Opcode::Di => Instruction::Di,
        Opcode::Ei => Instruction::Ei,
        Opcode::Halt => Instruction::Halt,
    }
}

impl Instruction {
    /// Completes an opcode into an instruction by fetching its immediate
    /// operands at PC, which moves past them. Every opcode decodes.
    pub fn decode<M: MemoryBus>(opcode: Opcode, cpu: &mut Cpu<M>) -> (r: Result<Self, InstructionDecodeError>)
        ensures
            r == Ok::<Instruction, InstructionDecodeError>(spec_instruction(
                opcode,
                M::spec_read(old(cpu)@.mem, old(cpu)@.regs.pc),
                M::spec_read(old(cpu)@.mem, add16(old(cpu)@.regs.pc, 1)),
            )),
            final(cpu)@ == with_pc(old(cpu)@, add16(old(cpu)@.regs.pc, operand_len(opcode))),
    {
        match opcode {
            Opcode::Nop => Ok(Instruction::Nop),
            Opcode::JpImm16 => Ok(Instruction::JpImm16(cpu.fetch_word())),
            Opcode::LdR8(reg) => Ok(Instruction::LdR8 { reg, value: cpu.fetch_byte() }),
            Opcode::LdR8R8 { dst, src } => Ok(Instruction::LdR8R8 { dst, src }),
            Opcode::LdR16(reg) => Ok(Instruction::LdR16 { reg, value: cpu.fetch_word() }),
            Opcode::IncR8(reg) => Ok(Instruction::IncR8(reg)),
            Opcode::DecR8(reg) => Ok(Instruction::DecR8(reg)),
            Opcode::IncR16(reg) => Ok(Instruction::IncR16(reg)),
            Opcode::DecR16(reg) => Ok(Instruction::DecR16(reg)),
            Opcode::LdMemHLR8(reg) => Ok(Instruction::LdMemHLR8(reg)),
            Opcode::LdR8FromMemHL(reg) => Ok(Instruction::LdR8FromMemHL(reg)),
            Opcode::LdAFromAddr => Ok(Instruction::LdAFromAddr(cpu.fetch_word())),
            Opcode::LdAddrA => Ok(Instruction::LdAddrA(cpu.fetch_word())),
            Opcode::Di => Ok(Instruction::Di),
            Opcode::Ei => Ok(Instruction::Ei),
            Opcode::Halt => Ok(Instruction::Halt),
        }
    }
}

} // verus!
