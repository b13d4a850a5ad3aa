use gameboy_emulator::cpu::flags::Flag;
use gameboy_emulator::instruction::flag_adjustment::FlagAdjustment;
use gameboy_emulator::cpu::registers::{Register16, Register8};
use gameboy_emulator::cpu::{Cpu, CpuError};
use gameboy_emulator::instruction::{Instruction, InstructionDecodeError, Opcode, OpcodeDecodeError};

const NON_INSTRUCTIONS: [u8; 12] = [0xCB, 0xD3, 0xDB, 0xDD, 0xE3, 0xE4, 0xEB, 0xEC, 0xED, 0xF4, 0xFC, 0xFD];

#[test]
fn non_instructions_stay_errors() {
    for byte in NON_INSTRUCTIONS {
        assert_eq!(Opcode::try_from(byte), Err(OpcodeDecodeError::InvalidOpcode(byte)));
    }
}

#[test]
fn opcode_table_samples() {
    assert_eq!(Opcode::try_from(0x00), Ok(Opcode::Nop));
    assert_eq!(Opcode::try_from(0xC3), Ok(Opcode::JpImm16));
    assert_eq!(Opcode::try_from(0x3E), Ok(Opcode::LdR8(Register8::A)));
    assert_eq!(Opcode::try_from(0x36), Err(OpcodeDecodeError::InvalidOpcode(0x36)));
    assert_eq!(Opcode::try_from(0x34), Err(OpcodeDecodeError::InvalidOpcode(0x34)));
    assert_eq!(Opcode::try_from(0x2D), Ok(Opcode::DecR8(Register8::L)));
    assert_eq!(Opcode::try_from(0x76), Ok(Opcode::Halt));
    assert_eq!(Opcode::try_from(0x70), Ok(Opcode::LdMemHLR8(Register8::B)));
    assert_eq!(Opcode::try_from(0x7E), Ok(Opcode::LdR8FromMemHL(Register8::A)));
    assert_eq!(Opcode::try_from(0x41), Ok(Opcode::LdR8R8 { dst: Register8::B, src: Register8::C }));
    assert_eq!(Opcode::try_from(0x31), Ok(Opcode::LdR16(Register16::SP)));
    assert_eq!(Opcode::try_from(0x23), Ok(Opcode::IncR16(Register16::HL)));
    assert_eq!(Opcode::try_from(0x1B), Ok(Opcode::DecR16(Register16::DE)));
    assert_eq!(Opcode::try_from(0x09), Err(OpcodeDecodeError::InvalidOpcode(0x09)));
    assert_eq!(Opcode::try_from(0xFA), Ok(Opcode::LdAFromAddr));
    assert_eq!(Opcode::try_from(0xEA), Ok(Opcode::LdAddrA));
    assert_eq!(Opcode::try_from(0xF3), Ok(Opcode::Di));
    assert_eq!(Opcode::try_from(0xFB), Ok(Opcode::Ei));
}

#[test]
fn load_block_decodes_completely() {
    for byte in 0x40u8..=0x7F {
        assert!(Opcode::try_from(byte).is_ok());
    }
}

#[test]
fn invalid_opcode_fails_the_step_past_the_byte() {
    let mut cpu = Cpu::new_with_program(&[0xCB]);
    let before = cpu.state();
    let r = cpu.step();
    assert_eq!(r, Err(CpuError::Decode(InstructionDecodeError::Opcode(OpcodeDecodeError::InvalidOpcode(0xCB)))));
    assert_eq!(cpu.pc(), 1);
    assert_eq!(cpu.state().a, before.a);
}

#[test]
fn decode_fetches_little_endian_operands() {
    let mut cpu = Cpu::new_with_program(&[0x34, 0x12]);
    let instr = Instruction::decode(Opcode::JpImm16, &mut cpu).unwrap();
    assert_eq!(instr, Instruction::JpImm16(0x1234));
    assert_eq!(cpu.pc(), 2);
    let mut cpu = Cpu::new_with_program(&[0x99]);
    let instr = Instruction::decode(Opcode::LdR8(Register8::D), &mut cpu).unwrap();
    assert_eq!(instr, Instruction::LdR8 { reg: Register8::D, value: 0x99 });
    assert_eq!(cpu.pc(), 1);
}

#[test]
fn jp_imm16_jumps() {
    let mut cpu = Cpu::new_with_program(&[0xC3, 0x50, 0x01]);
    cpu.step().unwrap();
    assert_eq!(cpu.pc(), 0x0150);
}

#[test]
fn nop_only_advances_pc() {
    let mut cpu = Cpu::new_with_program(&[0x00]);
    let before = cpu.state();
    cpu.step().unwrap();
    assert_eq!(cpu.state().pc, before.pc + 1);
    assert_eq!(cpu.state().a, before.a);
}

#[test]
fn flag_adjustment_sets_and_keeps() {
    let mut cpu = Cpu::new_with_program(&[]);
    cpu.set_flag(Flag::Carry, true);
    cpu.set_flag(Flag::Subtract, true);
    FlagAdjustment { zero: Some(true), subtract: Some(false), half_carry: None, carry: None }.apply(&mut cpu);
    assert_eq!(cpu.state().f, 0x90);
}

#[test]
fn opcode_error_converts_into_decode_error() {
    let e = InstructionDecodeError::from(OpcodeDecodeError::InvalidOpcode(0xD3));
    assert_eq!(e, InstructionDecodeError::Opcode(OpcodeDecodeError::InvalidOpcode(0xD3)));
}
