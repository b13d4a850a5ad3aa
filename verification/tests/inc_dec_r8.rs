use gameboy_emulator::cpu::state::CpuState;
use gameboy_emulator::instruction::Instruction;
use gameboy_emulator::cpu::flags::Flag;
use gameboy_emulator::cpu::registers::{Register16, Register8};
use gameboy_emulator::cpu::Cpu;

fn test_inc_r8(register: Register8, opcode: u8) {
    let mut cpu = Cpu::new_with_program(&[opcode]);
    cpu.set_register8(register, 0x41);

    cpu.step().unwrap();
    assert_eq!(cpu.get_register8(register), 0x42);
}

fn test_dec_r8(register: Register8, opcode: u8) {
    let mut cpu = Cpu::new_with_program(&[opcode]);
    cpu.set_register8(register, 0x43);

    cpu.step().unwrap();
    assert_eq!(cpu.get_register8(register), 0x42);
}

// Increment
#[test]
fn test_inc_a() {
    test_inc_r8(Register8::A, 0x3C);
}

#[test]
fn test_inc_b() {
    test_inc_r8(Register8::B, 0x04);
}

#[test]
fn test_inc_c() {
    test_inc_r8(Register8::C, 0x0C);
}

#[test]
fn test_inc_d() {
    test_inc_r8(Register8::D, 0x14);
}

#[test]
fn test_inc_e() {
    test_inc_r8(Register8::E, 0x1C);
}

#[test]
fn test_inc_h() {
    test_inc_r8(Register8::H, 0x24);
}

#[test]
fn test_inc_l() {
    test_inc_r8(Register8::L, 0x2C);
}

// inc_r8 flag tests (opcode 0x04 = INC B)
#[test]
fn test_inc_r8_zero_flag_set() {
    let mut cpu = Cpu::new_with_program(&[0x04]);
    cpu.set_register8(Register8::B, 0xFF);
    cpu.step().unwrap();
    assert!(cpu.get_flag(Flag::Zero));
    assert!(!cpu.get_flag(Flag::Subtract));
    assert!(cpu.get_flag(Flag::HalfCarry));
}

#[test]
fn test_inc_r8_zero_flag_clear() {
    let mut cpu = Cpu::new_with_program(&[0x04]);
    cpu.set_register8(Register8::B, 0x41);
    cpu.step().unwrap();
    assert!(!cpu.get_flag(Flag::Zero));
}

#[test]
fn test_inc_r8_half_carry_set() {
    let mut cpu = Cpu::new_with_program(&[0x04]);
    cpu.set_register8(Register8::B, 0x0F);
    cpu.step().unwrap();
    assert!(cpu.get_flag(Flag::HalfCarry));
}

#[test]
fn test_inc_r8_half_carry_clear() {
    let mut cpu = Cpu::new_with_program(&[0x04]);
    cpu.set_register8(Register8::B, 0x10);
    cpu.step().unwrap();
    assert!(!cpu.get_flag(Flag::HalfCarry));
}

#[test]
fn test_inc_r8_subtract_clear() {
    let mut cpu = Cpu::new_with_program(&[0x04]);
    cpu.set_register8(Register8::B, 0x01);
    cpu.step().unwrap();
    assert!(!cpu.get_flag(Flag::Subtract));
}

#[test]
fn test_inc_r8_carry_unaffected() {
    let mut cpu = Cpu::new_with_program(&[0x04]);
    cpu.set_flag(Flag::Carry, true);
    cpu.set_register8(Register8::B, 0x01);
    cpu.step().unwrap();
    assert!(cpu.get_flag(Flag::Carry));
}

// dec_r8 flag tests (opcode 0x05 = DEC B)
#[test]
fn test_dec_r8_zero_flag_set() {
    let mut cpu = Cpu::new_with_program(&[0x05]);
    cpu.set_register8(Register8::B, 0x01);
    cpu.step().unwrap();
    assert!(cpu.get_flag(Flag::Zero));
}

#[test]
fn test_dec_r8_zero_flag_clear() {
    let mut cpu = Cpu::new_with_program(&[0x05]);
    cpu.set_register8(Register8::B, 0x43);
    cpu.step().unwrap();
    assert!(!cpu.get_flag(Flag::Zero));
}

#[test]
fn test_dec_r8_half_carry_set() {
    let mut cpu = Cpu::new_with_program(&[0x05]);
    cpu.set_register8(Register8::B, 0x10);
    cpu.step().unwrap();
    assert!(cpu.get_flag(Flag::HalfCarry));
}

#[test]
fn test_dec_r8_half_carry_clear() {
    let mut cpu = Cpu::new_with_program(&[0x05]);
    cpu.set_register8(Register8::B, 0x42);
    cpu.step().unwrap();
    assert!(!cpu.get_flag(Flag::HalfCarry));
}

#[test]
fn test_dec_r8_subtract_set() {
    let mut cpu = Cpu::new_with_program(&[0x05]);
    cpu.set_register8(Register8::B, 0x02);
    cpu.step().unwrap();
    assert!(cpu.get_flag(Flag::Subtract));
}

#[test]
fn test_dec_r8_carry_unaffected() {
    let mut cpu = Cpu::new_with_program(&[0x05]);
    cpu.set_flag(Flag::Carry, true);
    cpu.set_register8(Register8::B, 0x02);
    cpu.step().unwrap();
    assert!(cpu.get_flag(Flag::Carry));
}

// Decrement
#[test]
fn test_dec_a() {
    test_dec_r8(Register8::A, 0x3D);
}

#[test]
fn test_dec_b() {
    test_dec_r8(Register8::B, 0x05);
}

#[test]
fn test_dec_c() {
    test_dec_r8(Register8::C, 0x0D);
}

#[test]
fn test_dec_d() {
    test_dec_r8(Register8::D, 0x15);
}

#[test]
fn test_dec_e() {
    test_dec_r8(Register8::E, 0x1D);
}

#[test]
fn test_dec_h() {
    test_dec_r8(Register8::H, 0x25);
}

#[test]
fn test_dec_l() {
    test_dec_r8(Register8::L, 0x2D);
}

#[test]
fn inc_r8_wraps_and_dec_r8_undoes_it() {
    for start in [0x00u8, 0x0F, 0x10, 0x7F, 0xFF] {
        let mut cpu = Cpu::new_with_program(&[0x0C, 0x0D]);
        cpu.set_register8(Register8::C, start);
        cpu.step().unwrap();
        assert_eq!(cpu.get_register8(Register8::C), start.wrapping_add(1));
        cpu.step().unwrap();
        assert_eq!(cpu.get_register8(Register8::C), start);
    }
}

#[test]
fn dec_r8_from_zero_wraps_with_half_borrow() {
    let mut cpu = Cpu::new_with_program(&[0x05]);
    cpu.set_register8(Register8::B, 0x00);
    cpu.step().unwrap();
    assert_eq!(cpu.get_register8(Register8::B), 0xFF);
    assert!(!cpu.get_flag(Flag::Zero));
    assert!(cpu.get_flag(Flag::Subtract));
    assert!(cpu.get_flag(Flag::HalfCarry));
}

#[test]
fn inc_r8_sets_flags_byte_exactly() {
    let mut cpu = Cpu::new_with_program(&[0x04]);
    cpu.set_flag(Flag::Subtract, true);
    cpu.set_register8(Register8::B, 0xFF);
    cpu.step().unwrap();
    assert_eq!(cpu.state().f, 0xA0);
}

#[test]
fn inc_r16_and_dec_r16_wrap() {
    let mut cpu = Cpu::new_with_program(&[0x03, 0x0B, 0x0B, 0x33]);
    cpu.set_register16(Register16::BC, 0xFFFF);
    cpu.step().unwrap();
    assert_eq!(cpu.get_register16(Register16::BC), 0x0000);
    assert_eq!(cpu.get_register8(Register8::B), 0x00);
    cpu.step().unwrap();
    assert_eq!(cpu.get_register16(Register16::BC), 0xFFFF);
    cpu.step().unwrap();
    assert_eq!(cpu.get_register16(Register16::BC), 0xFFFE);
    cpu.step().unwrap();
    assert_eq!(cpu.get_register16(Register16::SP), 0x0001);
    assert_eq!(cpu.state().f, 0);
}

#[test]
fn inc_then_dec_restores_register_and_keeps_everything_else() {

    for v in [0x00u8, 0x0F, 0x42, 0xFF] {
        let mut cpu = Cpu::new_with_program(&[]);
        cpu.set_register8(Register8::E, v);
        cpu.set_register8(Register8::A, 0x77);
        cpu.set_flag(Flag::Carry, true);
        let s = cpu.state();
        Instruction::IncR8(Register8::E).execute(&mut cpu).unwrap();
        Instruction::DecR8(Register8::E).execute(&mut cpu).unwrap();
        assert_eq!(cpu.get_register8(Register8::E), v);
        assert!(cpu.get_flag(Flag::Carry));
        assert!(cpu.get_flag(Flag::Subtract));
        assert_eq!(cpu.get_flag(Flag::Zero), v == 0);
        assert_eq!(CpuState { f: s.f, ..cpu.state() }, s);
    }
}
