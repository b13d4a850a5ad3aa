use gameboy_emulator::cpu::registers::Register8;
use gameboy_emulator::cpu::Cpu;

fn test_ld_r8_imm8(register: Register8, opcode: u8) {
    let val = 0xAB;
    let mut cpu = Cpu::new_with_program(&[opcode, val]);
    cpu.step().unwrap();
    assert_eq!(cpu.get_register8(register), val);
}

#[test]
fn test_ld_b() {
    test_ld_r8_imm8(Register8::B, 0x06);
}

#[test]
fn test_ld_c() {
    test_ld_r8_imm8(Register8::C, 0x0E);
}

#[test]
fn test_ld_d() {
    test_ld_r8_imm8(Register8::D, 0x16);
}

#[test]
fn test_ld_e() {
    test_ld_r8_imm8(Register8::E, 0x1E);
}

#[test]
fn test_ld_h() {
    test_ld_r8_imm8(Register8::H, 0x26);
}

#[test]
fn test_ld_l() {
    test_ld_r8_imm8(Register8::L, 0x2E);
}

#[test]
fn test_ld_a() {
    test_ld_r8_imm8(Register8::A, 0x3E);
}

#[test]
fn ld_r8_r8_copies_between_registers() {
    // LD B, A ; LD E, B ; LD A, L
    let mut cpu = Cpu::new_with_program(&[0x47, 0x58, 0x7D]);
    cpu.set_register8(Register8::A, 0x5A);
    cpu.set_register8(Register8::L, 0x33);
    cpu.step().unwrap();
    assert_eq!(cpu.get_register8(Register8::B), 0x5A);
    cpu.step().unwrap();
    assert_eq!(cpu.get_register8(Register8::E), 0x5A);
    cpu.step().unwrap();
    assert_eq!(cpu.get_register8(Register8::A), 0x33);
    assert_eq!(cpu.pc(), 3);
}

#[test]
fn ld_r8_imm8_moves_pc_past_the_operand() {
    let mut cpu = Cpu::new_with_program(&[0x06, 0x11, 0x0E, 0x22]);
    cpu.step().unwrap();
    assert_eq!(cpu.pc(), 2);
    cpu.step().unwrap();
    assert_eq!(cpu.pc(), 4);
    assert_eq!(cpu.get_register8(Register8::B), 0x11);
    assert_eq!(cpu.get_register8(Register8::C), 0x22);
}
