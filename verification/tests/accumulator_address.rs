use gameboy_emulator::cpu::registers::Register8;
use gameboy_emulator::cpu::Cpu;

#[test]
fn test_ld_a_from_address() {
    let target_addr = 0x1234;
    let value = 0xAB;
    let program = [0xFA, 0x34, 0x12];

    let mut cpu = Cpu::new_with_program(&program);

    cpu.write(target_addr, value);

    assert_ne!(cpu.get_register8(Register8::A), value);

    cpu.step().unwrap();

    assert_eq!(cpu.get_register8(Register8::A), value);
}

#[test]
fn test_ld_address_a() {
    let addr: u16 = 0x1234;
    let value: u8 = 0xAB;
    let program = [0xEA, 0x34, 0x12];

    let mut cpu = Cpu::new_with_program(&program);

    cpu.set_register8(Register8::A, value);

    assert_ne!(cpu.read(addr), value);

    cpu.step().unwrap();

    assert_eq!(cpu.read(addr), value);
}

#[test]
fn ld_a16_instructions_move_pc_past_operands() {
    let mut cpu = Cpu::new_with_program(&[0xFA, 0x34, 0x12, 0xEA, 0x00, 0xC0]);
    cpu.step().unwrap();
    assert_eq!(cpu.pc(), 3);
    cpu.step().unwrap();
    assert_eq!(cpu.pc(), 6);
}
