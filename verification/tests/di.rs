use gameboy_emulator::cpu::state::CpuState;
use gameboy_emulator::cpu::Cpu;

#[test]
fn di_clears_ime() {
    let mut cpu = Cpu::new_with_program(&[0xF3]);
    cpu.step().unwrap();
    assert!(!cpu.ime());
}

#[test]
fn di_only_advances_pc() {
    let mut cpu = Cpu::new_with_program(&[0xF3]);
    let before = cpu.state();

    cpu.step().unwrap();

    let expected = CpuState {
        pc: before.pc.wrapping_add(1),
        ..before
    };

    assert_eq!(cpu.state(), expected);
}

#[test]
fn di_clears_ime_that_was_set() {
    let mut cpu = Cpu::new_with_program(&[0xFB, 0x00, 0xF3]);
    cpu.step().unwrap();
    cpu.step().unwrap();
    assert!(cpu.ime());
    cpu.step().unwrap();
    assert!(!cpu.ime());
}

#[test]
fn di_right_after_ei_leaves_ime_clear() {
    let mut cpu = Cpu::new_with_program(&[0xFB, 0xF3, 0x00]);
    cpu.step().unwrap();
    cpu.step().unwrap();
    assert!(!cpu.ime());
    cpu.step().unwrap();
    assert!(!cpu.ime());
}
