use gameboy_emulator::cpu::state::CpuState;
use gameboy_emulator::cpu::Cpu;

#[test]
fn halt_sets_halted() {
    let mut cpu = Cpu::new_with_program(&[0x76]);
    cpu.step().unwrap();
    assert!(cpu.halted());
}

#[test]
fn halt_only_advances_pc() {
    let mut cpu = Cpu::new_with_program(&[0x76]);
    let before = cpu.state();

    cpu.step().unwrap();

    let expected = CpuState {
        pc: before.pc.wrapping_add(1),
        ..before
    };

    assert_eq!(cpu.state(), expected);
}

#[test]
fn halt_idles_on_subsequent_steps() {
    let mut cpu = Cpu::new_with_program(&[0x76, 0x00]);
    cpu.step().unwrap();
    let pc_after_halt = cpu.pc();
    cpu.step().unwrap();
    cpu.step().unwrap();
    assert_eq!(cpu.pc(), pc_after_halt);
}

#[test]
fn halted_cpu_keeps_every_register() {
    let mut cpu = Cpu::new_with_program(&[0x76, 0x3C, 0x3C]);
    cpu.step().unwrap();
    let after_halt = cpu.state();
    for _ in 0..5 {
        cpu.step().unwrap();
    }
    assert_eq!(cpu.state(), after_halt);
    assert!(cpu.halted());
}
