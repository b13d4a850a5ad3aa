use gameboy_emulator::cpu::registers::Register8;
use gameboy_emulator::cpu::state::CpuState;
use gameboy_emulator::cpu::Cpu;
use gameboy_emulator::memory::{Bus, FlatMemory};

fn sample_state() -> CpuState {
    CpuState {
        pc: 0x1234,
        sp: 0xFFFE,
        a: 0x12,
        f: 0xB0,
        b: 0x34,
        c: 0x56,
        d: 0x78,
        e: 0x9A,
        h: 0xBC,
        l: 0xDE,
        ime: true,
    }
}

#[test]
fn with_state_state_round_trips() {
    let cpu = Cpu::with_state(sample_state(), Box::new(FlatMemory::new()));
    assert_eq!(cpu.state(), sample_state());
}

#[test]
fn with_state_masks_f_low_nibble() {
    let state = CpuState {
        f: 0xBF,
        ..sample_state()
    };
    let cpu = Cpu::with_state(state, Box::new(FlatMemory::new()));
    assert_eq!(cpu.state().f, 0xB0);
}

#[test]
fn with_state_starts_unhalted() {
    let cpu = Cpu::with_state(sample_state(), Box::new(FlatMemory::new()));
    assert!(!cpu.halted());
}

#[test]
fn state_from_cpu_matches_state() {
    let cpu = Cpu::with_state(sample_state(), Box::new(FlatMemory::new()));
    assert_eq!(CpuState::from(&cpu), cpu.state());
}

#[test]
fn new_starts_zeroed() {
    let cpu = Cpu::new(Box::new(FlatMemory::new()));
    assert_eq!(cpu.state(), CpuState::default());
    assert!(!cpu.halted());
    assert!(!cpu.ime());
}

#[test]
fn new_dmg_has_post_boot_registers() {
    let cpu = Cpu::new_dmg(Box::new(Bus::new(vec![0u8; 0x8000])));
    let expected = CpuState {
        pc: 0x0100,
        sp: 0xFFFE,
        a: 0x01,
        f: 0xB0,
        b: 0x00,
        c: 0x13,
        d: 0x00,
        e: 0xD8,
        h: 0x01,
        l: 0x4D,
        ime: false,
    };
    assert_eq!(cpu.state(), expected);
}

#[test]
fn set_register8_f_keeps_high_nibble_only() {
    let mut cpu = Cpu::new(Box::new(FlatMemory::new()));
    cpu.set_register8(Register8::F, 0xFF);
    assert_eq!(cpu.get_register8(Register8::F), 0xF0);
}

#[test]
fn default_state_is_zero() {
    let s = CpuState::default();
    assert_eq!(s, CpuState { pc: 0, sp: 0, a: 0, f: 0, b: 0, c: 0, d: 0, e: 0, h: 0, l: 0, ime: false });
}

#[test]
fn state_never_shows_a_low_nibble_in_f() {
    let cpu = Cpu::with_state(CpuState { f: 0xFF, ..sample_state() }, Box::new(FlatMemory::new()));
    assert_eq!(cpu.state().f & 0x0F, 0);
    assert_eq!(cpu.get_register8(Register8::F), 0xF0);
}
