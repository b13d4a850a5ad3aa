use gameboy_emulator::cpu::flags::Flag;
use gameboy_emulator::cpu::Cpu;
use gameboy_emulator::memory::FlatMemory;

fn make_cpu() -> Cpu<FlatMemory> {
    Cpu::new(Box::new(FlatMemory::new()))
}

#[test]
fn test_set_flag_sets_true() {
    let mut cpu = make_cpu();
    cpu.set_flag(Flag::Zero, true);
    assert!(cpu.get_flag(Flag::Zero));
}

#[test]
fn test_set_flag_clears_false() {
    let mut cpu = make_cpu();
    cpu.set_flag(Flag::Zero, true);
    cpu.set_flag(Flag::Zero, false);
    assert!(!cpu.get_flag(Flag::Zero));
}

#[test]
fn test_set_flag_does_not_affect_others_when_setting() {
    let mut cpu = make_cpu();
    cpu.set_flag(Flag::Carry, true);
    cpu.set_flag(Flag::Zero, true);
    assert!(cpu.get_flag(Flag::Carry));
}

#[test]
fn test_set_flag_does_not_affect_others_when_clearing() {
    let mut cpu = make_cpu();
    cpu.set_flag(Flag::Carry, true);
    cpu.set_flag(Flag::Zero, true);
    cpu.set_flag(Flag::Zero, false);
    assert!(cpu.get_flag(Flag::Carry));
    assert!(!cpu.get_flag(Flag::Zero));
}

#[test]
fn flag_bit_masks_are_the_high_nibble() {
    assert_eq!(Flag::Zero.bit_mask(), 0x80);
    assert_eq!(Flag::Subtract.bit_mask(), 0x40);
    assert_eq!(Flag::HalfCarry.bit_mask(), 0x20);
    assert_eq!(Flag::Carry.bit_mask(), 0x10);
}

#[test]
fn every_flag_reads_back_and_keeps_low_nibble_clear() {
    let flags = [Flag::Zero, Flag::Subtract, Flag::HalfCarry, Flag::Carry];
    for flag in flags {
        for other in flags {
            let mut cpu = make_cpu();
            cpu.set_flag(other, true);
            cpu.set_flag(flag, true);
            assert!(cpu.get_flag(flag));
            assert!(cpu.get_flag(other));
            cpu.set_flag(flag, false);
            assert!(!cpu.get_flag(flag));
            assert_eq!(cpu.get_flag(other), other != flag);
            assert_eq!(cpu.state().f & 0x0F, 0);
        }
    }
}

#[test]
fn set_flag_sets_the_exact_bit() {
    let mut cpu = make_cpu();
    cpu.set_flag(Flag::HalfCarry, true);
    assert_eq!(cpu.state().f, 0x20);
    cpu.set_flag(Flag::Zero, true);
    assert_eq!(cpu.state().f, 0xA0);
}

#[test]
fn set_flag_last_write_wins_and_writes_commute() {
    let mut a = make_cpu();
    a.set_flag(Flag::HalfCarry, true);
    a.set_flag(Flag::HalfCarry, false);
    let mut b = make_cpu();
    b.set_flag(Flag::HalfCarry, false);
    assert_eq!(a.state(), b.state());

    let mut c = make_cpu();
    c.set_flag(Flag::Zero, true);
    c.set_flag(Flag::Carry, true);
    let mut d = make_cpu();
    d.set_flag(Flag::Carry, true);
    d.set_flag(Flag::Zero, true);
    assert_eq!(c.state(), d.state());
}

#[test]
fn set_flag_to_its_own_value_changes_nothing() {
    let mut cpu = make_cpu();
    cpu.set_flag(Flag::Subtract, true);
    let before = cpu.state();
    for flag in [Flag::Zero, Flag::Subtract, Flag::HalfCarry, Flag::Carry] {
        let v = cpu.get_flag(flag);
        cpu.set_flag(flag, v);
    }
    assert_eq!(cpu.state(), before);
}
