use gameboy_emulator::cpu::Cpu;
use gameboy_emulator::memory::{Bus, MemoryBus};

fn make_bus() -> Bus {
    Bus::new(vec![0u8; 0x8000])
}

#[test]
fn rom_read_returns_correct_byte() {
    let mut rom = vec![0u8; 0x8000];
    rom[0x0100] = 0xAB;
    let bus = Bus::new(rom);
    assert_eq!(bus.read(0x0100), 0xAB);
}

#[test]
fn rom_write_is_ignored() {
    let bus_before = make_bus();
    let mut bus = make_bus();
    bus.write(0x0100, 0xFF);
    assert_eq!(bus.read(0x0100), bus_before.read(0x0100));
}

#[test]
fn rom_read_past_end_returns_0xff() {
    let bus = Bus::new(vec![0u8; 0x100]);
    assert_eq!(bus.read(0x0200), 0xFF);
}

#[test]
fn vram_read_write() {
    let mut bus = make_bus();
    bus.write(0x8000, 0x12);
    bus.write(0x9FFF, 0x34);
    assert_eq!(bus.read(0x8000), 0x12);
    assert_eq!(bus.read(0x9FFF), 0x34);
}

#[test]
fn eram_read_write() {
    let mut bus = make_bus();
    bus.write(0xA000, 0x56);
    bus.write(0xBFFF, 0x78);
    assert_eq!(bus.read(0xA000), 0x56);
    assert_eq!(bus.read(0xBFFF), 0x78);
}

#[test]
fn wram_read_write() {
    let mut bus = make_bus();
    bus.write(0xC000, 0x9A);
    bus.write(0xDFFF, 0xBC);
    assert_eq!(bus.read(0xC000), 0x9A);
    assert_eq!(bus.read(0xDFFF), 0xBC);
}

#[test]
fn echo_ram_reads_wram() {
    let mut bus = make_bus();
    bus.write(0xC123, 0x42);
    assert_eq!(bus.read(0xE123), 0x42);
}

#[test]
fn echo_ram_writes_wram() {
    let mut bus = make_bus();
    bus.write(0xE123, 0x42);
    assert_eq!(bus.read(0xC123), 0x42);
}

#[test]
fn oam_read_write() {
    let mut bus = make_bus();
    bus.write(0xFE00, 0xDE);
    bus.write(0xFE9F, 0xAD);
    assert_eq!(bus.read(0xFE00), 0xDE);
    assert_eq!(bus.read(0xFE9F), 0xAD);
}

#[test]
fn unusable_read_returns_0xff() {
    let bus = make_bus();
    assert_eq!(bus.read(0xFEA0), 0xFF);
    assert_eq!(bus.read(0xFEFF), 0xFF);
}

#[test]
fn unusable_write_is_ignored() {
    let mut bus = make_bus();
    bus.write(0xFEA0, 0x55);
    assert_eq!(bus.read(0xFEA0), 0xFF);
}

#[test]
fn hram_read_write() {
    let mut bus = make_bus();
    bus.write(0xFF80, 0x11);
    bus.write(0xFFFE, 0x22);
    assert_eq!(bus.read(0xFF80), 0x11);
    assert_eq!(bus.read(0xFFFE), 0x22);
}

#[test]
fn ie_read_write() {
    let mut bus = make_bus();
    bus.write(0xFFFF, 0x1F);
    assert_eq!(bus.read(0xFFFF), 0x1F);
}

#[test]
fn if_reg_read_write() {
    let mut bus = make_bus();
    bus.write(0xFF0F, 0x05);
    assert_eq!(bus.read(0xFF0F), 0x05);
}

#[test]
fn serial_sb_read_write() {
    let mut bus = make_bus();
    bus.write(0xFF01, 0x41);
    assert_eq!(bus.read(0xFF01), 0x41);
}

#[test]
fn serial_sc_transfer_clears_bit7() {
    let mut bus = make_bus();
    bus.write(0xFF01, 0x41);
    bus.write(0xFF02, 0x81);
    assert_eq!(
        bus.read(0xFF02) & 0x80,
        0,
        "SC bit 7 should be cleared after transfer"
    );
}

#[test]
fn serial_sc_without_bit7_does_not_trigger_transfer() {
    let mut bus = make_bus();
    bus.write(0xFF01, 0x41);
    bus.write(0xFF02, 0x01);
    assert_eq!(bus.read(0xFF02), 0x01);
}

#[test]
fn serial_sc_preserves_lower_bits_after_transfer() {
    let mut bus = make_bus();
    bus.write(0xFF02, 0x81);
    assert_eq!(bus.read(0xFF02), 0x01);
}

#[test]
fn unmapped_io_read_returns_0xff() {
    let bus = make_bus();
    assert_eq!(bus.read(0xFF50), 0xFF);
}

#[test]
fn unmapped_io_write_is_ignored() {
    let mut bus = make_bus();
    bus.write(0xFF50, 0x01);
    assert_eq!(bus.read(0xFF50), 0xFF);
}

#[test]
fn serial_transfer_is_queued_for_the_host() {
    let mut bus = make_bus();
    bus.write(0xFF01, 0x48);
    bus.write(0xFF02, 0x81);
    bus.write(0xFF01, 0x69);
    bus.write(0xFF02, 0x81);
    bus.write(0xFF02, 0x01);
    assert_eq!(bus.take_serial_output(), vec![0x48, 0x69]);
    assert!(bus.take_serial_output().is_empty());
}

#[test]
fn echo_ram_end_maps_to_wram() {
    let mut bus = make_bus();
    bus.write(0xFDFF, 0x99);
    assert_eq!(bus.read(0xDDFF), 0x99);
    assert_eq!(bus.read(0xFE00), 0x00);
}

#[test]
fn writes_leave_other_regions_alone() {
    let mut bus = make_bus();
    bus.write(0x8000, 0x01);
    bus.write(0xA000, 0x02);
    bus.write(0xC000, 0x03);
    bus.write(0xFE00, 0x04);
    bus.write(0xFF80, 0x05);
    bus.write(0xFFFF, 0x06);
    assert_eq!(bus.read(0x8000), 0x01);
    assert_eq!(bus.read(0xA000), 0x02);
    assert_eq!(bus.read(0xC000), 0x03);
    assert_eq!(bus.read(0xE000), 0x03);
    assert_eq!(bus.read(0xFE00), 0x04);
    assert_eq!(bus.read(0xFF80), 0x05);
    assert_eq!(bus.read(0xFFFF), 0x06);
    assert_eq!(bus.ie, 0x06);
}

#[test]
fn cpu_on_bus_sends_serial_bytes() {
    // LD A, 0x4F ; LD (0xFF01), A ; LD A, 0x81 ; LD (0xFF02), A
    let mut rom = vec![0u8; 0x8000];
    let program = [0x3E, 0x4F, 0xEA, 0x01, 0xFF, 0x3E, 0x81, 0xEA, 0x02, 0xFF];
    rom[0x0100..0x0100 + program.len()].copy_from_slice(&program);
    let mut cpu = Cpu::new_dmg(Box::new(Bus::new(rom)));
    for _ in 0..4 {
        cpu.step().unwrap();
    }
    assert_eq!(cpu.take_serial_output(), vec![0x4F]);
    assert_eq!(cpu.read(0xFF02), 0x01);
}

#[test]
fn interrupt_register_getters() {
    let mut bus = make_bus();
    bus.write(0xFFFF, 0x1F);
    bus.write(0xFF0F, 0x05);
    assert_eq!(bus.ie(), 0x1F);
    assert_eq!(bus.if_reg(), 0x05);
}
