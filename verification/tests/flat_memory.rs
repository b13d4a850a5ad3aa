use gameboy_emulator::memory::{FlatMemory, MemoryBus};

#[test]
fn flat_memory_starts_zeroed_and_reads_back_writes() {
    let mut mem = FlatMemory::new();
    assert_eq!(mem.read(0x0000), 0);
    assert_eq!(mem.read(0xFFFF), 0);
    mem.write(0xFFFF, 0x12);
    mem.write(0x0000, 0x34);
    mem.write(0xFEA0, 0x56);
    assert_eq!(mem.read(0xFFFF), 0x12);
    assert_eq!(mem.read(0x0000), 0x34);
    assert_eq!(mem.read(0xFEA0), 0x56);
    assert_eq!(mem.read(0x0001), 0);
}
