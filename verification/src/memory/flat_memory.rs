use vstd::prelude::*;

use super::MemoryBus;

verus! {

/// 64 KiB of plain read/write memory with no memory map.
pub struct FlatMemory {
    data: [u8; 0x10000],
}

impl View for FlatMemory {
    type V = Seq<u8>;

    closed spec fn view(&self) -> Seq<u8> {
        self.data@
    }
}

impl FlatMemory {
    /// All 65536 bytes zero.
    pub fn new() -> (r: Self)
        ensures
            r@ == Seq::new(0x10000, |_i: int| 0u8),
    {
        let r = Self { data: [0u8; 0x10000] };
        assert(r@ =~= Seq::new(0x10000, |_i: int| 0u8));
        r
    }
}

impl MemoryBus for FlatMemory {
    open spec fn spec_read(v: Seq<u8>, addr: u16) -> u8 {
        v[addr as int]
    }

    open spec fn spec_write(v: Seq<u8>, addr: u16, value: u8) -> Seq<u8> {
        v.update(addr as int, value)
    }

    fn read(&self, addr: u16) -> (r: u8) {
        self.data[addr as usize]
    }

    fn write(&mut self, addr: u16, value: u8) {
        self.data[addr as usize] = value;
    }
}

} // verus!

verus! {

/// Flat memory gives back what was last written at an address and keeps
/// every other address.
pub proof fn lemma_flat_read_after_write(v: Seq<u8>, addr: u16, value: u8, other: u16)
    requires
        v.len() == 0x10000,
    ensures
        FlatMemory::spec_read(FlatMemory::spec_write(v, addr, value), addr) == value,
        other != addr ==> FlatMemory::spec_read(FlatMemory::spec_write(v, addr, value), other)
            == FlatMemory::spec_read(v, other),
        FlatMemory::spec_write(v, addr, value).len() == 0x10000,
{
}

/// Every flat memory covers the whole 16-bit address space.
pub proof fn lemma_flat_len(mem: &FlatMemory)
    ensures
        mem@.len() == 0x10000,
{
}

} // verus!
