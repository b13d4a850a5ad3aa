//! Memory buses: the `MemoryBus` interface the CPU reads and writes through,
//! a flat 64 KiB memory and the DMG memory map.

use vstd::prelude::*;

pub mod bus;
pub mod flat_memory;

pub use bus::Bus;
pub use flat_memory::FlatMemory;

verus! {

/// A byte-addressed bus over the 16-bit address space.
///
/// Each bus has an abstract state (its view). `spec_read` says what a read
/// returns in a given state and `spec_write` which state a write leads to.
pub trait MemoryBus: View + Sized {
    /// The byte that a read of `addr` returns when the bus is in state `v`.
    spec fn spec_read(v: Self::V, addr: u16) -> u8;

    /// The state of the bus after writing `value` to `addr` in state `v`.
    spec fn spec_write(v: Self::V, addr: u16, value: u8) -> Self::V;

    fn read(&self, addr: u16) -> (r: u8)
        ensures
            r == Self::spec_read(self@, addr),
    ;

    fn write(&mut self, addr: u16, value: u8)
        ensures
            final(self)@ == Self::spec_write(old(self)@, addr, value),
    ;
}

} // verus!
