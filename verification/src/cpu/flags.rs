use vstd::prelude::*;

use super::{Cpu, CpuModel};
use super::registers::{with_reg8, Register8};
use super::state::CpuState;
use crate::memory::MemoryBus;

verus! {

/// The four condition flags, held in the high nibble of F.
#[derive(Clone, Copy, Debug, PartialEq, Eq, Structural)]
pub enum Flag {
    Zero,
    Subtract,
    HalfCarry,
    Carry,
}

/// The bit of F that holds a flag: Z is bit 7, N bit 6, H bit 5, C bit 4.
pub open spec fn flag_mask(flag: Flag) -> u8 {
    match flag {
        Flag::Zero => 0x80,
        Flag::Subtract => 0x40,
        Flag::HalfCarry => 0x20,
        Flag::Carry => 0x10,
    }
}

/// Whether `flag` is set in the flag byte `f`.
pub open spec fn flag_of(f: u8, flag: Flag) -> bool {
    f & flag_mask(flag) != 0
}

/// The flag byte `f` with `flag` set to `value` and every other bit kept.
pub open spec fn with_flag(f: u8, flag: Flag, value: bool) -> u8 {
    if value {
        f | flag_mask(flag)
    } else {
        f & !flag_mask(flag)
    }
}

/// The flag byte F holding the four flags; its low nibble is zero.
pub open spec fn flags_byte(z: bool, n: bool, h: bool, c: bool) -> u8 {
    (if z { 0x80u8 } else { 0u8 }) | (if n { 0x40u8 } else { 0u8 }) | (if h { 0x20u8 } else { 0u8 }) | (if c {
        0x10u8
    } else {
        0u8
    })
}

/// Assembles F from the four flags.
pub(crate) fn pack_flags(z: bool, n: bool, h: bool, c: bool) -> (r: u8)
    ensures
        r == flags_byte(z, n, h, c),
{
    (if z { 0x80u8 } else { 0u8 }) | (if n { 0x40u8 } else { 0u8 }) | (if h { 0x20u8 } else { 0u8 }) | (if c {
        0x10u8
    } else {
        0u8
    })
}

/// Taking a byte apart into the four flags and assembling them again keeps
/// its high nibble and clears its low nibble.
pub proof fn lemma_unpack_flags(v: u8)
    ensures
        flags_byte(v & 0x80 != 0, v & 0x40 != 0, v & 0x20 != 0, v & 0x10 != 0) == v & 0xF0,
{
    assert(((if v & 0x80 != 0 { 0x80u8 } else { 0u8 }) | (if v & 0x40 != 0 { 0x40u8 } else { 0u8 }) | (if v
        & 0x20 != 0 {
        0x20u8
    } else {
        0u8
    }) | (if v & 0x10 != 0 { 0x10u8 } else { 0u8 })) == v & 0xF0) by (bit_vector);
}

/// A flag byte assembled from flags has a clear low nibble.
pub proof fn lemma_flags_byte_low_nibble(z: bool, n: bool, h: bool, c: bool)
    ensures
        flags_byte(z, n, h, c) & 0x0F == 0,
{
    assert(((if z { 0x80u8 } else { 0u8 }) | (if n { 0x40u8 } else { 0u8 }) | (if h { 0x20u8 } else { 0u8 }) | (if c {
        0x10u8
    } else {
        0u8
    })) & 0x0F == 0) by (bit_vector);
}

/// The register state `s` after setting `flag` to `value`.
pub open spec fn with_flag_set(s: CpuState, flag: Flag, value: bool) -> CpuState {
    with_reg8(s, Register8::F, with_flag(s.f, flag, value))
}

impl Flag {
    pub fn bit_mask(&self) -> (r: u8)
        ensures
            r == flag_mask(*self),
    {
        match self {
            Flag::Zero => 0b10000000,
            Flag::Subtract => 0b01000000,
            Flag::HalfCarry => 0b00100000,
            Flag::Carry => 0b00010000,
        }
    }
}

impl<M: MemoryBus> Cpu<M> {
    pub fn get_flag(&self, flag: Flag) -> (r: bool)
        ensures
            r == flag_of(self@.regs.f, flag),
    {
        self.get_register8(Register8::F) & flag.bit_mask() != 0
    }

    /// Sets one flag and keeps the others (F's low nibble stays clear).
    pub fn set_flag(&mut self, flag: Flag, value: bool)
        ensures
            final(self)@ == (CpuModel {
                regs: with_flag_set(old(self)@.regs, flag, value),
                ..old(self)@
            }),
    {
        let f = self.get_register8(Register8::F);
        let mask = flag.bit_mask();
        self.set_register8(Register8::F, if value { f | mask } else { f & !mask });
    }
}

/// Reading a flag gives back what was last written to it.
pub proof fn lemma_get_set_flag(f: u8, flag: Flag, value: bool)
    ensures
        flag_of(with_flag(f, flag, value) & 0xF0, flag) == value,
{
    let m = flag_mask(flag);
    assert(((f | m) & 0xF0) & m != 0 && ((f & !m) & 0xF0) & m == 0) by (bit_vector)
        requires
            m == 0x80 || m == 0x40 || m == 0x20 || m == 0x10,
    ;
}

/// Writing one flag leaves every other flag as it was.
pub proof fn lemma_set_flag_keeps_others(f: u8, flag: Flag, value: bool, other: Flag)
    requires
        other != flag,
    ensures
        flag_of(with_flag(f, flag, value) & 0xF0, other) == flag_of(f, other),
{
    let m = flag_mask(flag);
    let o = flag_mask(other);
    assert((((f | m) & 0xF0) & o != 0) == (f & o != 0) && (((f & !m) & 0xF0) & o != 0) == (f & o != 0))
        by (bit_vector)
        requires
            m == 0x80 || m == 0x40 || m == 0x20 || m == 0x10,
            o == 0x80 || o == 0x40 || o == 0x20 || o == 0x10,
            m != o,
    ;
}

/// Flags live in the high nibble: updating one keeps F's low nibble clear.
pub proof fn lemma_set_flag_low_nibble(f: u8, flag: Flag, value: bool)
    ensures
        (with_flag(f, flag, value) & 0xF0) & 0x0F == 0,
{
    let x = with_flag(f, flag, value);
    assert((x & 0xF0) & 0x0F == 0) by (bit_vector);
}

/// Of two writes to one flag the last wins.
pub proof fn lemma_set_flag_last_wins(s: CpuState, flag: Flag, v: bool, w: bool)
    ensures
        with_flag_set(with_flag_set(s, flag, v), flag, w) == with_flag_set(s, flag, w),
{
    let f = s.f;
    let m = flag_mask(flag);
    assert((((f | m) & 0xF0) | m) & 0xF0 == (f | m) & 0xF0 && (((f & !m) & 0xF0) | m) & 0xF0 == (f | m) & 0xF0
        && (((f | m) & 0xF0) & !m) & 0xF0 == (f & !m) & 0xF0 && (((f & !m) & 0xF0) & !m) & 0xF0 == (f & !m)
        & 0xF0) by (bit_vector)
        requires
            m == 0x80 || m == 0x40 || m == 0x20 || m == 0x10,
    ;
}

/// Writes to two different flags can be made in either order.
pub proof fn lemma_set_flags_commute(s: CpuState, a: Flag, v: bool, b: Flag, w: bool)
    requires
        a != b,
    ensures
        with_flag_set(with_flag_set(s, a, v), b, w) == with_flag_set(with_flag_set(s, b, w), a, v),
{
    let f = s.f;
    let m = flag_mask(a);
    let o = flag_mask(b);
    assert(m != o);
    assert((((f | m) & 0xF0) | o) & 0xF0 == (((f | o) & 0xF0) | m) & 0xF0 && (((f | m) & 0xF0) & !o) & 0xF0 == ((
    (f & !o) & 0xF0) | m) & 0xF0 && (((f & !m) & 0xF0) | o) & 0xF0 == (((f | o) & 0xF0) & !m) & 0xF0 && (((f
        & !m) & 0xF0) & !o) & 0xF0 == (((f & !o) & 0xF0) & !m) & 0xF0) by (bit_vector)
        requires
            m == 0x80 || m == 0x40 || m == 0x20 || m == 0x10,
            o == 0x80 || o == 0x40 || o == 0x20 || o == 0x10,
            m != o,
    ;
}

/// Writing a flag's own value back changes nothing (F's low nibble being
/// clear, as it is in every CPU).
pub proof fn lemma_set_flag_own_value(s: CpuState, flag: Flag)
    requires
        s.f & 0x0F == 0,
    ensures
        with_flag_set(s, flag, flag_of(s.f, flag)) == s,
{
    let f = s.f;
    let m = flag_mask(flag);
    assert((f & m != 0 ==> (f | m) & 0xF0 == f) && (f & m == 0 ==> (f & !m) & 0xF0 == f)) by (bit_vector)
        requires
            m == 0x80 || m == 0x40 || m == 0x20 || m == 0x10,
            f & 0x0F == 0,
    ;
}

/// Where each flag sits in F: Z is bit 7, N bit 6, H bit 5 and C bit 4.
pub proof fn lemma_flag_bits(f: u8)
    ensures
        flag_of(f, Flag::Zero) == ((f / 128) % 2 == 1),
        flag_of(f, Flag::Subtract) == ((f / 64) % 2 == 1),
        flag_of(f, Flag::HalfCarry) == ((f / 32) % 2 == 1),
        flag_of(f, Flag::Carry) == ((f / 16) % 2 == 1),
{
    assert((f & 0x80 != 0) == ((f / 128) % 2 == 1)) by (bit_vector);
    assert((f & 0x40 != 0) == ((f / 64) % 2 == 1)) by (bit_vector);
    assert((f & 0x20 != 0) == ((f / 32) % 2 == 1)) by (bit_vector);
    assert((f & 0x10 != 0) == ((f / 16) % 2 == 1)) by (bit_vector);
}

} // verus!
