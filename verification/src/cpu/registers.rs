use vstd::prelude::*;

use super::{Cpu, CpuModel};
use super::state::CpuState;
use crate::memory::MemoryBus;

verus! {

/// The 8-bit registers. `F` holds the flags; its low nibble always reads 0.
#[derive(Clone, Copy, Debug, PartialEq, Eq, Structural)]
pub enum Register8 {
    A,
    F,
    B,
    C,
    D,
    E,
    H,
    L,
}

/// The 16-bit registers: the pairs BC, DE, HL (high byte first) and SP.
#[derive(Clone, Copy, Debug, PartialEq, Eq, Structural)]
pub enum Register16 {
    BC,
    DE,
    HL,
    SP,
}

/// The register that a 3-bit operand field names in the SM83 encoding
/// (B, C, D, E, H, L, (HL), A). Index 6 stands for the memory operand `(HL)`,
/// which is no register.
pub open spec fn spec_r8_from_bits(bits: u8) -> Option<Register8> {
    let i = bits % 8;
    if i == 0 {
        Some(Register8::B)
    } else if i == 1 {
        Some(Register8::C)
    } else if i == 2 {
        Some(Register8::D)
    } else if i == 3 {
        Some(Register8::E)
    } else if i == 4 {
        Some(Register8::H)
    } else if i == 5 {
        Some(Register8::L)
    } else if i == 6 {
        None
    } else {
        Some(Register8::A)
    }
}

impl Register8 {
    /// Decodes the operand field held in the low three bits of `bits`.
    pub fn from_bits(bits: u8) -> (r: Option<Register8>)
        ensures
            r == spec_r8_from_bits(bits),
    {
        let i = bits & 0b111;
        assert(bits & 0b111 == bits % 8) by (bit_vector);
        match i {
            0 => Some(Register8::B),
            1 => Some(Register8::C),
            2 => Some(Register8::D),
            3 => Some(Register8::E),
            4 => Some(Register8::H),
            5 => Some(Register8::L),
            6 => None,
            _ => Some(Register8::A),
        }
    }
}

/// The value of an 8-bit register in state `s`.
pub open spec fn reg8_of(s: CpuState, r: Register8) -> u8 {
    match r {
        Register8::A => s.a,
        Register8::F => s.f,
        Register8::B => s.b,
        Register8::C => s.c,
        Register8::D => s.d,
        Register8::E => s.e,
        Register8::H => s.h,
        Register8::L => s.l,
    }
}

/// `s` with an 8-bit register set to `v`; F keeps only the high nibble of `v`.
pub open spec fn with_reg8(s: CpuState, r: Register8, v: u8) -> CpuState {
    match r {
        Register8::A => CpuState { a: v, ..s },
        Register8::F => CpuState { f: v & 0xF0, ..s },
        Register8::B => CpuState { b: v, ..s },
        Register8::C => CpuState { c: v, ..s },
        Register8::D => CpuState { d: v, ..s },
        Register8::E => CpuState { e: v, ..s },
        Register8::H => CpuState { h: v, ..s },
        Register8::L => CpuState { l: v, ..s },
    }
}

/// The 16-bit value with high byte `hi` and low byte `lo`.
pub open spec fn pair(hi: u8, lo: u8) -> u16 {
    (hi as int * 256 + lo as int) as u16
}

/// The value of a 16-bit register in state `s`.
pub open spec fn reg16_of(s: CpuState, r: Register16) -> u16 {
    match r {
        Register16::BC => pair(s.b, s.c),
        Register16::DE => pair(s.d, s.e),
        Register16::HL => pair(s.h, s.l),
        Register16::SP => s.sp,
    }
}

/// `s` with a 16-bit register set to `v`: a pair takes the high byte of `v`
/// in its first register and the low byte in its second.
pub open spec fn with_reg16(s: CpuState, r: Register16, v: u16) -> CpuState {
    let hi = (v / 256) as u8;
    let lo = (v % 256) as u8;
    match r {
        Register16::BC => CpuState { b: hi, c: lo, ..s },
        Register16::DE => CpuState { d: hi, e: lo, ..s },
        Register16::HL => CpuState { h: hi, l: lo, ..s },
        Register16::SP => CpuState { sp: v, ..s },
    }
}

/// `x + n` modulo 256.
pub open spec fn add8(x: u8, n: u8) -> u8 {
    ((x as int + n as int) % 256) as u8
}

/// `x - n` modulo 256.
pub open spec fn sub8(x: u8, n: u8) -> u8 {
    ((x as int - n as int + 256) % 256) as u8
}

/// `x + n` modulo 65536.
pub open spec fn add16(x: u16, n: u16) -> u16 {
    ((x as int + n as int) % 65536) as u16
}

/// `x - n` modulo 65536.
pub open spec fn sub16(x: u16, n: u16) -> u16 {
    ((x as int - n as int + 65536) % 65536) as u16
}

fn join_bytes(hi: u8, lo: u8) -> (r: u16)
    ensures
        r == pair(hi, lo),
{
    let r = ((hi as u16) << 8) | (lo as u16);
    assert(((hi as u16) << 8) | (lo as u16) == hi as u16 * 256 + lo as u16) by (bit_vector);
    r
}

fn high_byte(v: u16) -> (r: u8)
    ensures
        r == (v / 256) as u8,
{
    let r = (v >> 8) as u8;
    assert((v >> 8) == v / 256) by (bit_vector);
    r
}

fn low_byte(v: u16) -> (r: u8)
    ensures
        r == (v % 256) as u8,
{
    let r = (v & 0xFF) as u8;
    assert(v & 0xFF == v % 256) by (bit_vector);
    r
}

impl<M: MemoryBus> Cpu<M> {
    pub fn get_register8(&self, reg: Register8) -> (r: u8)
        ensures
            r == reg8_of(self@.regs, reg),
    {
        match reg {
            Register8::A => self.a,
            Register8::F => super::flags::pack_flags(self.flag_z, self.flag_n, self.flag_h, self.flag_c),
            Register8::B => self.b,
            Register8::C => self.c,
            Register8::D => self.d,
            Register8::E => self.e,
            Register8::H => self.h,
            Register8::L => self.l,
        }
    }

    /// Sets an 8-bit register; for F only the high nibble is kept.
    pub fn set_register8(&mut self, reg: Register8, value: u8)
        ensures
            final(self)@ == (CpuModel { regs: with_reg8(old(self)@.regs, reg, value), ..old(self)@ }),
    {
        match reg {
            Register8::A => self.a = value,
            Register8::F => {
                self.flag_z = value & 0x80 != 0;
                self.flag_n = value & 0x40 != 0;
                self.flag_h = value & 0x20 != 0;
                self.flag_c = value & 0x10 != 0;
                proof {
                    super::flags::lemma_unpack_flags(value);
                }
            },
            Register8::B => self.b = value,
            Register8::C => self.c = value,
            Register8::D => self.d = value,
            Register8::E => self.e = value,
            Register8::H => self.h = value,
            Register8::L => self.l = value,
        }
    }

    pub fn get_register16(&self, reg: Register16) -> (r: u16)
        ensures
            r == reg16_of(self@.regs, reg),
    {
        match reg {
            Register16::BC => join_bytes(self.b, self.c),
            Register16::DE => join_bytes(self.d, self.e),
            Register16::HL => join_bytes(self.h, self.l),
            Register16::SP => self.sp,
        }
    }

    pub fn set_register16(&mut self, reg: Register16, value: u16)
        ensures
            final(self)@ == (CpuModel { regs: with_reg16(old(self)@.regs, reg, value), ..old(self)@ }),
    {
        let hi = high_byte(value);
        let lo = low_byte(value);
        match reg {
            Register16::BC => {
                self.b = hi;
                self.c = lo;
            },
            Register16::DE => {
                self.d = hi;
                self.e = lo;
            },
            Register16::HL => {
                self.h = hi;
                self.l = lo;
            },
            Register16::SP => self.sp = value,
        }
    }

    /// Adds `n` to an 8-bit register, wrapping, and returns the sum (before F
    /// drops its low nibble).
    pub fn add_r8(&mut self, reg: Register8, n: u8) -> (r: u8)
        ensures
            r == add8(reg8_of(old(self)@.regs, reg), n),
            final(self)@ == (CpuModel { regs: with_reg8(old(self)@.regs, reg, r), ..old(self)@ }),
    {
        let r = self.get_register8(reg).wrapping_add(n);
        self.set_register8(reg, r);
        r
    }

    /// Subtracts `n` from an 8-bit register, wrapping, and returns the
    /// difference (before F drops its low nibble).
    pub fn sub_r8(&mut self, reg: Register8, n: u8) -> (r: u8)
        ensures
            r == sub8(reg8_of(old(self)@.regs, reg), n),
            final(self)@ == (CpuModel { regs: with_reg8(old(self)@.regs, reg, r), ..old(self)@ }),
    {
        let r = self.get_register8(reg).wrapping_sub(n);
        self.set_register8(reg, r);
        r
    }

    /// Adds `n` to a 16-bit register, wrapping.
    pub fn add_r16(&mut self, reg: Register16, n: u16) -> (r: u16)
        ensures
            r == add16(reg16_of(old(self)@.regs, reg), n),
            final(self)@ == (CpuModel { regs: with_reg16(old(self)@.regs, reg, r), ..old(self)@ }),
    {
        let r = self.get_register16(reg).wrapping_add(n);
        self.set_register16(reg, r);
        r
    }

    /// Subtracts `n` from a 16-bit register, wrapping.
    pub fn sub_r16(&mut self, reg: Register16, n: u16) -> (r: u16)
        ensures
            r == sub16(reg16_of(old(self)@.regs, reg), n),
            final(self)@ == (CpuModel { regs: with_reg16(old(self)@.regs, reg, r), ..old(self)@ }),
    {
        let r = self.get_register16(reg).wrapping_sub(n);
        self.set_register16(reg, r);
        r
    }
}

} // verus!

verus! {

/// Splitting a 16-bit value into its bytes and joining them gives it back.
pub proof fn lemma_pair_split(v: u16)
    ensures
        pair((v / 256) as u8, (v % 256) as u8) == v,
{
    assert(((v / 256) as u8) as int * 256 + ((v % 256) as u8) as int == v as int) by (nonlinear_arith);
}

/// Reading an 8-bit register gives back what was written to it (for F, the
/// high nibble of what was written).
pub proof fn lemma_reg8_get_set(s: CpuState, r: Register8, v: u8)
    ensures
        reg8_of(with_reg8(s, r, v), r) == if r == Register8::F { v & 0xF0 } else { v },
        forall|o: Register8| o != r ==> reg8_of(#[trigger] with_reg8(s, r, v), o) == reg8_of(s, o),
{
}

/// Reading a 16-bit register gives back what was written to it.
pub proof fn lemma_reg16_get_set(s: CpuState, r: Register16, v: u16)
    ensures
        reg16_of(with_reg16(s, r, v), r) == v,
{
    lemma_pair_split(v);
}

/// Each register name reads the state field of the same name, and each pair
/// is its first register as the high byte and its second as the low byte.
pub proof fn lemma_register_names(s: CpuState)
    ensures
        reg8_of(s, Register8::A) == s.a,
        reg8_of(s, Register8::F) == s.f,
        reg8_of(s, Register8::B) == s.b,
        reg8_of(s, Register8::C) == s.c,
        reg8_of(s, Register8::D) == s.d,
        reg8_of(s, Register8::E) == s.e,
        reg8_of(s, Register8::H) == s.h,
        reg8_of(s, Register8::L) == s.l,
        reg16_of(s, Register16::BC) == s.b as int * 256 + s.c as int,
        reg16_of(s, Register16::DE) == s.d as int * 256 + s.e as int,
        reg16_of(s, Register16::HL) == s.h as int * 256 + s.l as int,
        reg16_of(s, Register16::SP) == s.sp,
{
}

/// Writing a register changes the state field of the same name and nothing
/// else; writing a pair puts the high byte in its first register and the low
/// byte in its second.
pub proof fn lemma_register_writes(s: CpuState, v: u8, w: u16)
    ensures
        with_reg8(s, Register8::A, v) == (CpuState { a: v, ..s }),
        with_reg8(s, Register8::F, v) == (CpuState { f: ((v / 16) * 16) as u8, ..s }),
        with_reg8(s, Register8::B, v) == (CpuState { b: v, ..s }),
        with_reg8(s, Register8::C, v) == (CpuState { c: v, ..s }),
        with_reg8(s, Register8::D, v) == (CpuState { d: v, ..s }),
        with_reg8(s, Register8::E, v) == (CpuState { e: v, ..s }),
        with_reg8(s, Register8::H, v) == (CpuState { h: v, ..s }),
        with_reg8(s, Register8::L, v) == (CpuState { l: v, ..s }),
        with_reg16(s, Register16::BC, w).b as int * 256 + with_reg16(s, Register16::BC, w).c as int == w,
        with_reg16(s, Register16::DE, w).d as int * 256 + with_reg16(s, Register16::DE, w).e as int == w,
        with_reg16(s, Register16::HL, w).h as int * 256 + with_reg16(s, Register16::HL, w).l as int == w,
        with_reg16(s, Register16::SP, w) == (CpuState { sp: w, ..s }),
        with_reg16(s, Register16::BC, w) == (CpuState { b: with_reg16(s, Register16::BC, w).b, c: with_reg16(s, Register16::BC, w).c, ..s }),
        with_reg16(s, Register16::DE, w) == (CpuState { d: with_reg16(s, Register16::DE, w).d, e: with_reg16(s, Register16::DE, w).e, ..s }),
        with_reg16(s, Register16::HL, w) == (CpuState { h: with_reg16(s, Register16::HL, w).h, l: with_reg16(s, Register16::HL, w).l, ..s }),
{
    lemma_pair_split(w);
    assert(v & 0xF0 == (v / 16) * 16) by (bit_vector);
}

} // verus!
