use vstd::prelude::*;

use super::{Cpu, CpuModel};
use crate::memory::MemoryBus;

verus! {

/// Full register state plus IME. Memory is not included; RAM contents belong
/// to the `MemoryBus`.
#[derive(Debug, Clone, Copy, PartialEq, Eq, Structural)]
pub struct CpuState {
    pub pc: u16,
    pub sp: u16,
    pub a: u8,
    pub f: u8,
    pub b: u8,
    pub c: u8,
    pub d: u8,
    pub e: u8,
    pub h: u8,
    pub l: u8,
    pub ime: bool,
}

impl Default for CpuState {
    /// All registers zero and IME off.
    fn default() -> (r: Self)
        ensures
            r == (CpuState { pc: 0, sp: 0, a: 0, f: 0, b: 0, c: 0, d: 0, e: 0, h: 0, l: 0, ime: false }),
    {
        CpuState { pc: 0, sp: 0, a: 0, f: 0, b: 0, c: 0, d: 0, e: 0, h: 0, l: 0, ime: false }
    }
}

impl<'a, M: MemoryBus> From<&'a Cpu<M>> for CpuState {
    fn from(cpu: &'a Cpu<M>) -> (r: Self) {
        Self {
            pc: cpu.pc,
            sp: cpu.sp,
            a: cpu.a,
            f: super::flags::pack_flags(cpu.flag_z, cpu.flag_n, cpu.flag_h, cpu.flag_c),
            b: cpu.b,
            c: cpu.c,
            d: cpu.d,
            e: cpu.e,
            h: cpu.h,
            l: cpu.l,
            ime: cpu.ime,
        }
    }
}

impl<'a, M: MemoryBus> vstd::std_specs::convert::FromSpecImpl<&'a Cpu<M>> for CpuState {
    open spec fn obeys_from_spec() -> bool {
        true
    }

    open spec fn from_spec(v: &'a Cpu<M>) -> Self {
        v@.regs
    }
}

impl<M: MemoryBus> Cpu<M> {
    /// Constructs a running `Cpu` at an arbitrary register state. F's low
    /// nibble is masked, matching `set_register8`.
    pub fn with_state(state: CpuState, memory: Box<M>) -> (r: Self)
        ensures
            r@ == (CpuModel {
                regs: CpuState { f: state.f & 0xF0, ..state },
                halted: false,
                pending_ime: false,
                mem: (*memory)@,
            }),
    {
        proof {
            super::flags::lemma_unpack_flags(state.f);
        }
        Self {
            memory,
            pc: state.pc,
            sp: state.sp,
            a: state.a,
            flag_z: state.f & 0x80 != 0,
            flag_n: state.f & 0x40 != 0,
            flag_h: state.f & 0x20 != 0,
            flag_c: state.f & 0x10 != 0,
            b: state.b,
            c: state.c,
            d: state.d,
            e: state.e,
            h: state.h,
            l: state.l,
            ime: state.ime,
            halted: false,
            pending_ime: false,
        }
    }

    /// The registers and IME.
    pub fn state(&self) -> (r: CpuState)
        ensures
            r == self@.regs,
            r.f & 0x0F == 0,
    {
        proof {
            super::lemma_f_low_nibble(self);
        }
        CpuState::from(self)
    }
}

} // verus!
