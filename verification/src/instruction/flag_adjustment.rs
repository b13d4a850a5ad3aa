use vstd::prelude::*;

use crate::cpu::flags::{flag_of, lemma_get_set_flag, lemma_set_flag_keeps_others, with_flag, Flag};
use crate::cpu::state::CpuState;
use crate::cpu::{Cpu, CpuModel};
use crate::memory::MemoryBus;

verus! {

/// How an instruction changes the flags: `Some(v)` sets a flag to `v`,
/// `None` leaves it as it is.
#[derive(Clone, Copy, Debug, PartialEq, Eq, Structural)]
pub struct FlagAdjustment {
    pub zero: Option<bool>,
    pub subtract: Option<bool>,
    pub half_carry: Option<bool>,
    pub carry: Option<bool>,
}

/// The flag byte `f` after adjusting one flag (F keeps only its high nibble).
pub open spec fn adjust_flag(f: u8, flag: Flag, value: Option<bool>) -> u8 {
    match value {
        Some(v) => with_flag(f, flag, v) & 0xF0,
        None => f,
    }
}

/// The flag byte `f` after an adjustment: Z, then N, then H, then C.
pub open spec fn adjusted_flags(f: u8, adj: FlagAdjustment) -> u8 {
    adjust_flag(
        adjust_flag(adjust_flag(adjust_flag(f, Flag::Zero, adj.zero), Flag::Subtract, adj.subtract), Flag::HalfCarry, adj.half_carry),
        Flag::Carry,
        adj.carry,
    )
}

impl FlagAdjustment {
    /// Applies the adjustment to the CPU's flags; nothing else changes.
    pub fn apply<M: MemoryBus>(&self, cpu: &mut Cpu<M>)
        ensures
            final(cpu)@ == (CpuModel {
                regs: CpuState { f: adjusted_flags(old(cpu)@.regs.f, *self), ..old(cpu)@.regs },
                ..old(cpu)@
            }),
    {
        if let Some(value) = self.zero {
            cpu.set_flag(Flag::Zero, value);
        }
        if let Some(value) = self.subtract {
            cpu.set_flag(Flag::Subtract, value);
        }
        if let Some(value) = self.half_carry {
            cpu.set_flag(Flag::HalfCarry, value);
        }
        if let Some(value) = self.carry {
            cpu.set_flag(Flag::Carry, value);
        }
    }
}

/// What an adjustment says of one flag.
pub open spec fn adjustment_for(adj: FlagAdjustment, flag: Flag) -> Option<bool> {
    match flag {
        Flag::Zero => adj.zero,
        Flag::Subtract => adj.subtract,
        Flag::HalfCarry => adj.half_carry,
        Flag::Carry => adj.carry,
    }
}

proof fn lemma_adjust_flag(f: u8, flag: Flag, value: Option<bool>, other: Flag)
    ensures
        flag_of(adjust_flag(f, flag, value), other) == if flag == other && value is Some {
            value->0
        } else {
            flag_of(f, other)
        },
{
    if let Some(v) = value {
        if flag == other {
            lemma_get_set_flag(f, flag, v);
        } else {
            lemma_set_flag_keeps_others(f, flag, v, other);
        }
    }
}

/// An adjustment sets each flag it names to the value it gives and keeps
/// every other flag.
pub proof fn lemma_adjusted_flags(f: u8, adj: FlagAdjustment, flag: Flag)
    ensures
        flag_of(adjusted_flags(f, adj), flag) == match adjustment_for(adj, flag) {
            Some(v) => v,
            None => flag_of(f, flag),
        },
{
    let f1 = adjust_flag(f, Flag::Zero, adj.zero);
    let f2 = adjust_flag(f1, Flag::Subtract, adj.subtract);
    let f3 = adjust_flag(f2, Flag::HalfCarry, adj.half_carry);
    lemma_adjust_flag(f, Flag::Zero, adj.zero, flag);
    lemma_adjust_flag(f1, Flag::Subtract, adj.subtract, flag);
    lemma_adjust_flag(f2, Flag::HalfCarry, adj.half_carry, flag);
    lemma_adjust_flag(f3, Flag::Carry, adj.carry, flag);
}

} // verus!
