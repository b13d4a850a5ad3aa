use vstd::prelude::*;

use super::flag_adjustment::{adjusted_flags, lemma_adjusted_flags, FlagAdjustment};
use super::Instruction;
use crate::cpu::registers::{
    add16, add8, lemma_reg16_get_set, lemma_reg8_get_set, reg16_of, reg8_of, sub16, sub8, with_reg16, with_reg8, Register16, Register8,
};
use crate::cpu::flags::{flag_of, lemma_set_flag_keeps_others, with_flag, Flag};
use crate::cpu::state::CpuState;
use crate::cpu::{with_pc, Cpu, CpuModel};
use crate::memory::MemoryBus;

verus! {

#[derive(Clone, Copy, Debug, PartialEq, Eq)]
pub enum InstructionExecuteError {
    NotImplemented,
    InvalidRegister,
    MemoryError,
    UnexpectedOperand { expected: &'static str, received: &'static str },
}

/// `m` with its register file replaced by `regs`.
pub open spec fn with_regs<V>(m: CpuModel<V>, regs: CpuState) -> CpuModel<V> {
    CpuModel { regs, ..m }
}

/// `regs` with the flag byte adjusted by `adj`.
pub open spec fn with_adjusted_flags(regs: CpuState, adj: FlagAdjustment) -> CpuState {
    CpuState { f: adjusted_flags(regs.f, adj), ..regs }
}

/// INC r8: the register plus one, wrapping; Z if the sum is zero, N clear,
/// H if the low nibble carried; C unchanged.
pub open spec fn inc_r8_regs(regs: CpuState, reg: Register8) -> CpuState {
    let before = reg8_of(regs, reg);
    let result = add8(before, 1);
    with_adjusted_flags(
        with_reg8(regs, reg, result),
        FlagAdjustment {
            zero: Some(result == 0),
            subtract: Some(false),
            half_carry: Some(before & 0x0F == 0x0F),
            carry: None,
        },
    )
}

/// DEC r8: the register minus one, wrapping; Z if the register is then zero,
/// N set, H if the low nibble borrowed; C unchanged.
pub open spec fn dec_r8_regs(regs: CpuState, reg: Register8) -> CpuState {
    let before = reg8_of(regs, reg);
    let written = with_reg8(regs, reg, sub8(before, 1));
    with_adjusted_flags(
        written,
        FlagAdjustment {
            zero: Some(reg8_of(written, reg) == 0),
            subtract: Some(true),
            half_carry: Some(before & 0x0F == 0x00),
            carry: None,
        },
    )
}

/// INC r16: the register pair plus one, wrapping; no flags change.
pub open spec fn inc_r16_regs(regs: CpuState, reg: Register16) -> CpuState {
    with_reg16(regs, reg, add16(reg16_of(regs, reg), 1))
}

/// DEC r16: the register pair minus one, wrapping; no flags change.
pub open spec fn dec_r16_regs(regs: CpuState, reg: Register16) -> CpuState {
    with_reg16(regs, reg, sub16(reg16_of(regs, reg), 1))
}

/// What executing `instr` does to a CPU in state `m`.
pub open spec fn execute_spec<M: MemoryBus>(instr: Instruction, m: CpuModel<M::V>) -> CpuModel<M::V> {
    let regs = m.regs;
    match instr {
        Instruction::Nop => m,
        Instruction::JpImm16(addr) => with_pc(m, addr),
        Instruction::LdR8 { reg, value } => with_regs(m, with_reg8(regs, reg, value)),
        Instruction::LdR8R8 { dst, src } => with_regs(m, with_reg8(regs, dst, reg8_of(regs, src))),
        Instruction::LdR16 { reg, value } => with_regs(m, with_reg16(regs, reg, value)),
        Instruction::IncR8(reg) => with_regs(m, inc_r8_regs(regs, reg)),
        Instruction::DecR8(reg) => with_regs(m, dec_r8_regs(regs, reg)),
        Instruction::IncR16(reg) => with_regs(m, inc_r16_regs(regs, reg)),
        Instruction::DecR16(reg) => with_regs(m, dec_r16_regs(regs, reg)),
        Instruction::LdMemHLR8(reg) => CpuModel {
            mem: M::spec_write(m.mem, reg16_of(regs, Register16::HL), reg8_of(regs, reg)),
            ..m
        },
        Instruction::LdR8FromMemHL(reg) => with_regs(
            m,
            with_reg8(regs, reg, M::spec_read(m.mem, reg16_of(regs, Register16::HL))),
        ),
        Instruction::LdAFromAddr(addr) => with_regs(m, with_reg8(regs, Register8::A, M::spec_read(m.mem, addr))),
        Instruction::LdAddrA(addr) => CpuModel { mem: M::spec_write(m.mem, addr, regs.a), ..m },
        Instruction::Di => with_regs(m, CpuState { ime: false, ..regs }),
        Instruction::Ei => CpuModel { pending_ime: true, ..m },
        Instruction::Halt => CpuModel { halted: true, ..m },
    }
}

impl Instruction {
    /// Carries out the instruction on the CPU. Every instruction succeeds.
    pub fn execute<M: MemoryBus>(&self, cpu: &mut Cpu<M>) -> (r: Result<(), InstructionExecuteError>)
        ensures
            r is Ok,
            final(cpu)@ == execute_spec::<M>(*self, old(cpu)@),
    {
        match self {
            Instruction::Nop => Ok(()),
            Instruction::JpImm16(addr) => self.jp_imm16(cpu, *addr),
            Instruction::LdR8 { reg, value } => self.ld_r8(cpu, *reg, *value),
            Instruction::LdR8R8 { dst, src } => self.ld_r8_r8(cpu, *dst, *src),
            Instruction::LdR16 { reg, value } => self.ld_r16(cpu, *reg, *value),
            Instruction::IncR8(reg) => self.inc_r8(cpu, *reg),
            Instruction::DecR8(reg) => self.dec_r8(cpu, *reg),
            Instruction::IncR16(reg) => self.inc_r16(cpu, *reg),
            Instruction::DecR16(reg) => self.dec_r16(cpu, *reg),
            Instruction::LdMemHLR8(reg) => self.ld_mem_hlr8(cpu, *reg),
            Instruction::LdR8FromMemHL(reg) => self.ld_r8_from_mem_hl(cpu, *reg),
            Instruction::LdAFromAddr(addr) => self.ld_a_from_addr(cpu, *addr),
            Instruction::LdAddrA(addr) => self.ld_addr_a(cpu, *addr),
            Instruction::Di => self.di(cpu),
            Instruction::Ei => self.ei(cpu),
            Instruction::Halt => self.halt(cpu),
        }
    }

    fn jp_imm16<M: MemoryBus>(&self, cpu: &mut Cpu<M>, addr: u16) -> (r: Result<(), InstructionExecuteError>)
        ensures
            r is Ok,
            final(cpu)@ == with_pc(old(cpu)@, addr),
    {
        cpu.set_pc(addr);
        Ok(())
    }

    fn ld_r8<M: MemoryBus>(&self, cpu: &mut Cpu<M>, r8: Register8, imm8: u8) -> (r: Result<(), InstructionExecuteError>)
        ensures
            r is Ok,
            final(cpu)@ == with_regs(old(cpu)@, with_reg8(old(cpu)@.regs, r8, imm8)),
    {
        cpu.set_register8(r8, imm8);
        Ok(())
    }

    fn ld_r8_r8<M: MemoryBus>(&self, cpu: &mut Cpu<M>, dst: Register8, src: Register8) -> (r: Result<
        (),
        InstructionExecuteError,
    >)
        ensures
            r is Ok,
            final(cpu)@ == with_regs(old(cpu)@, with_reg8(old(cpu)@.regs, dst, reg8_of(old(cpu)@.regs, src))),
    {
        let value = cpu.get_register8(src);
        cpu.set_register8(dst, value);
        Ok(())
    }

    fn ld_mem_hlr8<M: MemoryBus>(&self, cpu: &mut Cpu<M>, reg: Register8) -> (r: Result<(), InstructionExecuteError>)
        ensures
            r is Ok,
            final(cpu)@ == (CpuModel {
                mem: M::spec_write(old(cpu)@.mem, reg16_of(old(cpu)@.regs, Register16::HL), reg8_of(old(cpu)@.regs, reg)),
                ..old(cpu)@
            }),
    {
        let addr = cpu.get_register16(Register16::HL);
        let value = cpu.get_register8(reg);
        cpu.write(addr, value);
        Ok(())
    }

    fn ld_r8_from_mem_hl<M: MemoryBus>(&self, cpu: &mut Cpu<M>, reg: Register8) -> (r: Result<
        (),
        InstructionExecuteError,
    >)
        ensures
            r is Ok,
            final(cpu)@ == with_regs(
                old(cpu)@,
                with_reg8(old(cpu)@.regs, reg, M::spec_read(old(cpu)@.mem, reg16_of(old(cpu)@.regs, Register16::HL))),
            ),
    {
        let addr = cpu.get_register16(Register16::HL);
        let value = cpu.read(addr);
        cpu.set_register8(reg, value);
        Ok(())
    }

    fn ld_a_from_addr<M: MemoryBus>(&self, cpu: &mut Cpu<M>, addr: u16) -> (r: Result<(), InstructionExecuteError>)
        ensures
            r is Ok,
            final(cpu)@ == with_regs(old(cpu)@, with_reg8(old(cpu)@.regs, Register8::A, M::spec_read(old(cpu)@.mem, addr))),
    {
        let value = cpu.read(addr);
        cpu.set_register8(Register8::A, value);
        Ok(())
    }

    fn ld_addr_a<M: MemoryBus>(&self, cpu: &mut Cpu<M>, addr: u16) -> (r: Result<(), InstructionExecuteError>)
        ensures
            r is Ok,
            final(cpu)@ == (CpuModel { mem: M::spec_write(old(cpu)@.mem, addr, old(cpu)@.regs.a), ..old(cpu)@ }),
    {
        let value = cpu.get_register8(Register8::A);
        cpu.write(addr, value);
        Ok(())
    }

    fn inc_r8<M: MemoryBus>(&self, cpu: &mut Cpu<M>, reg: Register8) -> (r: Result<(), InstructionExecuteError>)
        ensures
            r is Ok,
            final(cpu)@ == with_regs(old(cpu)@, inc_r8_regs(old(cpu)@.regs, reg)),
    {
        let before = cpu.get_register8(reg);
        let result = cpu.add_r8(reg, 1);

        let flag_adjustment = FlagAdjustment {
            zero: Some(result == 0),
            subtract: Some(false),
            half_carry: Some(before & 0b1111 == 0b1111),
            carry: None,
        };

        flag_adjustment.apply(cpu);

        Ok(())
    }

    fn dec_r8<M: MemoryBus>(&self, cpu: &mut Cpu<M>, reg: Register8) -> (r: Result<(), InstructionExecuteError>)
        ensures
            r is Ok,
            final(cpu)@ == with_regs(old(cpu)@, dec_r8_regs(old(cpu)@.regs, reg)),
    {
        let before = cpu.get_register8(reg);
        cpu.sub_r8(reg, 1);
        let result = cpu.get_register8(reg);

        FlagAdjustment {
            zero: Some(result == 0),
            subtract: Some(true),
            half_carry: Some(before & 0b1111 == 0b0000),
            carry: None,
        }.apply(cpu);

        Ok(())
    }

    fn inc_r16<M: MemoryBus>(&self, cpu: &mut Cpu<M>, reg: Register16) -> (r: Result<(), InstructionExecuteError>)
        ensures
            r is Ok,
            final(cpu)@ == with_regs(old(cpu)@, inc_r16_regs(old(cpu)@.regs, reg)),
    {
        cpu.add_r16(reg, 1);
        Ok(())
    }

    fn dec_r16<M: MemoryBus>(&self, cpu: &mut Cpu<M>, reg: Register16) -> (r: Result<(), InstructionExecuteError>)
        ensures
            r is Ok,
            final(cpu)@ == with_regs(old(cpu)@, dec_r16_regs(old(cpu)@.regs, reg)),
    {
        cpu.sub_r16(reg, 1);
        Ok(())
    }

    fn ld_r16<M: MemoryBus>(&self, cpu: &mut Cpu<M>, reg: Register16, value: u16) -> (r: Result<
        (),
        InstructionExecuteError,
    >)
        ensures
            r is Ok,
            final(cpu)@ == with_regs(old(cpu)@, with_reg16(old(cpu)@.regs, reg, value)),
    {
        cpu.set_register16(reg, value);
        Ok(())
    }

    /// DI: interrupts are disabled at once.
    fn di<M: MemoryBus>(&self, cpu: &mut Cpu<M>) -> (r: Result<(), InstructionExecuteError>)
        ensures
            r is Ok,
            final(cpu)@ == with_regs(old(cpu)@, CpuState { ime: false, ..old(cpu)@.regs }),
    {
        cpu.set_ime(false);
        Ok(())
    }

    /// EI: interrupts are enabled once the following instruction has run.
    fn ei<M: MemoryBus>(&self, cpu: &mut Cpu<M>) -> (r: Result<(), InstructionExecuteError>)
        ensures
            r is Ok,
            final(cpu)@ == (CpuModel { pending_ime: true, ..old(cpu)@ }),
    {
        cpu.enable_ime_after_next();
        Ok(())
    }

    /// HALT: the CPU stops executing instructions.
    fn halt<M: MemoryBus>(&self, cpu: &mut Cpu<M>) -> (r: Result<(), InstructionExecuteError>)
        ensures
            r is Ok,
            final(cpu)@ == (CpuModel { halted: true, ..old(cpu)@ }),
    {
        cpu.halt();
        Ok(())
    }
}

} // verus!

verus! {

/// DEC r8 undoes INC r8 on the register's value (F, whose low nibble is
/// dropped on every write, is left out).
pub proof fn lemma_dec_undoes_inc_r8(regs: CpuState, reg: Register8)
    requires
        reg != Register8::F,
    ensures
        reg8_of(dec_r8_regs(inc_r8_regs(regs, reg), reg), reg) == reg8_of(regs, reg),
        reg8_of(inc_r8_regs(dec_r8_regs(regs, reg), reg), reg) == reg8_of(regs, reg),
{
    let v = reg8_of(regs, reg);
    let inc = inc_r8_regs(regs, reg);
    let dec = dec_r8_regs(regs, reg);
    lemma_reg8_get_set(regs, reg, add8(v, 1));
    lemma_reg8_get_set(regs, reg, sub8(v, 1));
    assert(reg8_of(inc, reg) == add8(v, 1));
    assert(reg8_of(dec, reg) == sub8(v, 1));
    lemma_reg8_get_set(inc, reg, sub8(add8(v, 1), 1));
    lemma_reg8_get_set(dec, reg, add8(sub8(v, 1), 1));
    assert(sub8(add8(v, 1), 1) == v);
    assert(add8(sub8(v, 1), 1) == v);
}

/// `regs` with `reg` one higher, wrapping, and nothing else changed.
pub open spec fn inc_value(regs: CpuState, reg: Register8) -> CpuState {
    with_reg8(regs, reg, add8(reg8_of(regs, reg), 1))
}

/// `regs` with `reg` one lower, wrapping, and nothing else changed.
pub open spec fn dec_value(regs: CpuState, reg: Register8) -> CpuState {
    with_reg8(regs, reg, sub8(reg8_of(regs, reg), 1))
}

/// INC r8 and DEC r8 change only their register and the flags, and never
/// the carry flag.
pub proof fn lemma_inc_dec_r8_frame(regs: CpuState, reg: Register8)
    requires
        reg != Register8::F,
    ensures
        flag_of(inc_r8_regs(regs, reg).f, Flag::Carry) == flag_of(regs.f, Flag::Carry),
        flag_of(dec_r8_regs(regs, reg).f, Flag::Carry) == flag_of(regs.f, Flag::Carry),
        inc_r8_regs(regs, reg) == (CpuState { f: inc_r8_regs(regs, reg).f, ..inc_value(regs, reg) }),
        dec_r8_regs(regs, reg) == (CpuState { f: dec_r8_regs(regs, reg).f, ..dec_value(regs, reg) }),
{
    let f = regs.f;
    let before = reg8_of(regs, reg);
    lemma_set_flag_keeps_others(f, Flag::Zero, add8(before, 1) == 0, Flag::Carry);
    let f1 = with_flag(f, Flag::Zero, add8(before, 1) == 0) & 0xF0;
    lemma_set_flag_keeps_others(f1, Flag::Subtract, false, Flag::Carry);
    let f2 = with_flag(f1, Flag::Subtract, false) & 0xF0;
    lemma_set_flag_keeps_others(f2, Flag::HalfCarry, before & 0x0F == 0x0F, Flag::Carry);

    let written = with_reg8(regs, reg, sub8(before, 1));
    lemma_set_flag_keeps_others(f, Flag::Zero, reg8_of(written, reg) == 0, Flag::Carry);
    let g1 = with_flag(f, Flag::Zero, reg8_of(written, reg) == 0) & 0xF0;
    lemma_set_flag_keeps_others(g1, Flag::Subtract, true, Flag::Carry);
    let g2 = with_flag(g1, Flag::Subtract, true) & 0xF0;
    lemma_set_flag_keeps_others(g2, Flag::HalfCarry, before & 0x0F == 0x00, Flag::Carry);
}

/// DEC r16 undoes INC r16.
pub proof fn lemma_dec_undoes_inc_r16(regs: CpuState, reg: Register16)
    ensures
        reg16_of(dec_r16_regs(inc_r16_regs(regs, reg), reg), reg) == reg16_of(regs, reg),
        reg16_of(inc_r16_regs(dec_r16_regs(regs, reg), reg), reg) == reg16_of(regs, reg),
{
    let v = reg16_of(regs, reg);
    let up = add16(v, 1);
    let down = sub16(v, 1);
    assert(sub16(up, 1) == v && add16(down, 1) == v);
    lemma_reg16_get_set(regs, reg, up);
    lemma_reg16_get_set(inc_r16_regs(regs, reg), reg, sub16(up, 1));
    lemma_reg16_get_set(regs, reg, down);
    lemma_reg16_get_set(dec_r16_regs(regs, reg), reg, add16(down, 1));
}

/// A CPU in state `m` after `INC r8` and then `DEC r8` on the same register.
pub open spec fn inc_then_dec_r8<M: MemoryBus>(m: CpuModel<M::V>, reg: Register8) -> CpuModel<M::V> {
    execute_spec::<M>(Instruction::DecR8(reg), execute_spec::<M>(Instruction::IncR8(reg), m))
}

/// `INC r8` followed by `DEC r8` gives the register its value back, keeps the
/// carry flag, leaves N set and Z telling whether the value is zero, and
/// changes nothing else but F (F itself is left out).
pub proof fn lemma_inc_then_dec_r8<M: MemoryBus>(m: CpuModel<M::V>, reg: Register8)
    requires
        reg != Register8::F,
    ensures
        reg8_of(inc_then_dec_r8::<M>(m, reg).regs, reg) == reg8_of(m.regs, reg),
        flag_of(inc_then_dec_r8::<M>(m, reg).regs.f, Flag::Carry) == flag_of(m.regs.f, Flag::Carry),
        flag_of(inc_then_dec_r8::<M>(m, reg).regs.f, Flag::Subtract),
        flag_of(inc_then_dec_r8::<M>(m, reg).regs.f, Flag::Zero) == (reg8_of(m.regs, reg) == 0),
        inc_then_dec_r8::<M>(m, reg) == with_regs(m, CpuState { f: inc_then_dec_r8::<M>(m, reg).regs.f, ..m.regs }),
{
    let regs = m.regs;
    let v = reg8_of(regs, reg);
    let inc = inc_r8_regs(regs, reg);
    let dec = dec_r8_regs(inc, reg);
    lemma_dec_undoes_inc_r8(regs, reg);
    lemma_inc_dec_r8_frame(regs, reg);
    lemma_inc_dec_r8_frame(inc, reg);
    let written = with_reg8(inc, reg, sub8(reg8_of(inc, reg), 1));
    lemma_reg8_get_set(regs, reg, add8(v, 1));
    lemma_reg8_get_set(inc, reg, sub8(add8(v, 1), 1));
    assert(sub8(add8(v, 1), 1) == v);
    assert(reg8_of(written, reg) == v);
    let adj = FlagAdjustment {
        zero: Some(reg8_of(written, reg) == 0),
        subtract: Some(true),
        half_carry: Some(reg8_of(inc, reg) & 0x0F == 0x00),
        carry: None,
    };
    assert(dec.f == adjusted_flags(written.f, adj));
    lemma_adjusted_flags(written.f, adj, Flag::Subtract);
    lemma_adjusted_flags(written.f, adj, Flag::Zero);
    assert(dec == CpuState { f: dec.f, ..regs });
}

} // verus!
