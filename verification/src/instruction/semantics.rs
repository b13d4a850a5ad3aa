//! What each instruction does to the machine, stated over plain register
//! fields, memory addresses and byte arithmetic.

use vstd::prelude::*;

use super::execute::{dec_r8_regs, inc_r8_regs};
use super::flag_adjustment::{lemma_adjusted_flags, FlagAdjustment};
use crate::cpu::flags::{flag_of, Flag};
use crate::cpu::registers::{
    add16, add8, lemma_register_names, lemma_register_writes, reg16_of, reg8_of, spec_r8_from_bits, sub16, sub8,
    with_reg8, Register16,
};
use crate::cpu::state::CpuState;
use crate::cpu::{step_spec, CpuModel};
use crate::memory::MemoryBus;

verus! {

/// The byte `k` places after PC (wrapping at the end of the address space).
pub open spec fn byte_after_pc<M: MemoryBus>(m: CpuModel<M::V>, k: int) -> u8 {
    M::spec_read(m.mem, ((m.regs.pc as int + k) % 65536) as u16)
}

/// The little-endian 16-bit immediate that follows the opcode.
pub open spec fn imm16_after_pc<M: MemoryBus>(m: CpuModel<M::V>) -> u16 {
    (byte_after_pc::<M>(m, 2) as int * 256 + byte_after_pc::<M>(m, 1) as int) as u16
}

/// PC moved on by `k`, wrapping.
pub open spec fn pc_plus<V>(m: CpuModel<V>, k: int) -> u16 {
    ((m.regs.pc as int + k) % 65536) as u16
}

/// The address held in HL: H is its high byte and L its low byte.
pub open spec fn hl_address(s: CpuState) -> u16 {
    (s.h as int * 256 + s.l as int) as u16
}

/// The state a step reaches from `m`.
pub open spec fn next<M: MemoryBus>(m: CpuModel<M::V>) -> CpuModel<M::V> {
    step_spec::<M>(m).1
}

/// Not halted and no `EI` pending: the step runs the instruction at PC.
pub open spec fn running<V>(m: CpuModel<V>) -> bool {
    !m.halted && !m.pending_ime
}

/// LD rr,d16 (0x01, 0x11, 0x21, 0x31) loads BC, DE, HL or SP with the
/// little-endian word after the opcode (high byte into B, D or H) and moves
/// PC three bytes on.
pub proof fn lemma_ld_rr_d16<M: MemoryBus>(m: CpuModel<M::V>)
    requires
        running(m),
    ensures
        byte_after_pc::<M>(m, 0) == 0x01 ==> step_spec::<M>(m).0 is Ok && next::<M>(m) == (CpuModel {
            regs: CpuState { pc: pc_plus(m, 3), b: byte_after_pc::<M>(m, 2), c: byte_after_pc::<M>(m, 1), ..m.regs },
            ..m
        }),
        byte_after_pc::<M>(m, 0) == 0x11 ==> step_spec::<M>(m).0 is Ok && next::<M>(m) == (CpuModel {
            regs: CpuState { pc: pc_plus(m, 3), d: byte_after_pc::<M>(m, 2), e: byte_after_pc::<M>(m, 1), ..m.regs },
            ..m
        }),
        byte_after_pc::<M>(m, 0) == 0x21 ==> step_spec::<M>(m).0 is Ok && next::<M>(m) == (CpuModel {
            regs: CpuState { pc: pc_plus(m, 3), h: byte_after_pc::<M>(m, 2), l: byte_after_pc::<M>(m, 1), ..m.regs },
            ..m
        }),
        byte_after_pc::<M>(m, 0) == 0x31 ==> step_spec::<M>(m).0 is Ok && next::<M>(m) == (CpuModel {
            regs: CpuState { pc: pc_plus(m, 3), sp: imm16_after_pc::<M>(m), ..m.regs },
            ..m
        }),
{
}

/// LD (HL),r (0x70..=0x77 but 0x76) stores register r at the address held
/// in HL and moves PC one byte on; no register changes.
pub proof fn lemma_ld_mem_hl_r<M: MemoryBus>(m: CpuModel<M::V>)
    requires
        running(m),
    ensures
        byte_after_pc::<M>(m, 0) == 0x70 ==> step_spec::<M>(m).0 is Ok && next::<M>(m) == (CpuModel { regs: CpuState { pc: pc_plus(m, 1), ..m.regs }, mem: M::spec_write(m.mem, hl_address(m.regs), m.regs.b), ..m }),
        byte_after_pc::<M>(m, 0) == 0x71 ==> step_spec::<M>(m).0 is Ok && next::<M>(m) == (CpuModel { regs: CpuState { pc: pc_plus(m, 1), ..m.regs }, mem: M::spec_write(m.mem, hl_address(m.regs), m.regs.c), ..m }),
        byte_after_pc::<M>(m, 0) == 0x72 ==> step_spec::<M>(m).0 is Ok && next::<M>(m) == (CpuModel { regs: CpuState { pc: pc_plus(m, 1), ..m.regs }, mem: M::spec_write(m.mem, hl_address(m.regs), m.regs.d), ..m }),
        byte_after_pc::<M>(m, 0) == 0x73 ==> step_spec::<M>(m).0 is Ok && next::<M>(m) == (CpuModel { regs: CpuState { pc: pc_plus(m, 1), ..m.regs }, mem: M::spec_write(m.mem, hl_address(m.regs), m.regs.e), ..m }),
        byte_after_pc::<M>(m, 0) == 0x74 ==> step_spec::<M>(m).0 is Ok && next::<M>(m) == (CpuModel { regs: CpuState { pc: pc_plus(m, 1), ..m.regs }, mem: M::spec_write(m.mem, hl_address(m.regs), m.regs.h), ..m }),
        byte_after_pc::<M>(m, 0) == 0x75 ==> step_spec::<M>(m).0 is Ok && next::<M>(m) == (CpuModel { regs: CpuState { pc: pc_plus(m, 1), ..m.regs }, mem: M::spec_write(m.mem, hl_address(m.regs), m.regs.l), ..m }),
        byte_after_pc::<M>(m, 0) == 0x77 ==> step_spec::<M>(m).0 is Ok && next::<M>(m) == (CpuModel { regs: CpuState { pc: pc_plus(m, 1), ..m.regs }, mem: M::spec_write(m.mem, hl_address(m.regs), m.regs.a), ..m }),
{
}

/// LD r,(HL) (0x46, 0x4E, .., 0x7E but 0x76) loads register r from the
/// address held in HL and moves PC one byte on.
pub proof fn lemma_ld_r_mem_hl<M: MemoryBus>(m: CpuModel<M::V>)
    requires
        running(m),
    ensures
        byte_after_pc::<M>(m, 0) == 0x46 ==> step_spec::<M>(m).0 is Ok && next::<M>(m) == (CpuModel { regs: CpuState { pc: pc_plus(m, 1), b: M::spec_read(m.mem, hl_address(m.regs)), ..m.regs }, ..m }),
        byte_after_pc::<M>(m, 0) == 0x4E ==> step_spec::<M>(m).0 is Ok && next::<M>(m) == (CpuModel { regs: CpuState { pc: pc_plus(m, 1), c: M::spec_read(m.mem, hl_address(m.regs)), ..m.regs }, ..m }),
        byte_after_pc::<M>(m, 0) == 0x56 ==> step_spec::<M>(m).0 is Ok && next::<M>(m) == (CpuModel { regs: CpuState { pc: pc_plus(m, 1), d: M::spec_read(m.mem, hl_address(m.regs)), ..m.regs }, ..m }),
        byte_after_pc::<M>(m, 0) == 0x5E ==> step_spec::<M>(m).0 is Ok && next::<M>(m) == (CpuModel { regs: CpuState { pc: pc_plus(m, 1), e: M::spec_read(m.mem, hl_address(m.regs)), ..m.regs }, ..m }),
        byte_after_pc::<M>(m, 0) == 0x66 ==> step_spec::<M>(m).0 is Ok && next::<M>(m) == (CpuModel { regs: CpuState { pc: pc_plus(m, 1), h: M::spec_read(m.mem, hl_address(m.regs)), ..m.regs }, ..m }),
        byte_after_pc::<M>(m, 0) == 0x6E ==> step_spec::<M>(m).0 is Ok && next::<M>(m) == (CpuModel { regs: CpuState { pc: pc_plus(m, 1), l: M::spec_read(m.mem, hl_address(m.regs)), ..m.regs }, ..m }),
        byte_after_pc::<M>(m, 0) == 0x7E ==> step_spec::<M>(m).0 is Ok && next::<M>(m) == (CpuModel { regs: CpuState { pc: pc_plus(m, 1), a: M::spec_read(m.mem, hl_address(m.regs)), ..m.regs }, ..m }),
{
}

/// LD r,d8 (0x06, 0x0E, .., 0x3E but 0x36) loads register r with the byte
/// after the opcode and moves PC two bytes on.
pub proof fn lemma_ld_r_d8<M: MemoryBus>(m: CpuModel<M::V>)
    requires
        running(m),
    ensures
        byte_after_pc::<M>(m, 0) == 0x06 ==> step_spec::<M>(m).0 is Ok && next::<M>(m) == (CpuModel { regs: CpuState { pc: pc_plus(m, 2), b: byte_after_pc::<M>(m, 1), ..m.regs }, ..m }),
        byte_after_pc::<M>(m, 0) == 0x0E ==> step_spec::<M>(m).0 is Ok && next::<M>(m) == (CpuModel { regs: CpuState { pc: pc_plus(m, 2), c: byte_after_pc::<M>(m, 1), ..m.regs }, ..m }),
        byte_after_pc::<M>(m, 0) == 0x16 ==> step_spec::<M>(m).0 is Ok && next::<M>(m) == (CpuModel { regs: CpuState { pc: pc_plus(m, 2), d: byte_after_pc::<M>(m, 1), ..m.regs }, ..m }),
        byte_after_pc::<M>(m, 0) == 0x1E ==> step_spec::<M>(m).0 is Ok && next::<M>(m) == (CpuModel { regs: CpuState { pc: pc_plus(m, 2), e: byte_after_pc::<M>(m, 1), ..m.regs }, ..m }),
        byte_after_pc::<M>(m, 0) == 0x26 ==> step_spec::<M>(m).0 is Ok && next::<M>(m) == (CpuModel { regs: CpuState { pc: pc_plus(m, 2), h: byte_after_pc::<M>(m, 1), ..m.regs }, ..m }),
        byte_after_pc::<M>(m, 0) == 0x2E ==> step_spec::<M>(m).0 is Ok && next::<M>(m) == (CpuModel { regs: CpuState { pc: pc_plus(m, 2), l: byte_after_pc::<M>(m, 1), ..m.regs }, ..m }),
        byte_after_pc::<M>(m, 0) == 0x3E ==> step_spec::<M>(m).0 is Ok && next::<M>(m) == (CpuModel { regs: CpuState { pc: pc_plus(m, 2), a: byte_after_pc::<M>(m, 1), ..m.regs }, ..m }),
{
}

/// LD A,(a16) loads A from, and LD (a16),A stores A at, the address given
/// little-endian after the opcode; both move PC three bytes on. JP a16 sets
/// PC to that address and changes nothing else.
pub proof fn lemma_absolute_address<M: MemoryBus>(m: CpuModel<M::V>)
    requires
        running(m),
    ensures
        byte_after_pc::<M>(m, 0) == 0xFA ==> step_spec::<M>(m).0 is Ok && next::<M>(m) == (CpuModel { regs: CpuState { pc: pc_plus(m, 3), a: M::spec_read(m.mem, imm16_after_pc::<M>(m)), ..m.regs }, ..m }),
        byte_after_pc::<M>(m, 0) == 0xEA ==> step_spec::<M>(m).0 is Ok && next::<M>(m) == (CpuModel { regs: CpuState { pc: pc_plus(m, 3), ..m.regs }, mem: M::spec_write(m.mem, imm16_after_pc::<M>(m), m.regs.a), ..m }),
        byte_after_pc::<M>(m, 0) == 0xC3 ==> step_spec::<M>(m).0 is Ok && next::<M>(m) == (CpuModel { regs: CpuState { pc: imm16_after_pc::<M>(m), ..m.regs }, ..m }),
        byte_after_pc::<M>(m, 0) == 0x00 ==> step_spec::<M>(m).0 is Ok && next::<M>(m) == (CpuModel { regs: CpuState { pc: pc_plus(m, 1), ..m.regs }, ..m }),
{
}

/// The 8-bit register numbered `i` in an operand field (B, C, D, E, H, L,
/// -, A for 0..=7), read from `s`.
pub open spec fn reg_field(s: CpuState, i: int) -> u8 {
    if i == 0 {
        s.b
    } else if i == 1 {
        s.c
    } else if i == 2 {
        s.d
    } else if i == 3 {
        s.e
    } else if i == 4 {
        s.h
    } else if i == 5 {
        s.l
    } else {
        s.a
    }
}

/// `s` with the 8-bit register numbered `i` set to `v`.
pub open spec fn with_reg_field(s: CpuState, i: int, v: u8) -> CpuState {
    if i == 0 {
        CpuState { b: v, ..s }
    } else if i == 1 {
        CpuState { c: v, ..s }
    } else if i == 2 {
        CpuState { d: v, ..s }
    } else if i == 3 {
        CpuState { e: v, ..s }
    } else if i == 4 {
        CpuState { h: v, ..s }
    } else if i == 5 {
        CpuState { l: v, ..s }
    } else {
        CpuState { a: v, ..s }
    }
}

/// Bits 5..3 of the opcode at PC.
pub open spec fn field_y<M: MemoryBus>(m: CpuModel<M::V>) -> int {
    (byte_after_pc::<M>(m, 0) as int / 8) % 8
}

/// Bits 2..0 of the opcode at PC.
pub open spec fn field_z<M: MemoryBus>(m: CpuModel<M::V>) -> int {
    byte_after_pc::<M>(m, 0) as int % 8
}

/// `m`'s registers with PC moved on by `k`.
pub open spec fn regs_past<V>(m: CpuModel<V>, k: int) -> CpuState {
    CpuState { pc: pc_plus(m, k), ..m.regs }
}

/// LD r,r' (0x40..=0x7F with neither field 6) copies the register numbered
/// by bits 2..0 into the one numbered by bits 5..3 and moves PC one byte on.
pub proof fn lemma_ld_r_r<M: MemoryBus>(m: CpuModel<M::V>)
    requires
        running(m),
        0x40 <= byte_after_pc::<M>(m, 0) <= 0x7F,
        field_y::<M>(m) != 6,
        field_z::<M>(m) != 6,
    ensures
        step_spec::<M>(m).0 is Ok,
        next::<M>(m) == (CpuModel {
            regs: with_reg_field(regs_past(m, 1), field_y::<M>(m), reg_field(m.regs, field_z::<M>(m))),
            ..m
        }),
{
}

/// INC r (bits 7..6 zero, bits 2..0 = 4, bits 5..3 not 6) adds one to the
/// register, wrapping; Z says whether the result is zero, N is cleared, H says
/// whether the low nibble was 0xF, C is kept; PC moves one byte on and
/// nothing else changes.
pub proof fn lemma_inc_r<M: MemoryBus>(m: CpuModel<M::V>)
    requires
        running(m),
        byte_after_pc::<M>(m, 0) < 0x40,
        field_z::<M>(m) == 4,
        field_y::<M>(m) != 6,
    ensures
        step_spec::<M>(m).0 is Ok,
        next::<M>(m) == (CpuModel {
            regs: CpuState {
                f: next::<M>(m).regs.f,
                ..with_reg_field(regs_past(m, 1), field_y::<M>(m), ((reg_field(m.regs, field_y::<M>(m)) + 1) % 256) as u8)
            },
            ..m
        }),
        flag_of(next::<M>(m).regs.f, Flag::Zero) == (reg_field(m.regs, field_y::<M>(m)) == 255),
        !flag_of(next::<M>(m).regs.f, Flag::Subtract),
        flag_of(next::<M>(m).regs.f, Flag::HalfCarry) == (reg_field(m.regs, field_y::<M>(m)) % 16 == 15),
        flag_of(next::<M>(m).regs.f, Flag::Carry) == flag_of(m.regs.f, Flag::Carry),
{
    let regs1 = regs_past(m, 1);
    let r = spec_r8_from_bits(field_y::<M>(m) as u8)->0;
    let before = reg8_of(regs1, r);
    let result = add8(before, 1);
    let adj = FlagAdjustment {
        zero: Some(result == 0),
        subtract: Some(false),
        half_carry: Some(before & 0x0F == 0x0F),
        carry: None,
    };
    assert(next::<M>(m).regs == inc_r8_regs(regs1, r));
    assert(before & 0x0F == 0x0F <==> before % 16 == 15) by (bit_vector);
    let f1 = with_reg8(regs1, r, result).f;
    lemma_adjusted_flags(f1, adj, Flag::Zero);
    lemma_adjusted_flags(f1, adj, Flag::Subtract);
    lemma_adjusted_flags(f1, adj, Flag::HalfCarry);
    lemma_adjusted_flags(f1, adj, Flag::Carry);
}

/// DEC r (bits 7..6 zero, bits 2..0 = 5, bits 5..3 not 6) subtracts one
/// from the register, wrapping; Z says whether the result is zero, N is set,
/// H says whether the low nibble was 0, C is kept; PC moves one byte on and
/// nothing else changes.
pub proof fn lemma_dec_r<M: MemoryBus>(m: CpuModel<M::V>)
    requires
        running(m),
        byte_after_pc::<M>(m, 0) < 0x40,
        field_z::<M>(m) == 5,
        field_y::<M>(m) != 6,
    ensures
        step_spec::<M>(m).0 is Ok,
        next::<M>(m) == (CpuModel {
            regs: CpuState {
                f: next::<M>(m).regs.f,
                ..with_reg_field(regs_past(m, 1), field_y::<M>(m), ((reg_field(m.regs, field_y::<M>(m)) + 255) % 256) as u8)
            },
            ..m
        }),
        flag_of(next::<M>(m).regs.f, Flag::Zero) == (reg_field(m.regs, field_y::<M>(m)) == 1),
        flag_of(next::<M>(m).regs.f, Flag::Subtract),
        flag_of(next::<M>(m).regs.f, Flag::HalfCarry) == (reg_field(m.regs, field_y::<M>(m)) % 16 == 0),
        flag_of(next::<M>(m).regs.f, Flag::Carry) == flag_of(m.regs.f, Flag::Carry),
{
    let regs1 = regs_past(m, 1);
    let r = spec_r8_from_bits(field_y::<M>(m) as u8)->0;
    let before = reg8_of(regs1, r);
    let written = with_reg8(regs1, r, sub8(before, 1));
    let adj = FlagAdjustment {
        zero: Some(reg8_of(written, r) == 0),
        subtract: Some(true),
        half_carry: Some(before & 0x0F == 0x00),
        carry: None,
    };
    assert(next::<M>(m).regs == dec_r8_regs(regs1, r));
    assert(before & 0x0F == 0x00 <==> before % 16 == 0) by (bit_vector);
    lemma_adjusted_flags(written.f, adj, Flag::Zero);
    lemma_adjusted_flags(written.f, adj, Flag::Subtract);
    lemma_adjusted_flags(written.f, adj, Flag::HalfCarry);
    lemma_adjusted_flags(written.f, adj, Flag::Carry);
}

/// INC rr (0x03, 0x13, 0x23, 0x33) adds one to BC, DE, HL or SP and DEC rr
/// (0x0B, 0x1B, 0x2B, 0x3B) subtracts one, wrapping, the first register of a
/// pair being its high byte; flags and every other register stay, and PC
/// moves one byte on.
pub proof fn lemma_inc_dec_rr<M: MemoryBus>(m: CpuModel<M::V>)
    requires
        running(m),
    ensures
        byte_after_pc::<M>(m, 0) == 0x03 ==> step_spec::<M>(m).0 is Ok && next::<M>(m).regs.b as int * 256
            + next::<M>(m).regs.c as int == (m.regs.b as int * 256 + m.regs.c as int + 1) % 65536
            && next::<M>(m) == (CpuModel { regs: CpuState { b: next::<M>(m).regs.b, c: next::<M>(m).regs.c, ..regs_past(m, 1) }, ..m }),
        byte_after_pc::<M>(m, 0) == 0x0B ==> step_spec::<M>(m).0 is Ok && next::<M>(m).regs.b as int * 256
            + next::<M>(m).regs.c as int == (m.regs.b as int * 256 + m.regs.c as int + 65535) % 65536
            && next::<M>(m) == (CpuModel { regs: CpuState { b: next::<M>(m).regs.b, c: next::<M>(m).regs.c, ..regs_past(m, 1) }, ..m }),
        byte_after_pc::<M>(m, 0) == 0x13 ==> step_spec::<M>(m).0 is Ok && next::<M>(m).regs.d as int * 256
            + next::<M>(m).regs.e as int == (m.regs.d as int * 256 + m.regs.e as int + 1) % 65536
            && next::<M>(m) == (CpuModel { regs: CpuState { d: next::<M>(m).regs.d, e: next::<M>(m).regs.e, ..regs_past(m, 1) }, ..m }),
        byte_after_pc::<M>(m, 0) == 0x1B ==> step_spec::<M>(m).0 is Ok && next::<M>(m).regs.d as int * 256
            + next::<M>(m).regs.e as int == (m.regs.d as int * 256 + m.regs.e as int + 65535) % 65536
            && next::<M>(m) == (CpuModel { regs: CpuState { d: next::<M>(m).regs.d, e: next::<M>(m).regs.e, ..regs_past(m, 1) }, ..m }),
        byte_after_pc::<M>(m, 0) == 0x23 ==> step_spec::<M>(m).0 is Ok && next::<M>(m).regs.h as int * 256
            + next::<M>(m).regs.l as int == (m.regs.h as int * 256 + m.regs.l as int + 1) % 65536
            && next::<M>(m) == (CpuModel { regs: CpuState { h: next::<M>(m).regs.h, l: next::<M>(m).regs.l, ..regs_past(m, 1) }, ..m }),
        byte_after_pc::<M>(m, 0) == 0x2B ==> step_spec::<M>(m).0 is Ok && next::<M>(m).regs.h as int * 256
            + next::<M>(m).regs.l as int == (m.regs.h as int * 256 + m.regs.l as int + 65535) % 65536
            && next::<M>(m) == (CpuModel { regs: CpuState { h: next::<M>(m).regs.h, l: next::<M>(m).regs.l, ..regs_past(m, 1) }, ..m }),
        byte_after_pc::<M>(m, 0) == 0x33 ==> step_spec::<M>(m).0 is Ok && next::<M>(m) == (CpuModel {
            regs: CpuState { sp: ((m.regs.sp as int + 1) % 65536) as u16, ..regs_past(m, 1) },
            ..m
        }),
        byte_after_pc::<M>(m, 0) == 0x3B ==> step_spec::<M>(m).0 is Ok && next::<M>(m) == (CpuModel {
            regs: CpuState { sp: ((m.regs.sp as int + 65535) % 65536) as u16, ..regs_past(m, 1) },
            ..m
        }),
{
    lemma_inc_dec_bc::<M>(m);
    lemma_inc_dec_de::<M>(m);
    lemma_inc_dec_hl::<M>(m);
    lemma_inc_dec_sp::<M>(m);
}

proof fn lemma_inc_dec_bc<M: MemoryBus>(m: CpuModel<M::V>)
    requires
        running(m),
    ensures
        byte_after_pc::<M>(m, 0) == 0x03 ==> step_spec::<M>(m).0 is Ok && next::<M>(m).regs.b as int * 256
            + next::<M>(m).regs.c as int == (m.regs.b as int * 256 + m.regs.c as int + 1) % 65536
            && next::<M>(m) == (CpuModel { regs: CpuState { b: next::<M>(m).regs.b, c: next::<M>(m).regs.c, ..regs_past(m, 1) }, ..m }),
        byte_after_pc::<M>(m, 0) == 0x0B ==> step_spec::<M>(m).0 is Ok && next::<M>(m).regs.b as int * 256
            + next::<M>(m).regs.c as int == (m.regs.b as int * 256 + m.regs.c as int + 65535) % 65536
            && next::<M>(m) == (CpuModel { regs: CpuState { b: next::<M>(m).regs.b, c: next::<M>(m).regs.c, ..regs_past(m, 1) }, ..m }),
{
    let regs1 = regs_past(m, 1);
    let v = reg16_of(regs1, Register16::BC);
    lemma_register_names(regs1);
    lemma_register_writes(regs1, 0, add16(v, 1));
    lemma_register_writes(regs1, 0, sub16(v, 1));
}

proof fn lemma_inc_dec_de<M: MemoryBus>(m: CpuModel<M::V>)
    requires
        running(m),
    ensures
        byte_after_pc::<M>(m, 0) == 0x13 ==> step_spec::<M>(m).0 is Ok && next::<M>(m).regs.d as int * 256
            + next::<M>(m).regs.e as int == (m.regs.d as int * 256 + m.regs.e as int + 1) % 65536
            && next::<M>(m) == (CpuModel { regs: CpuState { d: next::<M>(m).regs.d, e: next::<M>(m).regs.e, ..regs_past(m, 1) }, ..m }),
        byte_after_pc::<M>(m, 0) == 0x1B ==> step_spec::<M>(m).0 is Ok && next::<M>(m).regs.d as int * 256
            + next::<M>(m).regs.e as int == (m.regs.d as int * 256 + m.regs.e as int + 65535) % 65536
            && next::<M>(m) == (CpuModel { regs: CpuState { d: next::<M>(m).regs.d, e: next::<M>(m).regs.e, ..regs_past(m, 1) }, ..m }),
{
    let regs1 = regs_past(m, 1);
    let v = reg16_of(regs1, Register16::DE);
    lemma_register_names(regs1);
    lemma_register_writes(regs1, 0, add16(v, 1));
    lemma_register_writes(regs1, 0, sub16(v, 1));
}

proof fn lemma_inc_dec_hl<M: MemoryBus>(m: CpuModel<M::V>)
    requires
        running(m),
    ensures
        byte_after_pc::<M>(m, 0) == 0x23 ==> step_spec::<M>(m).0 is Ok && next::<M>(m).regs.h as int * 256
            + next::<M>(m).regs.l as int == (m.regs.h as int * 256 + m.regs.l as int + 1) % 65536
            && next::<M>(m) == (CpuModel { regs: CpuState { h: next::<M>(m).regs.h, l: next::<M>(m).regs.l, ..regs_past(m, 1) }, ..m }),
        byte_after_pc::<M>(m, 0) == 0x2B ==> step_spec::<M>(m).0 is Ok && next::<M>(m).regs.h as int * 256
            + next::<M>(m).regs.l as int == (m.regs.h as int * 256 + m.regs.l as int + 65535) % 65536
            && next::<M>(m) == (CpuModel { regs: CpuState { h: next::<M>(m).regs.h, l: next::<M>(m).regs.l, ..regs_past(m, 1) }, ..m }),
{
    let regs1 = regs_past(m, 1);
    let v = reg16_of(regs1, Register16::HL);
    lemma_register_names(regs1);
    lemma_register_writes(regs1, 0, add16(v, 1));
    lemma_register_writes(regs1, 0, sub16(v, 1));
}

proof fn lemma_inc_dec_sp<M: MemoryBus>(m: CpuModel<M::V>)
    requires
        running(m),
    ensures
        byte_after_pc::<M>(m, 0) == 0x33 ==> step_spec::<M>(m).0 is Ok && next::<M>(m) == (CpuModel {
            regs: CpuState { sp: ((m.regs.sp as int + 1) % 65536) as u16, ..regs_past(m, 1) },
            ..m
        }),
        byte_after_pc::<M>(m, 0) == 0x3B ==> step_spec::<M>(m).0 is Ok && next::<M>(m) == (CpuModel {
            regs: CpuState { sp: ((m.regs.sp as int + 65535) % 65536) as u16, ..regs_past(m, 1) },
            ..m
        }),
{
}

/// DI clears IME at once, EI only arranges for IME to be set after the next
/// instruction, and HALT stops the CPU; each moves PC one byte on and
/// changes nothing else.
pub proof fn lemma_control<M: MemoryBus>(m: CpuModel<M::V>)
    requires
        running(m),
    ensures
        byte_after_pc::<M>(m, 0) == 0xF3 ==> step_spec::<M>(m).0 is Ok && next::<M>(m) == (CpuModel {
            regs: CpuState { ime: false, ..regs_past(m, 1) },
            ..m
        }),
        byte_after_pc::<M>(m, 0) == 0xFB ==> step_spec::<M>(m).0 is Ok && next::<M>(m) == (CpuModel {
            regs: regs_past(m, 1),
            pending_ime: true,
            ..m
        }),
        byte_after_pc::<M>(m, 0) == 0x76 ==> step_spec::<M>(m).0 is Ok && next::<M>(m) == (CpuModel {
            regs: regs_past(m, 1),
            halted: true,
            ..m
        }),
{
}

} // verus!
