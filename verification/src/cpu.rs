//! The SM83 CPU: its registers, flags and interrupt-enable state, and the
//! fetch–decode–execute step.

use vstd::prelude::*;

pub mod flags;
pub mod registers;
pub mod state;

use crate::instruction::decode::{operand_len, spec_instruction};
use crate::instruction::execute::execute_spec;
use crate::instruction::opcode::spec_opcode;
use crate::instruction::{Instruction, InstructionDecodeError, InstructionExecuteError, Opcode};
use crate::memory::bus::BusView;
use crate::memory::{Bus, FlatMemory, MemoryBus};
use registers::add16;
use state::CpuState;

verus! {

/// The abstract state of a `Cpu`: its registers (with IME), whether it is
/// halted, whether an `EI` is waiting to take effect, and its memory.
pub struct CpuModel<V> {
    pub regs: CpuState,
    pub halted: bool,
    pub pending_ime: bool,
    pub mem: V,
}

/// An SM83 CPU attached to a memory bus.
pub struct Cpu<M> {
    memory: Box<M>,
    pc: u16,
    sp: u16,
    a: u8,
    flag_z: bool,
    flag_n: bool,
    flag_h: bool,
    flag_c: bool,
    b: u8,
    c: u8,
    d: u8,
    e: u8,
    h: u8,
    l: u8,
    ime: bool,
    halted: bool,
    pending_ime: bool,
}

impl<M: MemoryBus> View for Cpu<M> {
    type V = CpuModel<M::V>;

    closed spec fn view(&self) -> CpuModel<M::V> {
        CpuModel {
            regs: CpuState {
                pc: self.pc,
                sp: self.sp,
                a: self.a,
                f: flags::flags_byte(self.flag_z, self.flag_n, self.flag_h, self.flag_c),
                b: self.b,
                c: self.c,
                d: self.d,
                e: self.e,
                h: self.h,
                l: self.l,
                ime: self.ime,
            },
            halted: self.halted,
            pending_ime: self.pending_ime,
            mem: (*self.memory)@,
        }
    }
}

/// The register file of a freshly constructed CPU: everything zero, IME off.
pub open spec fn zero_regs() -> CpuState {
    CpuState { pc: 0, sp: 0, a: 0, f: 0, b: 0, c: 0, d: 0, e: 0, h: 0, l: 0, ime: false }
}

/// The register file of a DMG after its boot ROM has handed over to the
/// cartridge at 0x0100.
pub open spec fn dmg_regs() -> CpuState {
    CpuState {
        pc: 0x0100,
        sp: 0xFFFE,
        a: 0x01,
        f: 0xB0,
        b: 0x00,
        c: 0x13,
        d: 0x00,
        e: 0xD8,
        h: 0x01,
        l: 0x4D,
        ime: false,
    }
}

/// The model `m` with the program counter set to `pc`.
pub open spec fn with_pc<V>(m: CpuModel<V>, pc: u16) -> CpuModel<V> {
    CpuModel { regs: CpuState { pc, ..m.regs }, ..m }
}

/// Why a step failed.
#[derive(Clone, Copy, Debug, PartialEq, Eq)]
pub enum CpuError {
    Decode(InstructionDecodeError),
    Execute(InstructionExecuteError),
}

/// `m` after a pending `EI` has taken effect: IME set, nothing pending.
pub open spec fn apply_pending_ime<V>(m: CpuModel<V>) -> CpuModel<V> {
    if m.pending_ime {
        CpuModel { regs: CpuState { ime: true, ..m.regs }, pending_ime: false, ..m }
    } else {
        m
    }
}

/// One step of the CPU from state `m`: the outcome and the state after it.
///
/// A pending `EI` takes effect first. A halted CPU then does nothing more.
/// Otherwise the opcode byte at PC is fetched; an invalid opcode fails the
/// step with PC already past it. A valid one fetches its operands and runs.
pub open spec fn step_spec<M: MemoryBus>(m: CpuModel<M::V>) -> (Result<(), CpuError>, CpuModel<M::V>) {
    let m0 = apply_pending_ime(m);
    if m0.halted {
        (Ok(()), m0)
    } else {
        let pc = m0.regs.pc;
        let m1 = with_pc(m0, add16(pc, 1));
        match spec_opcode(M::spec_read(m0.mem, pc)) {
            Err(e) => (Err(CpuError::Decode(InstructionDecodeError::Opcode(e))), m1),
            Ok(op) => {
                let pc1 = add16(pc, 1);
                let instr = spec_instruction(op, M::spec_read(m1.mem, pc1), M::spec_read(m1.mem, add16(pc1, 1)));
                let m2 = with_pc(m1, add16(pc1, operand_len(op)));
                (Ok(()), execute_spec::<M>(instr, m2))
            },
        }
    }
}

impl<M: MemoryBus> Cpu<M> {
    /// Runs one instruction (or idles while halted).
    pub fn step(&mut self) -> (r: Result<(), CpuError>)
        ensures
            (r, final(self)@) == step_spec::<M>(old(self)@),
    {
        if self.pending_ime {
            self.ime = true;
            self.pending_ime = false;
        }
        if self.halted {
            return Ok(());
        }
        let byte = self.fetch_byte();
        let opcode = match Opcode::try_from(byte) {
            Ok(opcode) => opcode,
            Err(e) => return Err(CpuError::Decode(InstructionDecodeError::from(e))),
        };
        let instruction = match Instruction::decode(opcode, self) {
            Ok(instruction) => instruction,
            Err(e) => return Err(CpuError::Decode(e)),
        };
        match instruction.execute(self) {
            Ok(()) => Ok(()),
            Err(e) => Err(CpuError::Execute(e)),
        }
    }

    /// A running CPU with all registers zero and IME off.
    pub fn new(memory: Box<M>) -> (r: Self)
        ensures
            r@ == (CpuModel { regs: zero_regs(), halted: false, pending_ime: false, mem: (*memory)@ }),
    {
        proof {
            flags::lemma_unpack_flags(0);
            assert(0u8 & 0x80 == 0 && 0u8 & 0x40 == 0 && 0u8 & 0x20 == 0 && 0u8 & 0x10 == 0 && 0u8 & 0xF0 == 0)
                by (bit_vector);
        }
        Self {
            memory,
            pc: 0,
            sp: 0,
            a: 0,
            flag_z: false,
            flag_n: false,
            flag_h: false,
            flag_c: false,
            b: 0,
            c: 0,
            d: 0,
            e: 0,
            h: 0,
            l: 0,
            ime: false,
            halted: false,
            pending_ime: false,
        }
    }

    /// A running CPU in the state that the DMG boot ROM leaves behind.
    pub fn new_dmg(memory: Box<M>) -> (r: Self)
        ensures
            r@ == (CpuModel { regs: dmg_regs(), halted: false, pending_ime: false, mem: (*memory)@ }),
    {
        proof {
            flags::lemma_unpack_flags(0xB0);
            assert(0xB0u8 & 0x80 != 0 && 0xB0u8 & 0x40 == 0 && 0xB0u8 & 0x20 != 0 && 0xB0u8 & 0x10 != 0
                && 0xB0u8 & 0xF0 == 0xB0) by (bit_vector);
        }
        Self {
            memory,
            pc: 0x0100,
            sp: 0xFFFE,
            a: 0x01,
            flag_z: true,
            flag_n: false,
            flag_h: true,
            flag_c: true,
            b: 0x00,
            c: 0x13,
            d: 0x00,
            e: 0xD8,
            h: 0x01,
            l: 0x4D,
            ime: false,
            halted: false,
            pending_ime: false,
        }
    }

    pub fn pc(&self) -> (r: u16)
        ensures
            r == self@.regs.pc,
    {
        self.pc
    }

    pub fn ime(&self) -> (r: bool)
        ensures
            r == self@.regs.ime,
    {
        self.ime
    }

    pub fn halted(&self) -> (r: bool)
        ensures
            r == self@.halted,
    {
        self.halted
    }

    pub fn set_pc(&mut self, pc: u16)
        ensures
            final(self)@ == with_pc(old(self)@, pc),
    {
        self.pc = pc;
    }

    /// Sets the interrupt master enable at once.
    pub fn set_ime(&mut self, value: bool)
        ensures
            final(self)@ == (CpuModel { regs: CpuState { ime: value, ..old(self)@.regs }, ..old(self)@ }),
    {
        self.ime = value;
    }

    /// Arranges for IME to be set at the start of the next step.
    pub fn enable_ime_after_next(&mut self)
        ensures
            final(self)@ == (CpuModel { pending_ime: true, ..old(self)@ }),
    {
        self.pending_ime = true;
    }

    /// Stops instruction execution: later steps leave the CPU as it is.
    pub fn halt(&mut self)
        ensures
            final(self)@ == (CpuModel { halted: true, ..old(self)@ }),
    {
        self.halted = true;
    }

    /// Reads a byte from memory.
    pub fn read(&self, addr: u16) -> (r: u8)
        ensures
            r == M::spec_read(self@.mem, addr),
    {
        self.memory.read(addr)
    }

    /// Writes a byte to memory.
    pub fn write(&mut self, addr: u16, value: u8)
        ensures
            final(self)@ == (CpuModel { mem: M::spec_write(old(self)@.mem, addr, value), ..old(self)@ }),
    {
        self.memory.write(addr, value);
    }

    /// Reads the byte at PC and advances PC by one, wrapping.
    pub fn fetch_byte(&mut self) -> (r: u8)
        ensures
            r == M::spec_read(old(self)@.mem, old(self)@.regs.pc),
            final(self)@ == with_pc(old(self)@, registers::add16(old(self)@.regs.pc, 1)),
    {
        let r = self.memory.read(self.pc);
        self.pc = self.pc.wrapping_add(1);
        r
    }

    /// Reads the little-endian word at PC and advances PC by two, wrapping.
    pub fn fetch_word(&mut self) -> (r: u16)
        ensures
            r == registers::pair(
                M::spec_read(old(self)@.mem, registers::add16(old(self)@.regs.pc, 1)),
                M::spec_read(old(self)@.mem, old(self)@.regs.pc),
            ),
            final(self)@ == with_pc(old(self)@, registers::add16(old(self)@.regs.pc, 2)),
    {
        let lo = self.fetch_byte();
        let hi = self.fetch_byte();
        let r = ((hi as u16) << 8) | (lo as u16);
        assert(((hi as u16) << 8) | (lo as u16) == hi as u16 * 256 + lo as u16) by (bit_vector);
        r
    }
}

impl Cpu<Bus> {
    /// Hands over the bytes sent on the serial port since the last call, in
    /// the order they were sent, and forgets them. Nothing else changes.
    pub fn take_serial_output(&mut self) -> (r: Vec<u8>)
        ensures
            r@ == old(self)@.mem.serial,
            final(self)@ == (CpuModel { mem: BusView { serial: Seq::empty(), ..old(self)@.mem }, ..old(self)@ }),
    {
        self.memory.take_serial_output()
    }
}

impl Cpu<FlatMemory> {
    /// A CPU with all registers zero over flat memory that holds `program`
    /// from address 0 and zeros after it.
    pub fn new_with_program(program: &[u8]) -> (r: Self)
        requires
            program@.len() <= 0x10000,
        ensures
            r@ == (CpuModel {
                regs: zero_regs(),
                halted: false,
                pending_ime: false,
                mem: Seq::new(0x10000, |i: int| if i < program@.len() { program@[i] } else { 0u8 }),
            }),
    {
        let mut memory = FlatMemory::new();
        let mut i: usize = 0;
        while i < program.len()
            invariant
                i <= program@.len() <= 0x10000,
                memory@ == Seq::new(0x10000, |j: int| if j < i { program@[j] } else { 0u8 }),
            decreases program@.len() - i,
        {
            memory.write(i as u16, program[i]);
            i = i + 1;
            assert(memory@ =~= Seq::new(0x10000, |j: int| if j < i { program@[j] } else { 0u8 }));
        }
        assert(memory@ =~= Seq::new(0x10000, |j: int| if j < program@.len() { program@[j] } else { 0u8 }));
        Cpu::new(Box::new(memory))
    }
}

} // verus!

verus! {

/// A halted CPU with no `EI` pending stays exactly as it is, step after step.
pub proof fn lemma_halted_step_idles<M: MemoryBus>(m: CpuModel<M::V>)
    requires
        m.halted,
        !m.pending_ime,
    ensures
        step_spec::<M>(m) == (Ok::<(), CpuError>(()), m),
{
}

/// `EI` does not enable interrupts itself: after it IME is as before, an
/// enable is pending, and PC has moved past the one-byte instruction.
pub proof fn lemma_ei_defers_ime<M: MemoryBus>(m: CpuModel<M::V>)
    requires
        !m.halted,
        !m.pending_ime,
        M::spec_read(m.mem, m.regs.pc) == 0xFB,
    ensures
        step_spec::<M>(m).0 is Ok,
        step_spec::<M>(m).1 == (CpuModel { pending_ime: true, ..with_pc(m, add16(m.regs.pc, 1)) }),
{
}

/// A pending `EI` takes effect on the next step: IME is set after it, unless
/// that step runs `DI` (opcode 0xF3).
pub proof fn lemma_pending_ime_takes_effect<M: MemoryBus>(m: CpuModel<M::V>)
    requires
        m.pending_ime,
        M::spec_read(m.mem, m.regs.pc) != 0xF3,
    ensures
        step_spec::<M>(m).1.regs.ime,
        !step_spec::<M>(m).1.pending_ime || M::spec_read(m.mem, m.regs.pc) == 0xFB,
{
}

/// F's low nibble is clear in every state a step reaches from a state where
/// it is clear.
pub proof fn lemma_step_keeps_f_low_nibble<M: MemoryBus>(m: CpuModel<M::V>)
    requires
        m.regs.f & 0x0F == 0,
    ensures
        step_spec::<M>(m).1.regs.f & 0x0F == 0,
{
    assert(forall|x: u8| #[trigger] (x & 0xF0) & 0x0F == 0) by (bit_vector);
}

/// `with_state` followed by `state` gives back any register state whose F
/// has a clear low nibble (the only kind a CPU can hold).
pub proof fn lemma_with_state_round_trip(s: CpuState)
    requires
        s.f & 0x0F == 0,
    ensures
        (CpuState { f: s.f & 0xF0, ..s }) == s,
{
    let f = s.f;
    assert(f & 0x0F == 0 ==> f & 0xF0 == f) by (bit_vector);
}

/// Every CPU's F has a clear low nibble: the flags occupy its high nibble
/// and nothing else is stored there.
pub proof fn lemma_f_low_nibble<M: MemoryBus>(cpu: &Cpu<M>)
    ensures
        cpu@.regs.f & 0x0F == 0,
{
    flags::lemma_flags_byte_low_nibble(cpu.flag_z, cpu.flag_n, cpu.flag_h, cpu.flag_c);
}

} // verus!
