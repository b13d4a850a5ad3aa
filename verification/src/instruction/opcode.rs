use vstd::prelude::*;

use crate::cpu::registers::{spec_r8_from_bits, Register16, Register8};

verus! {

/// An opcode byte, decoded: which instruction it is and the registers it
/// names. Operand bytes that follow the opcode are not part of it.
#[derive(Clone, Copy, Debug, PartialEq, Eq, Structural)]
pub enum Opcode {
    Nop,
    JpImm16,
    LdR8(Register8),
    LdR16(Register16),
    LdR8R8 { dst: Register8, src: Register8 },
    IncR8(Register8),
    DecR8(Register8),
    IncR16(Register16),
    DecR16(Register16),
    LdMemHLR8(Register8),
    LdR8FromMemHL(Register8),
    LdAFromAddr,
    LdAddrA,
    Di,
    Ei,
    Halt,
}

#[derive(Clone, Copy, Debug, PartialEq, Eq, Structural)]
pub enum OpcodeDecodeError {
    InvalidOpcode(u8),
}

/// The 16-bit register that a 2-bit pair field names (BC, DE, HL, SP).
pub open spec fn spec_rp(p: u8) -> Register16 {
    if p % 4 == 0 {
        Register16::BC
    } else if p % 4 == 1 {
        Register16::DE
    } else if p % 4 == 2 {
        Register16::HL
    } else {
        Register16::SP
    }
}

/// The opcode table, read through the fields of the opcode byte
/// `xx yyy zzz`: bits 7..6, 5..3 and 2..0. Bytes that no implemented
/// instruction has, and register fields that name `(HL)` where only a
/// register is implemented, are `InvalidOpcode`.
pub open spec fn spec_opcode(byte: u8) -> Result<Opcode, OpcodeDecodeError> {
    let x = byte / 64;
    let y = (byte / 8) % 8;
    let z = byte % 8;
    let invalid = Err(OpcodeDecodeError::InvalidOpcode(byte));
    if byte == 0x00 {
        Ok(Opcode::Nop)
    } else if byte == 0xC3 {
        Ok(Opcode::JpImm16)
    } else if byte == 0xFA {
        Ok(Opcode::LdAFromAddr)
    } else if byte == 0xEA {
        Ok(Opcode::LdAddrA)
    } else if byte == 0xF3 {
        Ok(Opcode::Di)
    } else if byte == 0xFB {
        Ok(Opcode::Ei)
    } else if x == 0 && z == 6 {
        match spec_r8_from_bits(y) {
            Some(r) => Ok(Opcode::LdR8(r)),
            None => invalid,
        }
    } else if x == 0 && z == 4 {
        match spec_r8_from_bits(y) {
            Some(r) => Ok(Opcode::IncR8(r)),
            None => invalid,
        }
    } else if x == 0 && z == 5 {
        match spec_r8_from_bits(y) {
            Some(r) => Ok(Opcode::DecR8(r)),
            None => invalid,
        }
    } else if x == 0 && z == 1 && y % 2 == 0 {
        Ok(Opcode::LdR16(spec_rp(y / 2)))
    } else if x == 0 && z == 3 && y % 2 == 0 {
        Ok(Opcode::IncR16(spec_rp(y / 2)))
    } else if x == 0 && z == 3 {
        Ok(Opcode::DecR16(spec_rp(y / 2)))
    } else if x == 1 {
        match (spec_r8_from_bits(y), spec_r8_from_bits(z)) {
            (None, None) => Ok(Opcode::Halt),
            (Some(dst), None) => Ok(Opcode::LdR8FromMemHL(dst)),
            (None, Some(src)) => Ok(Opcode::LdMemHLR8(src)),
            (Some(dst), Some(src)) => Ok(Opcode::LdR8R8 { dst, src }),
        }
    } else {
        invalid
    }
}

impl TryFrom<u8> for Opcode {
    type Error = OpcodeDecodeError;

    fn try_from(byte: u8) -> (r: Result<Self, Self::Error>)
        ensures
            r == spec_opcode(byte),
    {
        assert((byte >> 3) % 8 == (byte / 8) % 8) by (bit_vector);
        assert((byte & 0b1100_0111 == 0b0000_0110) == (byte / 64 == 0 && byte % 8 == 6)) by (bit_vector);
        assert((byte & 0b1100_0111 == 0b0000_0100) == (byte / 64 == 0 && byte % 8 == 4)) by (bit_vector);
        assert((byte & 0b1100_0111 == 0b0000_0101) == (byte / 64 == 0 && byte % 8 == 5)) by (bit_vector);
        assert((0x40 <= byte && byte <= 0x7F) == (byte / 64 == 1)) by (bit_vector);

        let opcode = if byte == 0x00 {
            Opcode::Nop
        } else if byte == 0xC3 {
            Opcode::JpImm16
        } else if byte & 0b1100_0111 == 0b0000_0110 {
            match Register8::from_bits(byte >> 3) {
                Some(r) => Opcode::LdR8(r),
                None => return Err(OpcodeDecodeError::InvalidOpcode(byte)),
            }
        } else if byte & 0b1100_0111 == 0b0000_0100 {
            match Register8::from_bits(byte >> 3) {
                Some(r) => Opcode::IncR8(r),
                None => return Err(OpcodeDecodeError::InvalidOpcode(byte)),
            }
        } else if byte & 0b1100_0111 == 0b0000_0101 {
            match Register8::from_bits(byte >> 3) {
                Some(r) => Opcode::DecR8(r),
                None => return Err(OpcodeDecodeError::InvalidOpcode(byte)),
            }
        } else if 0x40 <= byte && byte <= 0x7F {
            // 0x76 would be `LD (HL), (HL)`; the hardware reuses it as HALT.
            let dst = Register8::from_bits(byte >> 3);
            let src = Register8::from_bits(byte);
            match (dst, src) {
                (None, None) => Opcode::Halt,
                (Some(dst), None) => Opcode::LdR8FromMemHL(dst),
                (None, Some(src)) => Opcode::LdMemHLR8(src),
                (Some(dst), Some(src)) => Opcode::LdR8R8 { dst, src },
            }
        } else {
            match byte {
                0xFA => Opcode::LdAFromAddr,
                0xEA => Opcode::LdAddrA,
                0x01 => Opcode::LdR16(Register16::BC),
                0x11 => Opcode::LdR16(Register16::DE),
                0x21 => Opcode::LdR16(Register16::HL),
                0x31 => Opcode::LdR16(Register16::SP),
                0x03 => Opcode::IncR16(Register16::BC),
                0x13 => Opcode::IncR16(Register16::DE),
                0x23 => Opcode::IncR16(Register16::HL),
                0x33 => Opcode::IncR16(Register16::SP),
                0x0B => Opcode::DecR16(Register16::BC),
                0x1B => Opcode::DecR16(Register16::DE),
                0x2B => Opcode::DecR16(Register16::HL),
                0x3B => Opcode::DecR16(Register16::SP),
                0xF3 => Opcode::Di,
                0xFB => Opcode::Ei,
                _ => return Err(OpcodeDecodeError::InvalidOpcode(byte)),
            }
        };
        Ok(opcode)
    }
}

impl vstd::std_specs::convert::TryFromSpecImpl<u8> for Opcode {
    open spec fn obeys_try_from_spec() -> bool {
        true
    }

    open spec fn try_from_spec(v: u8) -> Result<Self, Self::Error> {
        spec_opcode(v)
    }
}

} // verus!

verus! {

/// The CB prefix byte and the eleven bytes that lock up real hardware never
/// decode as instructions; a rejected byte is reported as itself.
pub proof fn lemma_non_instructions_rejected(byte: u8)
    ensures
        (byte == 0xCB || byte == 0xD3 || byte == 0xDB || byte == 0xDD || byte == 0xE3 || byte == 0xE4
            || byte == 0xEB || byte == 0xEC || byte == 0xED || byte == 0xF4 || byte == 0xFC || byte == 0xFD)
            ==> spec_opcode(byte) == Err::<Opcode, OpcodeDecodeError>(OpcodeDecodeError::InvalidOpcode(byte)),
        spec_opcode(byte) is Err ==> spec_opcode(byte) == Err::<Opcode, OpcodeDecodeError>(
            OpcodeDecodeError::InvalidOpcode(byte),
        ),
{
}

/// Every byte of the 0x40..=0x7F block decodes: 0x76 is HALT, the rest are
/// 8-bit loads between registers and `(HL)`.
pub proof fn lemma_load_block_decodes(byte: u8)
    requires
        0x40 <= byte <= 0x7F,
    ensures
        spec_opcode(byte) is Ok,
        (spec_opcode(byte) == Ok::<Opcode, OpcodeDecodeError>(Opcode::Halt)) == (byte == 0x76),
{
}

/// The number of an 8-bit register in an operand field: B, C, D, E, H, L
/// are 0 to 5 and A is 7 (6 is `(HL)`). F has no number.
pub open spec fn r8_code(r: Register8) -> Option<int> {
    match r {
        Register8::B => Some(0),
        Register8::C => Some(1),
        Register8::D => Some(2),
        Register8::E => Some(3),
        Register8::H => Some(4),
        Register8::L => Some(5),
        Register8::A => Some(7),
        Register8::F => None,
    }
}

/// The number of a register pair in a pair field: BC 0, DE 1, HL 2, SP 3.
pub open spec fn r16_code(r: Register16) -> int {
    match r {
        Register16::BC => 0,
        Register16::DE => 1,
        Register16::HL => 2,
        Register16::SP => 3,
    }
}

/// The byte that encodes an opcode, if any: the SM83 encoding, written as
/// base byte plus register numbers times their field's weight.
pub open spec fn encode_opcode(op: Opcode) -> Option<int> {
    match op {
        Opcode::Nop => Some(0x00),
        Opcode::JpImm16 => Some(0xC3),
        Opcode::LdR8(r) => match r8_code(r) {
            Some(c) => Some(0x06 + 8 * c),
            None => None,
        },
        Opcode::LdR16(p) => Some(0x01 + 16 * r16_code(p)),
        Opcode::LdR8R8 { dst, src } => match (r8_code(dst), r8_code(src)) {
            (Some(d), Some(c)) => Some(0x40 + 8 * d + c),
            _ => None,
        },
        Opcode::IncR8(r) => match r8_code(r) {
            Some(c) => Some(0x04 + 8 * c),
            None => None,
        },
        Opcode::DecR8(r) => match r8_code(r) {
            Some(c) => Some(0x05 + 8 * c),
            None => None,
        },
        Opcode::IncR16(p) => Some(0x03 + 16 * r16_code(p)),
        Opcode::DecR16(p) => Some(0x0B + 16 * r16_code(p)),
        Opcode::LdMemHLR8(r) => match r8_code(r) {
            Some(c) => Some(0x70 + c),
            None => None,
        },
        Opcode::LdR8FromMemHL(r) => match r8_code(r) {
            Some(c) => Some(0x46 + 8 * c),
            None => None,
        },
        Opcode::LdAFromAddr => Some(0xFA),
        Opcode::LdAddrA => Some(0xEA),
        Opcode::Di => Some(0xF3),
        Opcode::Ei => Some(0xFB),
        Opcode::Halt => Some(0x76),
    }
}

/// Every byte that decodes is the encoding of what it decodes to.
pub proof fn lemma_decode_then_encode(byte: u8)
    ensures
        spec_opcode(byte) is Ok ==> encode_opcode(spec_opcode(byte)->Ok_0) == Some(byte as int),
{
}

/// Every opcode with an encoding decodes from that byte.
pub proof fn lemma_encode_then_decode(op: Opcode)
    ensures
        encode_opcode(op) is Some ==> 0 <= encode_opcode(op)->0 < 256 && spec_opcode(
            (encode_opcode(op)->0) as u8,
        ) == Ok::<Opcode, OpcodeDecodeError>(op),
{
    match op {
        Opcode::LdR8(r) => lemma_encode_ld_r8(r),
        Opcode::IncR8(r) => lemma_encode_inc_r8(r),
        Opcode::DecR8(r) => lemma_encode_dec_r8(r),
        Opcode::LdMemHLR8(r) => lemma_encode_ld_mem_hl_r8(r),
        Opcode::LdR8FromMemHL(r) => lemma_encode_ld_r8_mem_hl(r),
        Opcode::LdR8R8 { dst, src } => lemma_encode_ld_r8_r8(dst, src),
        Opcode::LdR16(p) => lemma_encode_ld_r16(p),
        Opcode::IncR16(p) => lemma_encode_inc_r16(p),
        Opcode::DecR16(p) => lemma_encode_dec_r16(p),
        _ => lemma_encode_fixed(op),
    }
}

proof fn lemma_encode_ld_r16(p: Register16)
    ensures
        spec_opcode((encode_opcode(Opcode::LdR16(p))->0) as u8) == Ok::<Opcode, OpcodeDecodeError>(Opcode::LdR16(p)),
{
    match p {
        Register16::BC => {},
        Register16::DE => {},
        Register16::HL => {},
        Register16::SP => {},
    }
}

proof fn lemma_encode_inc_r16(p: Register16)
    ensures
        spec_opcode((encode_opcode(Opcode::IncR16(p))->0) as u8) == Ok::<Opcode, OpcodeDecodeError>(Opcode::IncR16(p)),
{
    match p {
        Register16::BC => {},
        Register16::DE => {},
        Register16::HL => {},
        Register16::SP => {},
    }
}

proof fn lemma_encode_dec_r16(p: Register16)
    ensures
        spec_opcode((encode_opcode(Opcode::DecR16(p))->0) as u8) == Ok::<Opcode, OpcodeDecodeError>(Opcode::DecR16(p)),
{
    match p {
        Register16::BC => {},
        Register16::DE => {},
        Register16::HL => {},
        Register16::SP => {},
    }
}

proof fn lemma_encode_fixed(op: Opcode)
    requires
        op is Nop || op is JpImm16 || op is LdAFromAddr || op is LdAddrA || op is Di || op is Ei || op is Halt,
    ensures
        spec_opcode((encode_opcode(op)->0) as u8) == Ok::<Opcode, OpcodeDecodeError>(op),
{
}

proof fn lemma_encode_ld_r8(r: Register8)
    ensures
        encode_opcode(Opcode::LdR8(r)) is Some ==> spec_opcode((encode_opcode(Opcode::LdR8(r))->0) as u8)
            == Ok::<Opcode, OpcodeDecodeError>(Opcode::LdR8(r)),
{
    match r {
        Register8::A => {},
        Register8::F => {},
        Register8::B => {},
        Register8::C => {},
        Register8::D => {},
        Register8::E => {},
        Register8::H => {},
        Register8::L => {},
    }
}

proof fn lemma_encode_inc_r8(r: Register8)
    ensures
        encode_opcode(Opcode::IncR8(r)) is Some ==> spec_opcode((encode_opcode(Opcode::IncR8(r))->0) as u8)
            == Ok::<Opcode, OpcodeDecodeError>(Opcode::IncR8(r)),
{
    match r {
        Register8::A => {},
        Register8::F => {},
        Register8::B => {},
        Register8::C => {},
        Register8::D => {},
        Register8::E => {},
        Register8::H => {},
        Register8::L => {},
    }
}

proof fn lemma_encode_dec_r8(r: Register8)
    ensures
        encode_opcode(Opcode::DecR8(r)) is Some ==> spec_opcode((encode_opcode(Opcode::DecR8(r))->0) as u8)
            == Ok::<Opcode, OpcodeDecodeError>(Opcode::DecR8(r)),
{
    match r {
        Register8::A => {},
        Register8::F => {},
        Register8::B => {},
        Register8::C => {},
        Register8::D => {},
        Register8::E => {},
        Register8::H => {},
        Register8::L => {},
    }
}

proof fn lemma_encode_ld_mem_hl_r8(r: Register8)
    ensures
        encode_opcode(Opcode::LdMemHLR8(r)) is Some ==> spec_opcode((encode_opcode(Opcode::LdMemHLR8(r))->0) as u8)
            == Ok::<Opcode, OpcodeDecodeError>(Opcode::LdMemHLR8(r)),
{
    match r {
        Register8::A => {},
        Register8::F => {},
        Register8::B => {},
        Register8::C => {},
        Register8::D => {},
        Register8::E => {},
        Register8::H => {},
        Register8::L => {},
    }
}

proof fn lemma_encode_ld_r8_mem_hl(r: Register8)
    ensures
        encode_opcode(Opcode::LdR8FromMemHL(r)) is Some ==> spec_opcode((encode_opcode(Opcode::LdR8FromMemHL(r))->0) as u8)
            == Ok::<Opcode, OpcodeDecodeError>(Opcode::LdR8FromMemHL(r)),
{
    match r {
        Register8::A => {},
        Register8::F => {},
        Register8::B => {},
        Register8::C => {},
        Register8::D => {},
        Register8::E => {},
        Register8::H => {},
        Register8::L => {},
    }
}

proof fn lemma_encode_ld_r8_r8(dst: Register8, src: Register8)
    ensures
        encode_opcode(Opcode::LdR8R8 { dst, src }) is Some ==> spec_opcode(
            (encode_opcode(Opcode::LdR8R8 { dst, src })->0) as u8,
        ) == Ok::<Opcode, OpcodeDecodeError>(Opcode::LdR8R8 { dst, src }),
{
    match dst {
        Register8::A => lemma_encode_ld_r8_r8_src(Register8::A, src),
        Register8::F => lemma_encode_ld_r8_r8_src(Register8::F, src),
        Register8::B => lemma_encode_ld_r8_r8_src(Register8::B, src),
        Register8::C => lemma_encode_ld_r8_r8_src(Register8::C, src),
        Register8::D => lemma_encode_ld_r8_r8_src(Register8::D, src),
        Register8::E => lemma_encode_ld_r8_r8_src(Register8::E, src),
        Register8::H => lemma_encode_ld_r8_r8_src(Register8::H, src),
        Register8::L => lemma_encode_ld_r8_r8_src(Register8::L, src),
    }
}

proof fn lemma_encode_ld_r8_r8_src(dst: Register8, src: Register8)
    ensures
        encode_opcode(Opcode::LdR8R8 { dst, src }) is Some ==> spec_opcode(
            (encode_opcode(Opcode::LdR8R8 { dst, src })->0) as u8,
        ) == Ok::<Opcode, OpcodeDecodeError>(Opcode::LdR8R8 { dst, src }),
{
    match src {
        Register8::A => {},
        Register8::F => {},
        Register8::B => {},
        Register8::C => {},
        Register8::D => {},
        Register8::E => {},
        Register8::H => {},
        Register8::L => {},
    }
}

/// The register-pair instructions: bits 5..4 name BC, DE, HL, SP in that
/// order for LD rr,d16 (0x01), INC rr (0x03) and DEC rr (0x0B).
pub proof fn lemma_pair_opcodes(byte: u8)
    ensures
        byte == 0x01 ==> spec_opcode(byte) == Ok::<Opcode, OpcodeDecodeError>(Opcode::LdR16(Register16::BC)),
        byte == 0x11 ==> spec_opcode(byte) == Ok::<Opcode, OpcodeDecodeError>(Opcode::LdR16(Register16::DE)),
        byte == 0x21 ==> spec_opcode(byte) == Ok::<Opcode, OpcodeDecodeError>(Opcode::LdR16(Register16::HL)),
        byte == 0x31 ==> spec_opcode(byte) == Ok::<Opcode, OpcodeDecodeError>(Opcode::LdR16(Register16::SP)),
        byte == 0x03 ==> spec_opcode(byte) == Ok::<Opcode, OpcodeDecodeError>(Opcode::IncR16(Register16::BC)),
        byte == 0x13 ==> spec_opcode(byte) == Ok::<Opcode, OpcodeDecodeError>(Opcode::IncR16(Register16::DE)),
        byte == 0x23 ==> spec_opcode(byte) == Ok::<Opcode, OpcodeDecodeError>(Opcode::IncR16(Register16::HL)),
        byte == 0x33 ==> spec_opcode(byte) == Ok::<Opcode, OpcodeDecodeError>(Opcode::IncR16(Register16::SP)),
        byte == 0x0B ==> spec_opcode(byte) == Ok::<Opcode, OpcodeDecodeError>(Opcode::DecR16(Register16::BC)),
        byte == 0x1B ==> spec_opcode(byte) == Ok::<Opcode, OpcodeDecodeError>(Opcode::DecR16(Register16::DE)),
        byte == 0x2B ==> spec_opcode(byte) == Ok::<Opcode, OpcodeDecodeError>(Opcode::DecR16(Register16::HL)),
        byte == 0x3B ==> spec_opcode(byte) == Ok::<Opcode, OpcodeDecodeError>(Opcode::DecR16(Register16::SP)),
{
}

} // verus!
