//! The instruction set: a structured `Instr` type together with the pure
//! functions `encode` and `decode` that translate between it and a compact
//! 16-bit word.
//!
//! Word layout: the top 4 bits hold the opcode tag (1=And, 2=Mov, 3=Add,
//! 4=Sub, 5=Ldr, 6=Str; 0 and 7-15 are invalid), the low 12 bits hold the
//! operands. Three-register opcodes pack src1 in bits [1:0], src2 in bits
//! [3:2] and dst in bits [5:4]; register+immediate opcodes pack the
//! immediate/address in bits [7:0] and the register index in bits [9:8].

use vstd::prelude::*;

verus! {

/// A decoded machine instruction. Register-index operands are meaningful in
/// the range 0..4; `encode` masks them to their two-bit field.
#[derive(Debug, Clone, Copy, PartialEq, Eq, Structural)]
pub enum Instr {
    /// `And(dst, src1, src2)`: `reg[dst] = reg[src1] & reg[src2]`.
    And(u8, u8, u8),
    /// `Mov(dst, value)`: `reg[dst] = value`.
    Mov(u8, u8),
    /// `Add(dst, src1, src2)`: `reg[dst] = (reg[src1] + reg[src2]) mod 256`.
    Add(u8, u8, u8),
    /// `Sub(dst, src1, src2)`: `reg[dst] = (reg[src1] - reg[src2]) mod 256`.
    Sub(u8, u8, u8),
    /// `Ldr(dst, address)`: `reg[dst] = memory[address]`.
    Ldr(u8, u8),
    /// `Str(src, address)`: `memory[address] = reg[src]`.
    Str(u8, u8),
}

/// The word held an opcode tag outside the recognized set {1..6}.
#[derive(Debug, Clone, Copy, PartialEq, Eq, Structural)]
pub struct DecodeError;

impl Instr {
    /// All register-index operands are in range for the four-cell register
    /// file. Every instruction produced by `decode` satisfies this.
    pub open spec fn wf(self) -> bool {
        match self {
            Instr::And(rd, rs1, rs2) => rd < 4 && rs1 < 4 && rs2 < 4,
            Instr::Add(rd, rs1, rs2) => rd < 4 && rs1 < 4 && rs2 < 4,
            Instr::Sub(rd, rs1, rs2) => rd < 4 && rs1 < 4 && rs2 < 4,
            Instr::Mov(rd, _) => rd < 4,
            Instr::Ldr(rd, _) => rd < 4,
            Instr::Str(rs, _) => rs < 4,
        }
    }
}

/// The word for a three-register opcode: src1 in bits [1:0], src2 in
/// bits [3:2], dst in bits [5:4], tag in bits [15:12].
pub open spec fn three_reg_word(tag: u16, rd: u8, rs1: u8, rs2: u8) -> u16 {
    (tag << 12) | (((rd & 3) as u16) << 4) | (((rs2 & 3) as u16) << 2) | ((rs1 & 3) as u16)
}

/// The word for a register+immediate opcode: immediate in bits [7:0],
/// register index in bits [9:8], tag in bits [15:12].
pub open spec fn reg_imm_word(tag: u16, rd: u8, imm: u8) -> u16 {
    (tag << 12) | (((rd & 3) as u16) << 8) | (imm as u16)
}

/// What `encode` returns: the opcode tag in the top 4 bits and the operands
/// packed into the documented bit positions, register indices masked to
/// their two-bit field.
pub open spec fn encode_spec(i: Instr) -> u16 {
    match i {
        Instr::And(rd, rs1, rs2) => three_reg_word(1, rd, rs1, rs2),
        Instr::Mov(rd, v) => reg_imm_word(2, rd, v),
        Instr::Add(rd, rs1, rs2) => three_reg_word(3, rd, rs1, rs2),
        Instr::Sub(rd, rs1, rs2) => three_reg_word(4, rd, rs1, rs2),
        Instr::Ldr(rd, a) => reg_imm_word(5, rd, a),
        Instr::Str(rs, a) => reg_imm_word(6, rs, a),
    }
}

/// The src1 field of a three-register word: bits [1:0].
pub open spec fn field_rs1(w: u16) -> u8 {
    (w & 3) as u8
}

/// The src2 field of a three-register word: bits [3:2].
pub open spec fn field_rs2(w: u16) -> u8 {
    ((w >> 2) & 3) as u8
}

/// The dst field of a three-register word: bits [5:4].
pub open spec fn field_rd(w: u16) -> u8 {
    ((w >> 4) & 3) as u8
}

/// The register field of a register+immediate word: bits [9:8].
pub open spec fn field_reg(w: u16) -> u8 {
    ((w >> 8) & 3) as u8
}

/// The immediate/address field of a register+immediate word: bits [7:0].
pub open spec fn field_imm(w: u16) -> u8 {
    (w & 0xFF) as u8
}

/// What `decode` returns: the instruction whose operands stand in the
/// word's bit-fields, or `DecodeError` when the tag is not in {1..6}.
pub open spec fn decode_spec(w: u16) -> Result<Instr, DecodeError> {
    let tag = w >> 12;
    if tag == 1 {
        Ok(Instr::And(field_rd(w), field_rs1(w), field_rs2(w)))
    } else if tag == 2 {
        Ok(Instr::Mov(field_reg(w), field_imm(w)))
    } else if tag == 3 {
        Ok(Instr::Add(field_rd(w), field_rs1(w), field_rs2(w)))
    } else if tag == 4 {
        Ok(Instr::Sub(field_rd(w), field_rs1(w), field_rs2(w)))
    } else if tag == 5 {
        Ok(Instr::Ldr(field_reg(w), field_imm(w)))
    } else if tag == 6 {
        Ok(Instr::Str(field_reg(w), field_imm(w)))
    } else {
        Err(DecodeError)
    }
}

/// Packs an instruction into its 16-bit word. Register indices wider than
/// their two-bit field are truncated rather than rejected; immediates and
/// addresses fit their eight-bit field exactly.
pub fn encode(i: Instr) -> (w: u16)
    ensures
        w == encode_spec(i),
{
    match i {
        Instr::And(rd, rs1, rs2) => {
            (1u16 << 12) | (((rd & 3) as u16) << 4) | (((rs2 & 3) as u16) << 2) | ((rs1
                & 3) as u16)
        },
        Instr::Mov(rd, v) => (2u16 << 12) | (((rd & 3) as u16) << 8) | (v as u16),
        Instr::Add(rd, rs1, rs2) => {
            (3u16 << 12) | (((rd & 3) as u16) << 4) | (((rs2 & 3) as u16) << 2) | ((rs1
                & 3) as u16)
        },
        Instr::Sub(rd, rs1, rs2) => {
            (4u16 << 12) | (((rd & 3) as u16) << 4) | (((rs2 & 3) as u16) << 2) | ((rs1
                & 3) as u16)
        },
        Instr::Ldr(rd, a) => (5u16 << 12) | (((rd & 3) as u16) << 8) | (a as u16),
        Instr::Str(rs, a) => (6u16 << 12) | (((rs & 3) as u16) << 8) | (a as u16),
    }
}

/// Unpacks a 16-bit word into the instruction it encodes. Fails with
/// `DecodeError` exactly when the opcode tag (top 4 bits) is 0 or 7-15;
/// every successfully decoded instruction has in-range register indices.
pub fn decode(word: u16) -> (r: Result<Instr, DecodeError>)
    ensures
        r == decode_spec(word),
        r is Ok <==> 1 <= word >> 12 <= 6,
        r is Ok ==> r->Ok_0.wf(),
{
    let tag: u16 = word >> 12;
    if tag == 1 || tag == 3 || tag == 4 {
        proof {
            assert((word & 3) < 4 && ((word >> 2) & 3) < 4 && ((word >> 4) & 3) < 4)
                by (bit_vector);
        }
        let rs1: u8 = (word & 3) as u8;
        let rs2: u8 = ((word >> 2) & 3) as u8;
        let rd: u8 = ((word >> 4) & 3) as u8;
        if tag == 1 {
            Ok(Instr::And(rd, rs1, rs2))
        } else if tag == 3 {
            Ok(Instr::Add(rd, rs1, rs2))
        } else {
            Ok(Instr::Sub(rd, rs1, rs2))
        }
    } else if tag == 2 || tag == 5 || tag == 6 {
        proof {
            assert(((word >> 8) & 3) < 4 && (word & 0xFF) < 256) by (bit_vector);
        }
        let reg: u8 = ((word >> 8) & 3) as u8;
        let imm: u8 = (word & 0xFF) as u8;
        if tag == 2 {
            Ok(Instr::Mov(reg, imm))
        } else if tag == 5 {
            Ok(Instr::Ldr(reg, imm))
        } else {
            Ok(Instr::Str(reg, imm))
        }
    } else {
        Err(DecodeError)
    }
}

/// Round-trip law: every instruction with in-range register indices decodes
/// back to itself from its own encoding.
pub proof fn lemma_encode_decode_roundtrip(i: Instr)
    requires
        i.wf(),
    ensures
        decode_spec(encode_spec(i)) == Ok::<Instr, DecodeError>(i),
{
    match i {
        Instr::And(rd, rs1, rs2) => {
            assert(three_reg_word(1, rd, rs1, rs2) >> 12 == 1 && field_rd(
                three_reg_word(1, rd, rs1, rs2),
            ) == rd && field_rs1(three_reg_word(1, rd, rs1, rs2)) == rs1 && field_rs2(
                three_reg_word(1, rd, rs1, rs2),
            ) == rs2) by (bit_vector)
                requires
                    rd < 4 && rs1 < 4 && rs2 < 4,
            ;
        },
        Instr::Mov(rd, v) => {
            assert(reg_imm_word(2, rd, v) >> 12 == 2 && field_reg(reg_imm_word(2, rd, v)) == rd
                && field_imm(reg_imm_word(2, rd, v)) == v) by (bit_vector)
                requires
                    rd < 4,
            ;
        },
        Instr::Add(rd, rs1, rs2) => {
            assert(three_reg_word(3, rd, rs1, rs2) >> 12 == 3 && field_rd(
                three_reg_word(3, rd, rs1, rs2),
            ) == rd && field_rs1(three_reg_word(3, rd, rs1, rs2)) == rs1 && field_rs2(
                three_reg_word(3, rd, rs1, rs2),
            ) == rs2) by (bit_vector)
                requires
                    rd < 4 && rs1 < 4 && rs2 < 4,
            ;
        },
        Instr::Sub(rd, rs1, rs2) => {
            assert(three_reg_word(4, rd, rs1, rs2) >> 12 == 4 && field_rd(
                three_reg_word(4, rd, rs1, rs2),
            ) == rd && field_rs1(three_reg_word(4, rd, rs1, rs2)) == rs1 && field_rs2(
                three_reg_word(4, rd, rs1, rs2),
            ) == rs2) by (bit_vector)
                requires
                    rd < 4 && rs1 < 4 && rs2 < 4,
            ;
        },
        Instr::Ldr(rd, a) => {
            assert(reg_imm_word(5, rd, a) >> 12 == 5 && field_reg(reg_imm_word(5, rd, a)) == rd
                && field_imm(reg_imm_word(5, rd, a)) == a) by (bit_vector)
                requires
                    rd < 4,
            ;
        },
        Instr::Str(rs, a) => {
            assert(reg_imm_word(6, rs, a) >> 12 == 6 && field_reg(reg_imm_word(6, rs, a)) == rs
                && field_imm(reg_imm_word(6, rs, a)) == a) by (bit_vector)
                requires
                    rs < 4,
            ;
        },
    }
}

} // verus!
