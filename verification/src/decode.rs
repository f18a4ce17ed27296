//! The decoder: fixed bit fields of a 32-bit instruction word, and the
//! operation that a word names.

use vstd::prelude::*;

verus! {

/// Opcode of add-immediate (I-type).
pub const OPCODE_ADD_IMMEDIATE: u32 = 0x13;

/// Opcode of register-register add (R-type).
pub const OPCODE_ADD: u32 = 0x33;

/// Bits [6:0] of the word.
pub open spec fn opcode_of(inst: u32) -> u32 {
    inst & 0x7f
}

/// Bits [11:7] of the word: the destination register index.
pub open spec fn rd_of(inst: u32) -> u32 {
    (inst >> 7) & 0x1f
}

/// Bits [19:15] of the word: the first source register index.
pub open spec fn rs1_of(inst: u32) -> u32 {
    (inst >> 15) & 0x1f
}

/// Bits [24:20] of the word: the second source register index.
pub open spec fn rs2_of(inst: u32) -> u32 {
    (inst >> 20) & 0x1f
}

/// Bits [31:20] of the word as an unsigned 12-bit number.
pub open spec fn imm_bits_of(inst: u32) -> u32 {
    inst >> 20
}

/// The value of a 12-bit two's-complement field: fields with the sign bit
/// (bit 11) set stand for `bits - 4096`.
pub open spec fn sign_extend_12(bits: int) -> int {
    if bits >= 0x800 {
        bits - 0x1000
    } else {
        bits
    }
}

/// Bits [31:20] of the word read as a signed 12-bit immediate.
pub open spec fn imm_i_of(inst: u32) -> int {
    sign_extend_12(imm_bits_of(inst) as int)
}

/// The fields of one instruction word. `raw` keeps the whole word, so that
/// further layouts can be read from it.
#[derive(Clone, Copy, Debug, PartialEq, Eq, Structural)]
pub struct Fields {
    pub raw: u32,
    pub opcode: u32,
    pub rd: usize,
    pub rs1: usize,
    pub rs2: usize,
    pub imm_i: i64,
}

/// What the decoder yields for `inst`.
pub open spec fn fields_of(inst: u32) -> Fields {
    Fields {
        raw: inst,
        opcode: opcode_of(inst),
        rd: rd_of(inst) as usize,
        rs1: rs1_of(inst) as usize,
        rs2: rs2_of(inst) as usize,
        imm_i: imm_i_of(inst) as i64,
    }
}

/// The semantic operation that a word names.
#[derive(Clone, Copy, Debug, PartialEq, Eq, Structural)]
pub enum Operation {
    /// `registers[rd] = registers[rs1] + imm`, modulo 2^64.
    AddImmediate { rd: usize, rs1: usize, imm: i64 },
    /// `registers[rd] = registers[rs1] + registers[rs2]`, modulo 2^64.
    Add { rd: usize, rs1: usize, rs2: usize },
    /// An opcode without defined semantics.
    Unimplemented { opcode: u32 },
}

/// Whether the opcode has defined semantics.
pub open spec fn implemented(opcode: u32) -> bool {
    opcode == OPCODE_ADD_IMMEDIATE || opcode == OPCODE_ADD
}

/// The operation selected by the opcode of `f`.
pub open spec fn operation_of(f: Fields) -> Operation {
    if f.opcode == OPCODE_ADD_IMMEDIATE {
        Operation::AddImmediate { rd: f.rd, rs1: f.rs1, imm: f.imm_i }
    } else if f.opcode == OPCODE_ADD {
        Operation::Add { rd: f.rd, rs1: f.rs1, rs2: f.rs2 }
    } else {
        Operation::Unimplemented { opcode: f.opcode }
    }
}

impl Fields {
    /// Every register index fits the register file, and the immediate is a
    /// 12-bit signed value.
    pub open spec fn in_range(self) -> bool {
        &&& self.opcode < 128
        &&& self.rd < 32
        &&& self.rs1 < 32
        &&& self.rs2 < 32
        &&& -2048 <= self.imm_i < 2048
    }

    /// Dispatches on the opcode.
    pub fn operation(&self) -> (op: Operation)
        ensures
            op == operation_of(*self),
    {
        if self.opcode == OPCODE_ADD_IMMEDIATE {
            Operation::AddImmediate { rd: self.rd, rs1: self.rs1, imm: self.imm_i }
        } else if self.opcode == OPCODE_ADD {
            Operation::Add { rd: self.rd, rs1: self.rs1, rs2: self.rs2 }
        } else {
            Operation::Unimplemented { opcode: self.opcode }
        }
    }
}

/// The bit fields are bounded by their widths.
pub proof fn lemma_field_bounds(inst: u32)
    ensures
        opcode_of(inst) < 128,
        rd_of(inst) < 32,
        rs1_of(inst) < 32,
        rs2_of(inst) < 32,
        imm_bits_of(inst) < 4096,
        -2048 <= imm_i_of(inst) < 2048,
        fields_of(inst).in_range(),
{
    assert(inst & 0x7f < 128) by (bit_vector);
    assert((inst >> 7) & 0x1f < 32) by (bit_vector);
    assert((inst >> 15) & 0x1f < 32) by (bit_vector);
    assert((inst >> 20) & 0x1f < 32) by (bit_vector);
    assert(inst >> 20 < 4096) by (bit_vector);
}

/// Extracts the fields of an instruction word.
pub fn decode(inst: u32) -> (f: Fields)
    ensures
        f == fields_of(inst),
        f.in_range(),
{
    proof {
        lemma_field_bounds(inst);
    }
    let opcode: u32 = inst & 0x7f;
    let rd: u32 = (inst >> 7) & 0x1f;
    let rs1: u32 = (inst >> 15) & 0x1f;
    let rs2: u32 = (inst >> 20) & 0x1f;
    let bits: u32 = inst >> 20;
    let imm_i: i64 = if bits >= 0x800 {
        bits as i64 - 0x1000
    } else {
        bits as i64
    };
    Fields { raw: inst, opcode, rd: rd as usize, rs1: rs1 as usize, rs2: rs2 as usize, imm_i }
}

} // verus!
