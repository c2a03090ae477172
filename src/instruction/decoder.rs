//! Decodes RISC-V 32I instructions.
use vstd::prelude::*;

use super::{
    bit30, function_of, funct3_bits, opcode_of, DecodeError, Fields, Format, Function, Instruction,
    Opcode, Semantics,
};
use crate::alu::{AluOp, AluSrc};
use crate::consts::{
    BIT30_MASK, BIT30_SHIFT, FUNCT3_MASK, FUNCT3_SHIFT, FUNCT7_MASK, FUNCT7_SHIFT, OPCODE_MASK,
    RD_MASK, RD_SHIFT, RS1_MASK, RS1_SHIFT, RS2_MASK, RS2_SHIFT,
};

verus! {

/// Bits `[11:7]`: the destination register.
pub open spec fn rd_bits(w: u32) -> u32 {
    (w >> 7) & 0x1f
}

/// Bits `[19:15]`: the first source register.
pub open spec fn rs1_bits(w: u32) -> u32 {
    (w >> 15) & 0x1f
}

/// Bits `[24:20]`: the second source register.
pub open spec fn rs2_bits(w: u32) -> u32 {
    (w >> 20) & 0x1f
}

/// Bits `[31:25]`.
pub open spec fn funct7_bits(w: u32) -> u32 {
    w >> 25
}

/// I-type immediate: the shift amount for shifts, else bits `[31:20]`.
pub open spec fn imm_i(w: u32) -> u32 {
    if funct3_bits(w) == 1 || funct3_bits(w) == 5 {
        rs2_bits(w)
    } else {
        w >> 20
    }
}

/// S-type immediate: `bits[31:25] << 5 | bits[11:7]`.
pub open spec fn imm_s(w: u32) -> u32 {
    ((w >> 25) << 5) | ((w >> 7) & 0x1f)
}

/// B-type immediate:
/// `bit[31] << 12 | bit[7] << 11 | bits[30:25] << 5 | bits[11:8] << 1`.
pub open spec fn imm_b(w: u32) -> u32 {
    (((w >> 31) & 1) << 12) | (((w >> 7) & 1) << 11) | (((w >> 25) & 0x3f) << 5) | (((w >> 8)
        & 0xf) << 1)
}

/// U-type immediate: `bits[31:12] << 12`.
pub open spec fn imm_u(w: u32) -> u32 {
    (w >> 12) << 12
}

/// J-type immediate:
/// `bit[31] << 20 | bits[19:12] << 12 | bit[20] << 11 | bits[30:21] << 1`.
pub open spec fn imm_j(w: u32) -> u32 {
    (((w >> 31) & 1) << 20) | (((w >> 12) & 0xff) << 12) | (((w >> 20) & 1) << 11) | (((w >> 21)
        & 0x3ff) << 1)
}

/// The field slice of word `w` under format `f`.
pub open spec fn decoded_fields(f: Format, w: u32) -> Fields {
    let opcode = Some(w & 0x7f);
    match f {
        Format::R => Fields {
            rs1: Some(rs1_bits(w)),
            rs2: Some(rs2_bits(w)),
            rd: Some(rd_bits(w)),
            funct3: Some(funct3_bits(w)),
            funct7: Some(funct7_bits(w)),
            imm: None,
            opcode,
        },
        Format::I => Fields {
            rs1: Some(rs1_bits(w)),
            rs2: None,
            rd: Some(rd_bits(w)),
            funct3: Some(funct3_bits(w)),
            funct7: None,
            imm: Some(imm_i(w)),
            opcode,
        },
        Format::S => Fields {
            rs1: Some(rs1_bits(w)),
            rs2: Some(rs2_bits(w)),
            rd: None,
            funct3: Some(funct3_bits(w)),
            funct7: None,
            imm: Some(imm_s(w)),
            opcode,
        },
        Format::B => Fields {
            rs1: Some(rs1_bits(w)),
            rs2: Some(rs2_bits(w)),
            rd: None,
            funct3: Some(funct3_bits(w)),
            funct7: None,
            imm: Some(imm_b(w)),
            opcode,
        },
        Format::U => Fields {
            rs1: None,
            rs2: None,
            rd: Some(rd_bits(w)),
            funct3: None,
            funct7: None,
            imm: Some(imm_u(w)),
            opcode,
        },
        Format::J => Fields {
            rs1: None,
            rs2: None,
            rd: Some(rd_bits(w)),
            funct3: None,
            funct7: None,
            imm: Some(imm_j(w)),
            opcode,
        },
    }
}

/// The ALU operation of mnemonic `f` under opcode `op`, where the pair has one.
pub open spec fn alu_op_of(op: Opcode, f: Function) -> Option<AluOp> {
    match (op, f) {
        (Opcode::Load, _) | (Opcode::Store, _) | (Opcode::Jalr, _) => Some(AluOp::Add),
        (Opcode::Lui, _) | (Opcode::AuiPc, _) | (Opcode::Halt, _) => Some(AluOp::Add),
        (Opcode::Jal, _) => Some(AluOp::BranchOnEqual),
        (Opcode::Branch, Function::Beq) => Some(AluOp::BranchOnEqual),
        (Opcode::Branch, Function::Bne) => Some(AluOp::BranchOnNotEqual),
        (Opcode::Branch, Function::Blt) => Some(AluOp::BranchOnLessThan),
        (Opcode::Branch, Function::Bltu) => Some(AluOp::BranchOnLessThanUnsigned),
        (Opcode::Branch, Function::Bge) => Some(AluOp::BranchOnGreaterOrEqual),
        (Opcode::Branch, Function::Bgeu) => Some(AluOp::BranchOnGreaterOrEqualUnsigned),
        (Opcode::OpImm, Function::Addi) | (Opcode::Op, Function::Add) => Some(AluOp::Add),
        (Opcode::Op, Function::Sub) => Some(AluOp::Sub),
        (Opcode::OpImm, Function::Slti) | (Opcode::Op, Function::Slt) => Some(
            AluOp::SetOnLessThan,
        ),
        (Opcode::OpImm, Function::Sltiu) | (Opcode::Op, Function::Sltu) => Some(
            AluOp::SetOnLessThanUnsigned,
        ),
        (Opcode::OpImm, Function::Xori) | (Opcode::Op, Function::Xor) => Some(AluOp::Xor),
        (Opcode::OpImm, Function::Ori) | (Opcode::Op, Function::Or) => Some(AluOp::Or),
        (Opcode::OpImm, Function::Andi) | (Opcode::Op, Function::And) => Some(AluOp::And),
        (Opcode::OpImm, Function::Slli) | (Opcode::Op, Function::Sll) => Some(AluOp::ShiftLeft),
        (Opcode::OpImm, Function::Srli) | (Opcode::Op, Function::Srl) => Some(
            AluOp::ShiftRightLogical,
        ),
        (Opcode::OpImm, Function::Srai) | (Opcode::Op, Function::Sra) => Some(
            AluOp::ShiftRightArithmetic,
        ),
        _ => None,
    }
}

/// Bytes that a load or store mnemonic moves; 0 for the others.
pub open spec fn mem_size_of(f: Function) -> usize {
    match f {
        Function::Lb | Function::Lbu | Function::Sb => 1,
        Function::Lh | Function::Lhu | Function::Sh => 2,
        Function::Lw | Function::Sw => 4,
        _ => 0,
    }
}

/// The control semantics of mnemonic `f` under opcode `op`, per the
/// control table; none where the pair has no ALU operation.
pub open spec fn semantics_of(op: Opcode, f: Function) -> Option<Semantics> {
    match alu_op_of(op, f) {
        None => None,
        Some(alu_op) => Some(
            Semantics {
                branch: op == Opcode::Branch || op == Opcode::Jal || op == Opcode::Jalr,
                mem_read: op == Opcode::Load,
                mem_to_reg: op == Opcode::Load,
                alu_op,
                mem_write: op == Opcode::Store,
                alu_src: if op == Opcode::Branch || op == Opcode::Op || op == Opcode::Jal {
                    AluSrc::Reg
                } else {
                    AluSrc::Imm
                },
                reg_write: !(op == Opcode::Branch || op == Opcode::Store || op == Opcode::Halt),
                mem_size: mem_size_of(f),
            },
        ),
    }
}

/// The masks and shifts of the decoder select the bit slices above.
proof fn lemma_slices(w: u32)
    ensures
        (w & 0x7000) >> 12u32 == funct3_bits(w),
        (w & 0xfe000000) >> 25u32 == funct7_bits(w),
        (w & 0xf8000) >> 15u32 == rs1_bits(w),
        (w & 0x1f00000) >> 20u32 == rs2_bits(w),
        (w & 0xf80) >> 7u32 == rd_bits(w),
        (w & 0x40000000) >> 30u32 == bit30(w),
        (w & 0xfff00000) >> 20u32 == w >> 20,
        bit30(w) == 0 || bit30(w) == 1,
{
    assert((w & 0x7000) >> 12u32 == (w >> 12) & 0x7 && (w & 0xfe000000) >> 25u32 == w >> 25 && (w
        & 0xf8000) >> 15u32 == (w >> 15) & 0x1f && (w & 0x1f00000) >> 20u32 == (w >> 20) & 0x1f
        && (w & 0xf80) >> 7u32 == (w >> 7) & 0x1f && (w & 0x40000000) >> 30u32 == (w >> 30) & 1
        && (w & 0xfff00000) >> 20u32 == w >> 20 && ((w >> 30) & 1 == 0 || (w >> 30) & 1 == 1))
        by (bit_vector);
}

/// Register fields are five bits wide.
pub proof fn lemma_register_fields(w: u32)
    ensures
        rd_bits(w) < 32,
        rs1_bits(w) < 32,
        rs2_bits(w) < 32,
{
    assert((w >> 7) & 0x1f < 32 && (w >> 15) & 0x1f < 32 && (w >> 20) & 0x1f < 32) by (bit_vector);
}

/// The fields of an R-type decoding cover the whole word without
/// overlapping: shifted back into place, they reassemble it.
pub proof fn lemma_r_fields_reassemble(w: u32)
    ensures
        (funct7_bits(w) << 25u32) | (rs2_bits(w) << 20u32) | (rs1_bits(w) << 15u32) | (
        funct3_bits(w) << 12u32) | (rd_bits(w) << 7u32) | (w & 0x7f) == w,
{
    assert(((w >> 25) << 25u32) | (((w >> 20) & 0x1f) << 20u32) | (((w >> 15) & 0x1f) << 15u32)
        | (((w >> 12) & 0x7) << 12u32) | (((w >> 7) & 0x1f) << 7u32) | (w & 0x7f) == w)
        by (bit_vector);
}

/// The fields of the canonical NOP.
pub proof fn lemma_nop_fields()
    ensures
        opcode_of(0x13) == Some(Opcode::OpImm),
        function_of(Opcode::OpImm, 0x13) == Some(Function::Addi),
        decoded_fields(Format::I, 0x13) == (Fields {
            rs1: Some(0),
            rs2: None,
            rd: Some(0),
            funct3: Some(0),
            funct7: None,
            imm: Some(0),
            opcode: Some(0x13),
        }),
{
    let w: u32 = 0x13;
    assert(w & 0x7f == 0x13 && (w >> 12) & 0x7 == 0 && (w >> 15) & 0x1f == 0 && (w >> 7) & 0x1f
        == 0 && w >> 20 == 0) by (bit_vector)
        requires
            w == 0x13,
    ;
}

/// Decodes the fields, mnemonic and control semantics of `insn` from its
/// word, opcode and format.
pub fn decode(insn: &mut Instruction) -> (r: Result<(), DecodeError>)
    ensures
        final(insn).word() == old(insn).word(),
        final(insn).opcode == old(insn).opcode,
        final(insn).format == old(insn).format,
        final(insn).fields == decoded_fields(old(insn).format, old(insn).word()),
        match function_of(old(insn).opcode, old(insn).word()) {
            None => r == Err::<(), DecodeError>(DecodeError::UnknownFunction(old(insn).word())),
            Some(f) => match semantics_of(old(insn).opcode, f) {
                None => r == Err::<(), DecodeError>(DecodeError::UnsupportedSemantics(f)),
                Some(s) => r is Ok && final(insn).function == f && final(insn).semantics == s,
            },
        },
{
    insn.fields = match insn.format {
        Format::R => parse_type_r(insn.value),
        Format::I => parse_type_i(insn.value),
        Format::S => parse_type_s(insn.value),
        Format::B => parse_type_b(insn.value),
        Format::U => parse_type_u(insn.value),
        Format::J => parse_type_j(insn.value),
    };
    insn.function = insn_to_fn(insn)?;
    insn.semantics = insn_to_semantics(insn)?;
    Ok(())
}

/// Determines an instruction's mnemonic, e.g., JAL, XOR, or SRA.
pub fn insn_to_fn(insn: &Instruction) -> (r: Result<Function, DecodeError>)
    ensures
        match function_of(insn.opcode, insn.word()) {
            Some(f) => r == Ok::<Function, DecodeError>(f),
            None => r == Err::<Function, DecodeError>(DecodeError::UnknownFunction(insn.word())),
        },
{
    let w = insn.value;
    proof {
        lemma_slices(w);
    }
    let bit30 = (w & BIT30_MASK) >> BIT30_SHIFT;
    let funct3 = (w & FUNCT3_MASK) >> FUNCT3_SHIFT;
    let f = match insn.opcode {
        Opcode::Lui => Function::Lui,
        Opcode::AuiPc => Function::AuiPc,
        Opcode::Jal => Function::Jal,
        Opcode::Jalr => Function::Jalr,
        Opcode::Halt => Function::Halt,
        Opcode::Branch => match funct3 {
            0b000 => Function::Beq,
            0b001 => Function::Bne,
            0b100 => Function::Blt,
            0b101 => Function::Bge,
            0b110 => Function::Bltu,
            0b111 => Function::Bgeu,
            _ => return Err(DecodeError::UnknownFunction(w)),
        },
        Opcode::Load => match funct3 {
            0b000 => Function::Lb,
            0b001 => Function::Lh,
            0b010 => Function::Lw,
            0b100 => Function::Lbu,
            0b101 => Function::Lhu,
            _ => return Err(DecodeError::UnknownFunction(w)),
        },
        Opcode::Store => match funct3 {
            0b000 => Function::Sb,
            0b001 => Function::Sh,
            0b010 => Function::Sw,
            _ => return Err(DecodeError::UnknownFunction(w)),
        },
        Opcode::OpImm => match funct3 {
            0b000 => Function::Addi,
            0b001 => Function::Slli,
            0b010 => Function::Slti,
            0b011 => Function::Sltiu,
            0b100 => Function::Xori,
            0b101 => if bit30 == 0 {
                Function::Srli
            } else {
                Function::Srai
            },
            0b110 => Function::Ori,
            _ => Function::Andi,
        },
        Opcode::Op => match funct3 {
            0b000 => if bit30 == 0 {
                Function::Add
            } else {
                Function::Sub
            },
            0b001 => Function::Sll,
            0b010 => Function::Slt,
            0b011 => Function::Sltu,
            0b100 => Function::Xor,
            0b101 => if bit30 == 0 {
                Function::Srl
            } else {
                Function::Sra
            },
            0b110 => Function::Or,
            _ => Function::And,
        },
    };
    Ok(f)
}

/// Determines an instruction's control unit semantics.
pub fn insn_to_semantics(insn: &Instruction) -> (r: Result<Semantics, DecodeError>)
    ensures
        match semantics_of(insn.opcode, insn.function) {
            Some(s) => r == Ok::<Semantics, DecodeError>(s),
            None => r == Err::<Semantics, DecodeError>(
                DecodeError::UnsupportedSemantics(insn.function),
            ),
        },
{
    let alu_op = match (insn.opcode, insn.function) {
        (Opcode::Load, _) | (Opcode::Store, _) | (Opcode::Jalr, _) => AluOp::Add,
        (Opcode::Lui, _) | (Opcode::AuiPc, _) | (Opcode::Halt, _) => AluOp::Add,
        (Opcode::Jal, _) => AluOp::BranchOnEqual,
        (Opcode::Branch, Function::Beq) => AluOp::BranchOnEqual,
        (Opcode::Branch, Function::Bne) => AluOp::BranchOnNotEqual,
        (Opcode::Branch, Function::Blt) => AluOp::BranchOnLessThan,
        (Opcode::Branch, Function::Bltu) => AluOp::BranchOnLessThanUnsigned,
        (Opcode::Branch, Function::Bge) => AluOp::BranchOnGreaterOrEqual,
        (Opcode::Branch, Function::Bgeu) => AluOp::BranchOnGreaterOrEqualUnsigned,
        (Opcode::OpImm, Function::Addi) | (Opcode::Op, Function::Add) => AluOp::Add,
        (Opcode::Op, Function::Sub) => AluOp::Sub,
        (Opcode::OpImm, Function::Slti) | (Opcode::Op, Function::Slt) => AluOp::SetOnLessThan,
        (Opcode::OpImm, Function::Sltiu) | (Opcode::Op, Function::Sltu) => {
            AluOp::SetOnLessThanUnsigned
        },
        (Opcode::OpImm, Function::Xori) | (Opcode::Op, Function::Xor) => AluOp::Xor,
        (Opcode::OpImm, Function::Ori) | (Opcode::Op, Function::Or) => AluOp::Or,
        (Opcode::OpImm, Function::Andi) | (Opcode::Op, Function::And) => AluOp::And,
        (Opcode::OpImm, Function::Slli) | (Opcode::Op, Function::Sll) => AluOp::ShiftLeft,
        (Opcode::OpImm, Function::Srli) | (Opcode::Op, Function::Srl) => {
            AluOp::ShiftRightLogical
        },
        (Opcode::OpImm, Function::Srai) | (Opcode::Op, Function::Sra) => {
            AluOp::ShiftRightArithmetic
        },
        _ => return Err(DecodeError::UnsupportedSemantics(insn.function)),
    };
    let op = insn.opcode;
    let branch = match op {
        Opcode::Branch | Opcode::Jal | Opcode::Jalr => true,
        _ => false,
    };
    let alu_src = match op {
        Opcode::Branch | Opcode::Op | Opcode::Jal => AluSrc::Reg,
        _ => AluSrc::Imm,
    };
    let reg_write = match op {
        Opcode::Branch | Opcode::Store | Opcode::Halt => false,
        _ => true,
    };
    let mem_size: usize = match insn.function {
        Function::Lb | Function::Lbu | Function::Sb => 1,
        Function::Lh | Function::Lhu | Function::Sh => 2,
        Function::Lw | Function::Sw => 4,
        _ => 0,
    };
    Ok(
        Semantics {
            branch,
            mem_read: op == Opcode::Load,
            mem_to_reg: op == Opcode::Load,
            alu_op,
            mem_write: op == Opcode::Store,
            alu_src,
            reg_write,
            mem_size,
        },
    )
}

/// Parses the fields of an R-type instruction.
pub fn parse_type_r(insn: u32) -> (r: Fields)
    ensures
        r == decoded_fields(Format::R, insn),
{
    proof {
        lemma_slices(insn);
    }
    Fields {
        opcode: Some(insn & OPCODE_MASK),
        funct3: Some((insn & FUNCT3_MASK) >> FUNCT3_SHIFT),
        funct7: Some((insn & FUNCT7_MASK) >> FUNCT7_SHIFT),
        rs1: Some((insn & RS1_MASK) >> RS1_SHIFT),
        rs2: Some((insn & RS2_MASK) >> RS2_SHIFT),
        rd: Some((insn & RD_MASK) >> RD_SHIFT),
        imm: None,
    }
}

/// Parses the fields of an I-type instruction.
pub fn parse_type_i(insn: u32) -> (r: Fields)
    ensures
        r == decoded_fields(Format::I, insn),
{
    proof {
        lemma_slices(insn);
    }
    let funct3 = (insn & FUNCT3_MASK) >> FUNCT3_SHIFT;
    let imm = if funct3 == 0x1 || funct3 == 0x5 {
        // Shift: insn[24:20] -> shamt
        (insn & RS2_MASK) >> RS2_SHIFT
    } else {
        // Arithmetic or logical: insn[31:20] -> imm[11:0]
        (insn & 0xfff00000) >> 20
    };
    Fields {
        opcode: Some(insn & OPCODE_MASK),
        funct3: Some(funct3),
        funct7: None,
        rs1: Some((insn & RS1_MASK) >> RS1_SHIFT),
        rs2: None,
        rd: Some((insn & RD_MASK) >> RD_SHIFT),
        imm: Some(imm),
    }
}

/// Parses the fields of an S-type instruction.
pub fn parse_type_s(insn: u32) -> (r: Fields)
    ensures
        r == decoded_fields(Format::S, insn),
{
    proof {
        lemma_slices(insn);
    }
    // insn[31:25] -> imm[11:5]
    let imm_high = (insn & 0xfe000000) >> 20;
    // insn[11:7] -> imm[4:0]
    let imm_low = (insn & 0xf80) >> 7;
    assert(((insn & 0xfe000000) >> 20) | ((insn & 0xf80) >> 7) == imm_s(insn)) by (bit_vector);
    Fields {
        opcode: Some(insn & OPCODE_MASK),
        funct3: Some((insn & FUNCT3_MASK) >> FUNCT3_SHIFT),
        funct7: None,
        rs1: Some((insn & RS1_MASK) >> RS1_SHIFT),
        rs2: Some((insn & RS2_MASK) >> RS2_SHIFT),
        rd: None,
        imm: Some(imm_high | imm_low),
    }
}

/// Parses the fields of a B-type instruction.
pub fn parse_type_b(insn: u32) -> (r: Fields)
    ensures
        r == decoded_fields(Format::B, insn),
{
    proof {
        lemma_slices(insn);
    }
    // insn[7] -> imm[11]
    let imm_bit_11 = (insn & 0x80) << 4;
    // insn[31] -> imm[12]
    let imm_bit_12 = (insn & 0x80000000) >> 19;
    // insn[30:25] -> imm[10:5]
    let imm_high = (insn & 0x7e000000) >> 20;
    // insn[11:8] -> imm[4:1]
    let imm_low = (insn & 0xf00) >> 7;
    assert(((insn & 0x80000000) >> 19) | ((insn & 0x80) << 4) | ((insn & 0x7e000000) >> 20) | ((
    insn & 0xf00) >> 7) == imm_b(insn)) by (bit_vector);
    Fields {
        opcode: Some(insn & OPCODE_MASK),
        funct3: Some((insn & FUNCT3_MASK) >> FUNCT3_SHIFT),
        funct7: None,
        rs1: Some((insn & RS1_MASK) >> RS1_SHIFT),
        rs2: Some((insn & RS2_MASK) >> RS2_SHIFT),
        rd: None,
        imm: Some(imm_bit_12 | imm_bit_11 | imm_high | imm_low),
    }
}

/// Parses the fields of a U-type instruction.
pub fn parse_type_u(insn: u32) -> (r: Fields)
    ensures
        r == decoded_fields(Format::U, insn),
{
    proof {
        lemma_slices(insn);
    }
    // insn[31:12] -> imm[31:12]
    assert(insn & 0xfffff000 == imm_u(insn)) by (bit_vector);
    Fields {
        opcode: Some(insn & OPCODE_MASK),
        funct3: None,
        funct7: None,
        rs1: None,
        rs2: None,
        rd: Some((insn & RD_MASK) >> RD_SHIFT),
        imm: Some(insn & 0xfffff000),
    }
}

/// Parses the fields of a J-type instruction.
pub fn parse_type_j(insn: u32) -> (r: Fields)
    ensures
        r == decoded_fields(Format::J, insn),
{
    proof {
        lemma_slices(insn);
    }
    // insn[31] -> imm[20]
    let imm_bit_20 = (insn & 0x80000000) >> 11;
    // insn[30:21] -> imm[10:1]
    let imm_low = (insn & 0x7fe00000) >> 20;
    // insn[20] -> imm[11]
    let imm_bit_11 = (insn & 0x100000) >> 9;
    // insn[19:12] -> imm[19:12]
    let imm_high = insn & 0xff000;
    assert(((insn & 0x80000000) >> 11) | (insn & 0xff000) | ((insn & 0x100000) >> 9) | ((insn
        & 0x7fe00000) >> 20) == imm_j(insn)) by (bit_vector);
    Fields {
        opcode: Some(insn & OPCODE_MASK),
        funct3: None,
        funct7: None,
        rs1: None,
        rs2: None,
        rd: Some((insn & RD_MASK) >> RD_SHIFT),
        imm: Some(imm_bit_20 | imm_high | imm_bit_11 | imm_low),
    }
}

} // verus!
