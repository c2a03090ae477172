//! Arithmetic logic unit.
use vstd::prelude::*;

use crate::instruction::Instruction;

verus! {

/// Available ALU operations.
///
/// The branch operations yield 0 when the branch is taken and 1 otherwise.
#[derive(Clone, Copy, Debug, PartialEq, Eq, Structural)]
pub enum AluOp {
    // Arithmetic ops
    Add,
    Sub,
    // Logical ops
    And,
    Or,
    Xor,
    // Sets
    SetOnLessThan,
    SetOnLessThanUnsigned,
    // Shifts
    ShiftLeft,
    ShiftRightLogical,
    ShiftRightArithmetic,
    // Branches
    BranchOnEqual,
    BranchOnNotEqual,
    BranchOnLessThan,
    BranchOnLessThanUnsigned,
    BranchOnGreaterOrEqual,
    BranchOnGreaterOrEqualUnsigned,
}

impl Default for AluOp {
    fn default() -> (r: AluOp)
        ensures
            r == AluOp::Add,
    {
        AluOp::Add
    }
}

/// Selector for the ALU's second operand.
#[derive(Clone, Copy, Debug, PartialEq, Eq, Structural)]
pub enum AluSrc {
    Reg,
    Imm,
}

impl Default for AluSrc {
    fn default() -> (r: AluSrc)
        ensures
            r == AluSrc::Reg,
    {
        AluSrc::Reg
    }
}

/// The shift amount taken from a second operand: its low five bits.
pub open spec fn shift_amount(b: i32) -> u32 {
    (b as u32) & 31
}

/// 0 when `taken` holds, 1 otherwise.
pub open spec fn branch_flag(taken: bool) -> i32 {
    if taken {
        0
    } else {
        1
    }
}

/// The value of ALU operation `op` on operands `a` and `b`.
pub open spec fn alu_spec(op: AluOp, a: i32, b: i32) -> i32 {
    match op {
        AluOp::Add => a.wrapping_add(b),
        AluOp::Sub => a.wrapping_sub(b),
        AluOp::And => a & b,
        AluOp::Or => a | b,
        AluOp::Xor => a ^ b,
        AluOp::SetOnLessThan => if a < b { 1 } else { 0 },
        AluOp::SetOnLessThanUnsigned => if (a as u32) < (b as u32) { 1 } else { 0 },
        AluOp::ShiftLeft => ((a as u32) << shift_amount(b)) as i32,
        AluOp::ShiftRightLogical => ((a as u32) >> shift_amount(b)) as i32,
        AluOp::ShiftRightArithmetic => a >> shift_amount(b),
        AluOp::BranchOnEqual => branch_flag(a == b),
        AluOp::BranchOnNotEqual => branch_flag(a != b),
        AluOp::BranchOnLessThan => branch_flag(a < b),
        AluOp::BranchOnLessThanUnsigned => branch_flag((a as u32) < (b as u32)),
        AluOp::BranchOnGreaterOrEqual => branch_flag(a >= b),
        AluOp::BranchOnGreaterOrEqualUnsigned => branch_flag((a as u32) >= (b as u32)),
    }
}

/// Performs the ALU operation that `insn`'s control semantics select.
pub fn alu(insn: &Instruction, src1: i32, src2: i32, _clk: u64) -> (r: i32)
    ensures
        r == alu_spec(insn.semantics.alu_op, src1, src2),
{
    let a: u32 = #[verifier::truncate] (src1 as u32);
    let b: u32 = #[verifier::truncate] (src2 as u32);
    let shamt: u32 = b & 31;
    assert(shamt < 32) by (bit_vector)
        requires
            shamt == b & 31,
    ;
    match insn.semantics.alu_op {
        AluOp::Add => src1.wrapping_add(src2),
        AluOp::Sub => src1.wrapping_sub(src2),
        AluOp::And => src1 & src2,
        AluOp::Or => src1 | src2,
        AluOp::Xor => src1 ^ src2,
        AluOp::SetOnLessThan => if src1 < src2 { 1 } else { 0 },
        AluOp::SetOnLessThanUnsigned => if a < b { 1 } else { 0 },
        AluOp::ShiftLeft => #[verifier::truncate] ((a << shamt) as i32),
        AluOp::ShiftRightLogical => #[verifier::truncate] ((a >> shamt) as i32),
        AluOp::ShiftRightArithmetic => src1 >> shamt,
        AluOp::BranchOnEqual => if src1 == src2 { 0 } else { 1 },
        AluOp::BranchOnNotEqual => if src1 != src2 { 0 } else { 1 },
        AluOp::BranchOnLessThan => if src1 < src2 { 0 } else { 1 },
        AluOp::BranchOnLessThanUnsigned => if a < b { 0 } else { 1 },
        AluOp::BranchOnGreaterOrEqual => if src1 >= src2 { 0 } else { 1 },
        AluOp::BranchOnGreaterOrEqualUnsigned => if a >= b { 0 } else { 1 },
    }
}

} // verus!
