//! Sign extension of immediate values.
use vstd::prelude::*;

use crate::instruction::{Instruction, Opcode};

verus! {

/// How far an opcode's packed immediate is shifted left, then arithmetically
/// right, to sign-extend it: 32 minus the immediate's width.
pub open spec fn imm_shift(op: Opcode) -> u32 {
    match op {
        Opcode::Lui | Opcode::AuiPc => 0,
        Opcode::Jal | Opcode::Jalr => 12,
        Opcode::Branch => 19,
        _ => 20,
    }
}

/// `v` sign-extended from its low `32 - shamt` bits.
pub open spec fn sign_extend(v: u32, shamt: u32) -> u32 {
    (((v << shamt) as i32) >> shamt) as u32
}

/// Sign extension copies the top bit of the packed immediate into every
/// higher bit: bit 12 for a branch, bit 11 for other I- and S-type
/// immediates, bit 19 for jumps; a full-width immediate is unchanged.
pub proof fn lemma_sign_extension(v: u32)
    ensures
        v < 0x2000 ==> sign_extend(v, 19) == if v & 0x1000 != 0 {
            v | 0xffffe000
        } else {
            v
        },
        v < 0x1000 ==> sign_extend(v, 20) == if v & 0x800 != 0 {
            v | 0xfffff000
        } else {
            v
        },
        v < 0x100000 ==> sign_extend(v, 12) == if v & 0x80000 != 0 {
            v | 0xfff00000
        } else {
            v
        },
        sign_extend(v, 0) == v,
{
    assert(v < 0x2000 ==> (((v << 19u32) as i32) >> 19u32) as u32 == if v & 0x1000 != 0 {
        v | 0xffffe000
    } else {
        v
    }) by (bit_vector);
    assert(v < 0x1000 ==> (((v << 20u32) as i32) >> 20u32) as u32 == if v & 0x800 != 0 {
        v | 0xfffff000
    } else {
        v
    }) by (bit_vector);
    assert(v < 0x100000 ==> (((v << 12u32) as i32) >> 12u32) as u32 == if v & 0x80000 != 0 {
        v | 0xfff00000
    } else {
        v
    }) by (bit_vector);
    assert((((v << 0u32) as i32) >> 0u32) as u32 == v) by (bit_vector);
}

/// The sign-extended immediate of `insn`, if it has one.
pub open spec fn gen_spec(insn: Instruction) -> Option<u32> {
    match insn.fields.imm {
        Some(v) => Some(sign_extend(v, imm_shift(insn.opcode))),
        None => None,
    }
}

/// Sign-extends the immediate value of `insn`.
pub fn gen(insn: &Instruction) -> (r: Option<u32>)
    ensures
        r == gen_spec(*insn),
{
    let shamt: u32 = match insn.opcode {
        Opcode::Lui | Opcode::AuiPc => 0,
        Opcode::Jal | Opcode::Jalr => 12,
        Opcode::Branch => 19,
        _ => 20,
    };
    match insn.fields.imm {
        Some(v) => {
            let shifted: i32 = #[verifier::truncate] ((v << shamt) as i32);
            Some(#[verifier::truncate] ((shifted >> shamt) as u32))
        },
        None => None,
    }
}

} // verus!
