//! Global constants.
use vstd::prelude::*;

verus! {

/// Simulator-only instruction that halts the simulator.
pub const HALT: u32 = 0x3f;

/// Canonical no-operation, encoded as `addi x0, x0, 0`.
pub const NOP: u32 = 0x13;

/// Size of a register in bytes.
pub const WORD_SIZE: usize = 4;

// Masks isolating the parts of an instruction word.
pub const FUNCT7_MASK: u32 = 0xfe000000;
pub const FUNCT3_MASK: u32 = 0x7000;
pub const RS1_MASK: u32 = 0xf8000;
pub const RS2_MASK: u32 = 0x1f00000;
pub const RD_MASK: u32 = 0xf80;
pub const OPCODE_MASK: u32 = 0x7f;
pub const BIT30_MASK: u32 = 0x40000000;

// Positions of the parts of an instruction word.
pub const FUNCT7_SHIFT: u32 = 25;
pub const FUNCT3_SHIFT: u32 = 12;
pub const RS1_SHIFT: u32 = 15;
pub const RS2_SHIFT: u32 = 20;
pub const RD_SHIFT: u32 = 7;
pub const BIT30_SHIFT: u32 = 30;

/// The six field masks cover the whole instruction word without overlapping:
/// they are pairwise disjoint and their exclusive or has every bit set.
pub proof fn lemma_masks_partition_word()
    ensures
        FUNCT7_MASK ^ FUNCT3_MASK ^ RS1_MASK ^ RS2_MASK ^ RD_MASK ^ OPCODE_MASK == 0xffffffffu32,
        FUNCT7_MASK | FUNCT3_MASK | RS1_MASK | RS2_MASK | RD_MASK | OPCODE_MASK == 0xffffffffu32,
        FUNCT7_MASK & (FUNCT3_MASK | RS1_MASK | RS2_MASK | RD_MASK | OPCODE_MASK) == 0,
        FUNCT3_MASK & (RS1_MASK | RS2_MASK | RD_MASK | OPCODE_MASK) == 0,
        RS1_MASK & (RS2_MASK | RD_MASK | OPCODE_MASK) == 0,
        RS2_MASK & (RD_MASK | OPCODE_MASK) == 0,
        RD_MASK & OPCODE_MASK == 0,
{
    assert(0xfe000000u32 ^ 0x7000u32 ^ 0xf8000u32 ^ 0x1f00000u32 ^ 0xf80u32 ^ 0x7fu32 == 0xffffffffu32) by (bit_vector);
    assert(0xfe000000u32 | 0x7000u32 | 0xf8000u32 | 0x1f00000u32 | 0xf80u32 | 0x7fu32 == 0xffffffffu32) by (bit_vector);
    assert(0xfe000000u32 & (0x7000u32 | 0xf8000u32 | 0x1f00000u32 | 0xf80u32 | 0x7fu32) == 0) by (bit_vector);
    assert(0x7000u32 & (0xf8000u32 | 0x1f00000u32 | 0xf80u32 | 0x7fu32) == 0) by (bit_vector);
    assert(0xf8000u32 & (0x1f00000u32 | 0xf80u32 | 0x7fu32) == 0) by (bit_vector);
    assert(0x1f00000u32 & (0xf80u32 | 0x7fu32) == 0) by (bit_vector);
    assert(0xf80u32 & 0x7fu32 == 0) by (bit_vector);
}

} // verus!
