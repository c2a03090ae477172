//! Instruction and data memories.
use vstd::prelude::*;

pub mod data;
pub mod instruction;

verus! {

/// Why a memory access was refused.
#[derive(Clone, Copy, Debug, PartialEq, Eq, Structural)]
pub enum MemError {
    /// The access size is not 1, 2 or 4 bytes; carries the size.
    InvalidSize(usize),
    /// The byte address lies past the end of memory; carries the address.
    OutOfRange(usize),
    /// The access is misaligned or crosses a word boundary; carries the
    /// address.
    Unaligned(usize),
}

} // verus!
