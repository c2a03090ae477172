//! Errors that end a simulation.
use vstd::prelude::*;

use crate::instruction::DecodeError;
use crate::memory::MemError;

verus! {

/// Why a simulation stopped before a HALT retired.
#[derive(Clone, Copy, Debug, PartialEq, Eq, Structural)]
pub enum SimError {
    /// An instruction word could not be decoded.
    Decode(DecodeError),
    /// An instruction fetch, load or store was refused.
    Memory(MemError),
    /// The cycle counter reached its maximum without a HALT.
    ClockExhausted,
}

} // verus!
