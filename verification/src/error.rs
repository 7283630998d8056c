//! The errors the program itself reports.

use vstd::prelude::*;

verus! {

/// What went wrong in the program.
#[derive(Clone, Copy, Debug, PartialEq, Eq, Structural)]
pub enum VMError {
    /// There is not enough data in the instruction.
    InstructionDataTooShort,
    /// The VM reached the maximum number of instructions, but the action has
    /// not finished.
    ComputationNotFinished,
}

impl VMError {
    /// The number that a custom program error carries for this error: its
    /// position among the variants.
    pub fn code(&self) -> (r: u32)
        ensures
            r == match self {
                VMError::InstructionDataTooShort => 0u32,
                VMError::ComputationNotFinished => 1u32,
            },
    {
        match self {
            VMError::InstructionDataTooShort => 0,
            VMError::ComputationNotFinished => 1,
        }
    }
}

} // verus!
