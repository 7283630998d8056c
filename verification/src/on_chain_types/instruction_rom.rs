//! The read-only program of a VM that runs on a game state.

use vstd::prelude::*;
use crate::on_chain_types::vmcommand::VMCommand;

verus! {

/// The instructions of the program, in order.
#[derive(Debug, PartialEq, Eq)]
pub struct InstructionRom<'a> {
    instructions: &'a [VMCommand],
}

impl<'a> View for InstructionRom<'a> {
    type V = Seq<VMCommand>;

    closed spec fn view(&self) -> Seq<VMCommand> {
        self.instructions@
    }
}

impl<'a> InstructionRom<'a> {
    /// The instruction at address `pc`.
    pub fn fetch_instruction(&self, pc: usize) -> (r: VMCommand)
        requires
            pc < self@.len(),
        ensures
            r == self@[pc as int],
    {
        self.instructions[pc]
    }

    /// The program made of the given instructions.
    pub fn from_raw_parts(instructions: &'a [VMCommand]) -> (r: Self)
        ensures
            r@ == instructions@,
    {
        Self { instructions }
    }
}

} // verus!
