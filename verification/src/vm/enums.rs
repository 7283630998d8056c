//! How far a run of the VM got, and what is left of a VM when it stops.

use vstd::prelude::*;
use crate::vm::log::Log;
use crate::vm::memory::Memory;
use crate::vm::Sealed;

verus! {

/// Whether a run reached `Halt` or stopped at the instruction limit.
#[derive(Clone, Copy, Debug, PartialEq, Eq, Structural)]
pub enum SingleExecutionResult {
    Finished,
    Unfinished,
}

/// The log of a finished run, or the log and the memory to resume from.
#[derive(Debug)]
pub enum ExecutionResult {
    Finished(Log),
    Unfinished(Log, Sealed<Memory>),
}

} // verus!
