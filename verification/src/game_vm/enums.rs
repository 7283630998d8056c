//! What is left of a VM when it stops.

use vstd::prelude::*;
use crate::game_vm::log::Log;
use crate::vm::memory::Memory;
use crate::vm::Sealed;

verus! {

/// The log of a finished run, or the log and the memory to resume from.
#[derive(Debug)]
pub enum ExecutionResult {
    Finished(Log),
    Unfinished(Log, Sealed<Memory>),
}

} // verus!
