//! The error a VM run stops with.

use vstd::prelude::*;
use crate::vm::memory::Error as MemoryError;

verus! {

/// The instruction a run failed on, and why.
#[derive(Clone, Copy, Debug, PartialEq, Eq, Structural)]
pub struct Error {
    pub instruction: u32,
    pub source: ErrorSource,
}

/// Why a run failed.
#[derive(Clone, Copy, Debug, PartialEq, Eq, Structural)]
pub enum ErrorSource {
    Halt,
    NoSuchType,
    AccessViolation { player_id: u32, region_index: u32 },
    NoSuchRegion { index: u32 },
    MemoryError { source: MemoryError },
}

impl From<MemoryError> for ErrorSource {
    fn from(source: MemoryError) -> (r: Self) {
        ErrorSource::MemoryError { source }
    }
}

impl vstd::std_specs::convert::FromSpecImpl<MemoryError> for ErrorSource {
    open spec fn obeys_from_spec() -> bool {
        true
    }

    open spec fn from_spec(source: MemoryError) -> Self {
        ErrorSource::MemoryError { source }
    }
}

} // verus!
