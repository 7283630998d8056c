//! Kinds of units.

use vstd::prelude::*;

verus! {

/// A kind of unit: the hit points a unit of it starts with.
#[derive(Debug, Clone, Copy, PartialEq, Eq)]
pub struct UnitType {
    pub hp: u32,
}

} // verus!
