//! The log of a fight: what each player did, in order.

use vstd::prelude::*;

verus! {

/// The entries of a fight, oldest first.
#[derive(Debug)]
pub struct FightLog {
    pub log: Vec<LogEntry>,
}

/// One thing a player did: the kind of action and its datum.
#[derive(Debug, Clone, Copy, PartialEq, Eq)]
pub struct LogEntry {
    pub player_id: u32,
    pub action_type: u32,
    pub action_data: u32,
}

} // verus!
