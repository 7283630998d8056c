//! A fight: the cards the players played, in order.

use vstd::prelude::*;

verus! {

/// The moves of a fight, oldest first.
#[derive(Debug)]
pub struct Fight {
    pub log: Vec<LogEntry>,
}

/// One move: which player played which card.
#[derive(Debug, Clone, Copy, PartialEq, Eq)]
pub struct LogEntry {
    pub player_id: u32,
    pub card_id: u32,
}

} // verus!
