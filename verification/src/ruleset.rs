//! The rules a game is set up from.

use vstd::prelude::*;

verus! {

/// The card types of a game (as the 32-byte keys of their accounts), the
/// starting deck, and data that only clients read. Each entry of the deck is
/// a place and, for that place, pairs of a card type and how many cards of
/// that type start there.
#[derive(Debug)]
pub struct Ruleset {
    pub card_types: Vec<[u8; 32]>,
    pub deck: Vec<(u32, Vec<(u32, u32)>)>,
    pub client_data: Vec<u8>,
}

} // verus!
