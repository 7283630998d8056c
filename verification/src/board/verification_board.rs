//! The board that a VM checks a player's action on: every region has an
//! owner, and the current player may touch the regions it owns and those
//! owned by nobody (owner `0`).

use vstd::prelude::*;
use crate::board::{Board, BoardView, Error, spec_region_access};
use crate::board::memory_region::{MemoryRegion, MemoryRegionView, cards_view};
use crate::card::Card;
use crate::word::Word;

verus! {

/// What an [`OwnedMemoryRegion`] holds.
pub struct OwnedMemoryRegionView {
    pub owner_id: u32,
    pub memory_region: MemoryRegionView,
}

/// A region together with the id of the player that owns it.
#[derive(Debug, Clone, PartialEq, Eq)]
pub struct OwnedMemoryRegion {
    owner_id: u32,
    pub memory_region: MemoryRegion,
}

impl View for OwnedMemoryRegion {
    type V = OwnedMemoryRegionView;

    closed spec fn view(&self) -> OwnedMemoryRegionView {
        OwnedMemoryRegionView { owner_id: self.owner_id, memory_region: self.memory_region@ }
    }
}

impl OwnedMemoryRegion {
    /// An empty region owned by `owner_id`.
    pub fn new(owner_id: u32) -> (r: Self)
        ensures
            r@ == (OwnedMemoryRegionView {
                owner_id,
                memory_region: MemoryRegionView { cards: Seq::empty(), attrs: Seq::empty() },
            }),
    {
        Self { owner_id, memory_region: MemoryRegion::new() }
    }

    /// A region owned by `owner_id` with the given cards and attributes.
    pub fn with_data(owner_id: u32, cards: Vec<Card>, attrs: Vec<Word>) -> (r: Self)
        ensures
            r@ == (OwnedMemoryRegionView {
                owner_id,
                memory_region: MemoryRegionView { cards: cards_view(cards@), attrs: attrs@ },
            }),
    {
        Self { owner_id, memory_region: MemoryRegion::with_data(cards, attrs) }
    }

    /// The id of the owner.
    pub fn owner(&self) -> (r: u32)
        ensures
            r == self@.owner_id,
    {
        self.owner_id
    }
}

/// What a [`VerificationBoard`] holds.
pub struct VerificationBoardView {
    pub regions: Seq<OwnedMemoryRegionView>,
    pub card_index: u32,
    pub owner_stack: Seq<u32>,
    pub player_id: u32,
}

/// The views of a list of owned regions.
pub open spec fn owned_regions_view(regions: Seq<OwnedMemoryRegion>) -> Seq<OwnedMemoryRegionView> {
    regions.map_values(|r: OwnedMemoryRegion| r@)
}

/// Whether `player_id` may touch a region owned by `owner_id`.
pub open spec fn may_touch(owner_id: u32, player_id: u32) -> bool {
    owner_id == player_id || owner_id == 0
}

/// What a [`VerificationBoard`] keeps beside what it shows a VM: the owner
/// of each region, the players that were current before, and the current
/// player.
#[verifier::ext_equal]
pub struct VerificationBoardSetup {
    pub owners: Seq<u32>,
    pub owner_stack: Seq<u32>,
    pub player_id: u32,
}

/// A board of owned regions, the id of the next new card, the current
/// player, and the players that were current before it.
#[derive(Debug, Clone, PartialEq, Eq)]
pub struct VerificationBoard {
    pub regions: Vec<OwnedMemoryRegion>,
    card_index: u32,
    owner_stack: Vec<u32>,
    player_id: u32,
}

impl View for VerificationBoard {
    type V = VerificationBoardView;

    closed spec fn view(&self) -> VerificationBoardView {
        VerificationBoardView {
            regions: owned_regions_view(self.regions@),
            card_index: self.card_index,
            owner_stack: self.owner_stack@,
            player_id: self.player_id,
        }
    }
}

impl VerificationBoard {
    /// A board without regions whose current player is `player_id`.
    pub fn new(player_id: u32) -> (r: Self)
        ensures
            r@ == (VerificationBoardView {
                regions: Seq::empty(),
                card_index: 0,
                owner_stack: Seq::empty(),
                player_id,
            }),
    {
        let r = Self { card_index: 0, regions: Vec::new(), owner_stack: Vec::new(), player_id };
        assert(owned_regions_view(r.regions@) =~= Seq::<OwnedMemoryRegionView>::empty());
        r
    }

    /// A board made from its parts.
    pub fn from_raw_parts(regions: Vec<OwnedMemoryRegion>, card_index: u32, player_id: u32, owner_stack: Vec<u32>) -> (r: Self)
        ensures
            r@ == (VerificationBoardView {
                regions: owned_regions_view(regions@),
                card_index,
                owner_stack: owner_stack@,
                player_id,
            }),
    {
        Self { regions, card_index, player_id, owner_stack }
    }

    /// The parts of the board, in the order [`VerificationBoard::from_raw_parts`]
    /// takes them: the regions, the id of the next new card, the current
    /// player, and the players that were current before it.
    pub fn into_raw_parts(self) -> (r: (Vec<OwnedMemoryRegion>, u32, u32, Vec<u32>))
        ensures
            owned_regions_view(r.0@) == self@.regions,
            r.1 == self@.card_index,
            r.2 == self@.player_id,
            r.3@ == self@.owner_stack,
    {
        (self.regions, self.card_index, self.player_id, self.owner_stack)
    }

    /// Makes `player_id` the current player.
    pub fn set_player(&mut self, player_id: u32)
        ensures
            final(self)@ == (VerificationBoardView { player_id, ..old(self)@ }),
    {
        self.player_id = player_id;
    }

    /// Makes `player_id` the current player, and remembers the one before.
    pub fn push_player(&mut self, player_id: u32)
        ensures
            final(self)@ == (VerificationBoardView {
                owner_stack: old(self)@.owner_stack.push(old(self)@.player_id),
                player_id,
                ..old(self)@
            }),
    {
        self.owner_stack.push(self.player_id);
        self.player_id = player_id;
    }
}

impl Board for VerificationBoard {
    type Setup = VerificationBoardSetup;

    open spec fn setup(&self) -> VerificationBoardSetup {
        VerificationBoardSetup {
            owners: self@.regions.map_values(|r: OwnedMemoryRegionView| r.owner_id),
            owner_stack: self@.owner_stack,
            player_id: self@.player_id,
        }
    }

    open spec fn board_view(&self) -> BoardView {
        BoardView {
            regions: self@.regions.map_values(|r: OwnedMemoryRegionView| r.memory_region),
            readable: self@.regions.map_values(|r: OwnedMemoryRegionView| may_touch(r.owner_id, self@.player_id)),
            owner: self@.player_id,
            card_index: self@.card_index,
        }
    }

    fn generate_card_id(&mut self) -> (r: u32)
        ensures
            final(self)@.owner_stack == old(self)@.owner_stack,
            final(self)@.player_id == old(self)@.player_id,
            final(self)@.regions.len() == old(self)@.regions.len(),
            forall|i: int|
                0 <= i < old(self)@.regions.len() ==> #[trigger] final(self)@.regions[i].owner_id
                    == old(self)@.regions[i].owner_id,
    {
        let id = self.card_index;
        self.card_index = self.card_index + 1;
        id
    }

    fn memory_region(&mut self, region_index: usize) -> (r: Result<&mut MemoryRegion, Error>)
        ensures
            final(self)@.owner_stack == old(self)@.owner_stack,
            final(self)@.player_id == old(self)@.player_id,
            final(self)@.regions.len() == old(self)@.regions.len(),
            forall|i: int|
                0 <= i < old(self)@.regions.len() ==> #[trigger] final(self)@.regions[i].owner_id
                    == old(self)@.regions[i].owner_id,
    {
        if region_index < self.regions.len() {
            let owner = self.regions[region_index].owner();
            if owner == self.player_id || owner == 0 {
                let owned_region = &mut self.regions[region_index];
                Ok(&mut owned_region.memory_region)
            } else {
                Err(Error::AccessViolation { player_id: self.player_id, region_index: region_index as u32 })
            }
        } else {
            Err(Error::NoSuchRegion { index: region_index as u32 })
        }
    }

    fn owner(&self) -> (r: u32) {
        self.player_id
    }

    fn region_count(&self) -> (r: usize) {
        self.regions.len()
    }
}

/// The current player reaches exactly the regions that it owns and those
/// that nobody owns; every other existing region is an access violation.
pub proof fn lemma_access_rule(board: VerificationBoard, index: usize)
    ensures
        index < board@.regions.len() ==> (spec_region_access(board.board_view(), index) is Ok <==> may_touch(
            board@.regions[index as int].owner_id,
            board@.player_id,
        )),
        index < board@.regions.len() && !may_touch(board@.regions[index as int].owner_id, board@.player_id)
            ==> spec_region_access(board.board_view(), index) == Err::<MemoryRegionView, Error>(
            Error::AccessViolation { player_id: board@.player_id, region_index: index as u32 },
        ),
        index >= board@.regions.len() ==> spec_region_access(board.board_view(), index) == Err::<MemoryRegionView, Error>(
            Error::NoSuchRegion { index: index as u32 },
        ),
{
}

} // verus!
