//! The board of one player: the regions it may touch are there, the others
//! are left out.

use vstd::prelude::*;
use crate::board::{Board, BoardView, Error, spec_region_access};
use crate::board::memory_region::{MemoryRegion, MemoryRegionView};

verus! {

/// What a [`PlayerBoard`] holds: a region, or nothing where the player may
/// not look; the id of the next new card; and the player.
pub struct PlayerBoardView {
    pub regions: Seq<Option<MemoryRegionView>>,
    pub card_index: u32,
    pub player_id: u32,
}

/// The view of a region that may be left out.
pub open spec fn optional_region_view(r: Option<MemoryRegion>) -> Option<MemoryRegionView> {
    match r {
        Some(region) => Some(region@),
        None => None,
    }
}

/// The regions of a player's board, the id of the next new card, and the player.
#[derive(Debug, Clone, PartialEq, Eq)]
pub struct PlayerBoard {
    pub regions: Vec<Option<MemoryRegion>>,
    card_index: u32,
    player_id: u32,
}

impl View for PlayerBoard {
    type V = PlayerBoardView;

    closed spec fn view(&self) -> PlayerBoardView {
        PlayerBoardView {
            regions: self.regions@.map_values(|r: Option<MemoryRegion>| optional_region_view(r)),
            card_index: self.card_index,
            player_id: self.player_id,
        }
    }
}

impl PlayerBoard {
    /// A board without regions for player `player_id`.
    pub fn new(player_id: u32) -> (r: Self)
        ensures
            r@ == (PlayerBoardView { regions: Seq::empty(), card_index: 0, player_id }),
    {
        let r = Self { card_index: 0, regions: Vec::new(), player_id };
        assert(r@.regions =~= Seq::<Option<MemoryRegionView>>::empty());
        r
    }

    /// A board made from its parts.
    pub fn from_raw_parts(regions: Vec<Option<MemoryRegion>>, card_index: u32, player_id: u32) -> (r: Self)
        ensures
            r@ == (PlayerBoardView {
                regions: regions@.map_values(|r: Option<MemoryRegion>| optional_region_view(r)),
                card_index,
                player_id,
            }),
    {
        Self { regions, card_index, player_id }
    }
}

impl Board for PlayerBoard {
    type Setup = ();

    open spec fn setup(&self) -> () {
        ()
    }

    open spec fn board_view(&self) -> BoardView {
        BoardView {
            regions: self@.regions.map_values(
                |r: Option<MemoryRegionView>|
                    match r {
                        Some(region) => region,
                        None => MemoryRegionView { cards: Seq::empty(), attrs: Seq::empty() },
                    },
            ),
            readable: self@.regions.map_values(|r: Option<MemoryRegionView>| r is Some),
            owner: self@.player_id,
            card_index: self@.card_index,
        }
    }

    fn generate_card_id(&mut self) -> (r: u32) {
        let id = self.card_index;
        self.card_index = self.card_index + 1;
        id
    }

    fn memory_region(&mut self, region_index: usize) -> (r: Result<&mut MemoryRegion, Error>) {
        if region_index < self.regions.len() {
            if self.regions[region_index].is_some() {
                match &mut self.regions[region_index] {
                    Some(memory_region) => Ok(memory_region),
                    None => Err(Error::AccessViolation { player_id: self.player_id, region_index: region_index as u32 }),
                }
            } else {
                Err(Error::AccessViolation { player_id: self.player_id, region_index: region_index as u32 })
            }
        } else {
            Err(Error::NoSuchRegion { index: region_index as u32 })
        }
    }

    fn owner(&self) -> (r: u32) {
        self.player_id
    }

    fn region_count(&self) -> (r: usize) {
        self.regions.len()
    }
}

} // verus!
