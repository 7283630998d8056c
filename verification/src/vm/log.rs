//! The changes a VM run makes to a board, in the order it makes them.

use vstd::prelude::*;
use crate::word::Word;

verus! {

/// One change to the board.
#[derive(Clone, Debug, PartialEq, Eq)]
pub enum Event {
    RegionChange { region_index: u16, attr_index: u16, previous_value: Word, new_value: Word },
    CardChange { region_index: u16, card_index: u32, attr_index: u16, previous_value: Word, new_value: Word },
    AddCardById { card_index: u32, cardtype_id: u32 },
    AddCardByIndex { card_index: u32, cardtype_index: u32 },
    RemoveCard { card_id: u32 },
    CardActionStarted { cardtype_index: u32, action_index: u32, args: Vec<Word> },
}

/// What an [`Event`] holds.
pub enum EventView {
    RegionChange { region_index: u16, attr_index: u16, previous_value: Word, new_value: Word },
    CardChange { region_index: u16, card_index: u32, attr_index: u16, previous_value: Word, new_value: Word },
    AddCardById { card_index: u32, cardtype_id: u32 },
    AddCardByIndex { card_index: u32, cardtype_index: u32 },
    RemoveCard { card_id: u32 },
    CardActionStarted { cardtype_index: u32, action_index: u32, args: Seq<Word> },
}

impl View for Event {
    type V = EventView;

    open spec fn view(&self) -> EventView {
        match self {
            Event::RegionChange { region_index, attr_index, previous_value, new_value } => EventView::RegionChange {
                region_index: *region_index,
                attr_index: *attr_index,
                previous_value: *previous_value,
                new_value: *new_value,
            },
            Event::CardChange { region_index, card_index, attr_index, previous_value, new_value } => EventView::CardChange {
                region_index: *region_index,
                card_index: *card_index,
                attr_index: *attr_index,
                previous_value: *previous_value,
                new_value: *new_value,
            },
            Event::AddCardById { card_index, cardtype_id } => EventView::AddCardById {
                card_index: *card_index,
                cardtype_id: *cardtype_id,
            },
            Event::AddCardByIndex { card_index, cardtype_index } => EventView::AddCardByIndex {
                card_index: *card_index,
                cardtype_index: *cardtype_index,
            },
            Event::RemoveCard { card_id } => EventView::RemoveCard { card_id: *card_id },
            Event::CardActionStarted { cardtype_index, action_index, args } => EventView::CardActionStarted {
                cardtype_index: *cardtype_index,
                action_index: *action_index,
                args: args@,
            },
        }
    }
}

/// The list of changes, oldest first.
pub type Log = Vec<Event>;

/// The views of a list of changes.
pub open spec fn log_view(log: Seq<Event>) -> Seq<EventView> {
    log.map_values(|e: Event| e@)
}

} // verus!
