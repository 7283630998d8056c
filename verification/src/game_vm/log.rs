//! The changes a VM run makes to the game state, in the order it makes them.

use vstd::prelude::*;
use crate::word::Word;

verus! {

/// One change to the game state.
#[derive(Clone, Debug, PartialEq, Eq)]
pub enum Event {
    GameStateChange { attr_index: u32, previous_value: Word, new_value: Word },
    ObjectChange { object_index: u32, attr_index: u32, previous_value: Word, new_value: Word },
    AddObjectById { object_index: u32, object_type_id: u32 },
    AddObjectByIndex { object_index: u32, object_type_index: u32 },
    RemoveObject { object_id: u32 },
    ObjectActionStarted { object_type_index: u32, action_index: u32, args: Vec<Word> },
}

/// What an [`Event`] holds.
pub enum EventView {
    GameStateChange { attr_index: u32, previous_value: Word, new_value: Word },
    ObjectChange { object_index: u32, attr_index: u32, previous_value: Word, new_value: Word },
    AddObjectById { object_index: u32, object_type_id: u32 },
    AddObjectByIndex { object_index: u32, object_type_index: u32 },
    RemoveObject { object_id: u32 },
    ObjectActionStarted { object_type_index: u32, action_index: u32, args: Seq<Word> },
}

impl View for Event {
    type V = EventView;

    open spec fn view(&self) -> EventView {
        match self {
            Event::GameStateChange { attr_index, previous_value, new_value } => EventView::GameStateChange {
                attr_index: *attr_index,
                previous_value: *previous_value,
                new_value: *new_value,
            },
            Event::ObjectChange { object_index, attr_index, previous_value, new_value } => EventView::ObjectChange {
                object_index: *object_index,
                attr_index: *attr_index,
                previous_value: *previous_value,
                new_value: *new_value,
            },
            Event::AddObjectById { object_index, object_type_id } => EventView::AddObjectById {
                object_index: *object_index,
                object_type_id: *object_type_id,
            },
            Event::AddObjectByIndex { object_index, object_type_index } => EventView::AddObjectByIndex {
                object_index: *object_index,
                object_type_index: *object_type_index,
            },
            Event::RemoveObject { object_id } => EventView::RemoveObject { object_id: *object_id },
            Event::ObjectActionStarted { object_type_index, action_index, args } => EventView::ObjectActionStarted {
                object_type_index: *object_type_index,
                action_index: *action_index,
                args: args@,
            },
        }
    }
}

/// The list of changes, oldest first.
pub type Log = Vec<Event>;

/// The views of a list of changes.
pub open spec fn log_view(log: Seq<Event>) -> Seq<EventView> {
    log.map_values(|e: Event| e@)
}

} // verus!
