//! Cards, the card types they are made from, and the entry points of the
//! actions that a card type offers.

use vstd::prelude::*;
use crate::bounded::{
    Attrs, EntryPoints, attrs_fill, attrs_items, attrs_new, attrs_set, entry_points_fill,
    entry_points_get, entry_points_items, entry_points_new, attrs_get, filled,
};
use crate::word::Word;

verus! {

/// Where the code of an action starts, and how many arguments it takes.
#[derive(Clone, Copy, Debug, PartialEq, Eq, Structural)]
pub struct EntryPoint {
    address: u32,
    n_args: u32,
}

impl EntryPoint {
    /// The address of the first instruction of the action.
    pub closed spec fn spec_address(self) -> u32 {
        self.address
    }

    /// The number of arguments the action takes.
    pub closed spec fn spec_n_args(self) -> u32 {
        self.n_args
    }

    /// The address of the first instruction of the action.
    pub fn address(&self) -> (r: usize)
        ensures
            r == self.spec_address(),
    {
        self.address as usize
    }

    /// The number of arguments the action takes.
    pub fn n_args(&self) -> (r: usize)
        ensures
            r == self.spec_n_args(),
    {
        self.n_args as usize
    }

    /// An entry point with the given address and number of arguments.
    pub fn from_raw_parts(address: u32, n_args: u32) -> (r: Self)
        ensures
            r.spec_address() == address,
            r.spec_n_args() == n_args,
    {
        Self { address, n_args }
    }
}

impl Default for EntryPoint {
    fn default() -> (r: Self)
        ensures
            r.spec_address() == 0,
            r.spec_n_args() == 0,
    {
        Self { address: 0, n_args: 0 }
    }
}

/// What a [`Card`] holds.
pub struct CardView {
    pub id: u32,
    pub card_type: u32,
    pub attrs: Seq<Word>,
}

/// A card on the board: its id, the id of its type and its attributes.
#[derive(Debug, PartialEq, Eq)]
pub struct Card {
    id: u32,
    card_type: u32,
    pub attrs: Attrs,
}

impl View for Card {
    type V = CardView;

    closed spec fn view(&self) -> CardView {
        CardView { id: self.id, card_type: self.card_type, attrs: attrs_items(self.attrs) }
    }
}

impl Card {
    /// The card's id.
    pub fn id(&self) -> (r: u32)
        ensures
            r == self@.id,
    {
        self.id
    }

    /// The id of the card's type.
    pub fn card_type(&self) -> (r: u32)
        ensures
            r == self@.card_type,
    {
        self.card_type
    }

    /// A card with the given id, type id and attributes.
    pub fn new(id: u32, card_type: u32, attrs: Attrs) -> (r: Self)
        ensures
            r@ == (CardView { id, card_type, attrs: attrs_items(attrs) }),
    {
        Card { id, card_type, attrs }
    }

    /// A card with the given id and type id, whose attributes are as many of
    /// `attrs` as its attribute vector can hold.
    pub fn from_raw_parts(id: u32, card_type: u32, attrs: Vec<Word>) -> (r: Self)
        ensures
            r@ == (CardView { id, card_type, attrs: filled(Seq::empty(), attrs@) }),
    {
        let mut card = Card { id, card_type, attrs: attrs_new() };
        attrs_fill(&mut card.attrs, attrs);
        card
    }

    /// The `index`-th attribute.
    pub fn attr(&self, index: usize) -> (r: Word)
        requires
            index < self@.attrs.len(),
        ensures
            r == self@.attrs[index as int],
    {
        attrs_get(&self.attrs, index)
    }

    /// Sets the `index`-th attribute.
    pub fn set_attr(&mut self, index: usize, value: Word)
        requires
            index < old(self)@.attrs.len(),
        ensures
            final(self)@ == (CardView { attrs: old(self)@.attrs.update(index as int, value), ..old(self)@ }),
    {
        attrs_set(&mut self.attrs, index, value);
    }
}

impl Clone for Card {
    fn clone(&self) -> (r: Self)
        ensures
            r@ == self@,
    {
        Card { id: self.id, card_type: self.card_type, attrs: self.attrs }
    }
}

impl Default for Card {
    fn default() -> (r: Self)
        ensures
            r@ == (CardView { id: 0, card_type: 0, attrs: Seq::empty() }),
    {
        Self { id: 0, card_type: 0, attrs: attrs_new() }
    }
}

/// What a [`CardType`] holds.
pub struct CardTypeView {
    pub id: u32,
    pub attrs: Seq<Word>,
    pub init_card_attrs: Seq<Word>,
    pub action_entry_points: Seq<EntryPoint>,
}

/// A kind of card: its id, its own attributes, the attributes a new card of
/// this kind starts with, and the entry points of its actions.
#[derive(Debug, PartialEq, Eq)]
pub struct CardType {
    id: u32,
    attrs: Attrs,
    init_card_attrs: Attrs,
    action_entry_points: EntryPoints,
}

impl View for CardType {
    type V = CardTypeView;

    closed spec fn view(&self) -> CardTypeView {
        CardTypeView {
            id: self.id,
            attrs: attrs_items(self.attrs),
            init_card_attrs: attrs_items(self.init_card_attrs),
            action_entry_points: entry_points_items(self.action_entry_points),
        }
    }
}

/// The card that a card type makes with the given id.
pub open spec fn spec_instantiate_card(t: CardTypeView, id: u32) -> CardView {
    CardView { id, card_type: t.id, attrs: t.init_card_attrs }
}

impl CardType {
    /// The id of the type.
    pub fn id(&self) -> (r: u32)
        ensures
            r == self@.id,
    {
        self.id
    }

    /// The `index`-th attribute of the type.
    pub fn attr_by_index(&self, index: usize) -> (r: Word)
        requires
            index < self@.attrs.len(),
        ensures
            r == self@.attrs[index as int],
    {
        attrs_get(&self.attrs, index)
    }

    /// A card type made from its parts.
    pub fn new(id: u32, attrs: Attrs, init_card_attrs: Attrs, action_entry_points: EntryPoints) -> (r: Self)
        ensures
            r@ == (CardTypeView {
                id,
                attrs: attrs_items(attrs),
                init_card_attrs: attrs_items(init_card_attrs),
                action_entry_points: entry_points_items(action_entry_points),
            }),
    {
        CardType { id, attrs, init_card_attrs, action_entry_points }
    }

    /// A new card of this type with the given id.
    pub fn instantiate_card(&self, id: u32) -> (r: Card)
        ensures
            r@ == spec_instantiate_card(self@, id),
    {
        Card { id, card_type: self.id, attrs: self.init_card_attrs }
    }

    /// The entry point of the `index`-th action.
    pub fn action_entry_point(&self, index: usize) -> (r: EntryPoint)
        requires
            index < self@.action_entry_points.len(),
        ensures
            r == self@.action_entry_points[index as int],
    {
        entry_points_get(&self.action_entry_points, index)
    }

    /// A card type made from its parts, each vector keeping as many of the
    /// given items as it can hold.
    pub fn from_raw_parts(
        id: u32,
        attrs: Vec<Word>,
        init_card_attrs: Vec<Word>,
        action_entry_points: Vec<EntryPoint>,
    ) -> (r: Self)
        ensures
            r@ == (CardTypeView {
                id,
                attrs: filled(Seq::empty(), attrs@),
                init_card_attrs: filled(Seq::empty(), init_card_attrs@),
                action_entry_points: filled(Seq::empty(), action_entry_points@),
            }),
    {
        let mut card_type = CardType {
            id,
            attrs: attrs_new(),
            init_card_attrs: attrs_new(),
            action_entry_points: entry_points_new(),
        };
        attrs_fill(&mut card_type.attrs, attrs);
        attrs_fill(&mut card_type.init_card_attrs, init_card_attrs);
        entry_points_fill(&mut card_type.action_entry_points, action_entry_points);
        card_type
    }
}

impl Default for CardType {
    fn default() -> (r: Self)
        ensures
            r@ == (CardTypeView {
                id: 0,
                attrs: Seq::empty(),
                init_card_attrs: Seq::empty(),
                action_entry_points: Seq::empty(),
            }),
    {
        Self { id: 0, attrs: attrs_new(), init_card_attrs: attrs_new(), action_entry_points: entry_points_new() }
    }
}

} // verus!
