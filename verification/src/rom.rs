//! The read-only table of card types that a VM runs with.

use vstd::prelude::*;
use crate::card::{Card, CardType, CardTypeView, CardView, spec_instantiate_card};
use crate::search::{first_index_of, lemma_first_index_of_prefix, lemma_first_index_of_step};

verus! {

/// Why a card could not be made from the card types.
#[derive(Debug, Clone, Copy, PartialEq, Eq, Structural)]
pub enum Error {
    TypeIndexOutOfBounds { index: u32, len: u32 },
    NoSuchTypeId(u32),
}

/// The ids of a sequence of card types.
pub open spec fn card_type_ids(types: Seq<CardTypeView>) -> Seq<u32> {
    types.map_values(|t: CardTypeView| t.id)
}

/// The card types, in order.
#[derive(Debug, PartialEq, Eq)]
pub struct CardTypesRom<'a> {
    card_types: &'a [CardType],
}

impl<'a> View for CardTypesRom<'a> {
    type V = Seq<CardTypeView>;

    closed spec fn view(&self) -> Seq<CardTypeView> {
        self.card_types@.map_values(|t: CardType| t@)
    }
}

impl<'a> CardTypesRom<'a> {
    /// The number of card types.
    pub fn card_type_count(&self) -> (r: usize)
        ensures
            r == self@.len(),
    {
        self.card_types.len()
    }

    /// The card type at `type_index`.
    pub fn card_type_by_type_index(&self, type_index: usize) -> (r: &CardType)
        requires
            type_index < self@.len(),
        ensures
            r@ == self@[type_index as int],
    {
        &self.card_types[type_index]
    }

    fn find_type_id(&self, type_id: u32) -> (r: Option<usize>)
        ensures
            r matches Some(i) ==> i < self@.len() && first_index_of(card_type_ids(self@), type_id) == Some(i as int),
            r is None ==> first_index_of(card_type_ids(self@), type_id) is None,
    {
        let ghost ids = card_type_ids(self@);
        let mut i: usize = 0;
        while i < self.card_types.len()
            invariant
                i <= self.card_types@.len(),
                ids == card_type_ids(self@),
                ids.len() == self.card_types@.len(),
                first_index_of(ids.take(i as int), type_id) is None,
            decreases self.card_types@.len() - i,
        {
            proof {
                lemma_first_index_of_step(ids, i as int, type_id);
            }
            if self.card_types[i].id() == type_id {
                proof {
                    lemma_first_index_of_prefix(ids, i + 1, type_id);
                }
                assert(i < self@.len());
                return Some(i);
            }
            i = i + 1;
        }
        proof {
            assert(ids.take(i as int) =~= ids);
        }
        None
    }

    /// The first card type with id `type_id`, if any.
    pub fn card_type_by_type_id(&self, type_id: u32) -> (r: Option<&CardType>)
        ensures
            match first_index_of(card_type_ids(self@), type_id) {
                Some(i) => r matches Some(t) && t@ == self@[i],
                None => r is None,
            },
    {
        match self.find_type_id(type_id) {
            Some(i) => Some(&self.card_types[i]),
            None => None,
        }
    }

    /// A new card with id `card_id` of the first card type with id `type_id`.
    pub fn instance_card_by_type_id(&self, type_id: u32, card_id: u32) -> (r: Result<Card, Error>)
        ensures
            match first_index_of(card_type_ids(self@), type_id) {
                Some(i) => r matches Ok(c) && c@ == spec_instantiate_card(self@[i], card_id),
                None => r == Err::<Card, Error>(Error::NoSuchTypeId(type_id)),
            },
    {
        match self.find_type_id(type_id) {
            Some(i) => Ok(self.card_types[i].instantiate_card(card_id)),
            None => Err(Error::NoSuchTypeId(type_id)),
        }
    }

    /// A new card with id `card_id` of the card type at `type_index`.
    pub fn instance_card_by_type_index(&self, type_index: u32, card_id: u32) -> (r: Result<Card, Error>)
        ensures
            type_index < self@.len() ==> (r matches Ok(c) && c@ == spec_instantiate_card(self@[type_index as int], card_id)),
            type_index >= self@.len() ==> r == Err::<Card, Error>(Error::TypeIndexOutOfBounds {
                index: type_index,
                len: self@.len() as u32,
            }),
    {
        let index: usize = type_index as usize;
        if index < self.card_types.len() {
            let typ: &CardType = &self.card_types[index];
            Ok(typ.instantiate_card(card_id))
        } else {
            Err(Error::TypeIndexOutOfBounds { index: type_index, len: self.card_types.len() as u32 })
        }
    }

    /// The table over the given card types.
    pub fn from_raw_parts(card_types: &'a [CardType]) -> (r: Self)
        ensures
            r@ == card_types@.map_values(|t: CardType| t@),
    {
        Self { card_types }
    }
}

} // verus!
