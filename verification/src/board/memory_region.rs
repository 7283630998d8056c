//! A region of a board: the cards in it and its own attributes.

use vstd::prelude::*;
use crate::card::{Card, CardView};
use crate::word::Word;

verus! {

/// What a [`MemoryRegion`] holds.
pub struct MemoryRegionView {
    pub cards: Seq<CardView>,
    pub attrs: Seq<Word>,
}

/// The views of a list of cards.
pub open spec fn cards_view(cards: Seq<Card>) -> Seq<CardView> {
    cards.map_values(|c: Card| c@)
}

/// How many of `cards` are of type `t`.
pub open spec fn count_of_card_type(cards: Seq<CardView>, t: u32) -> nat
    decreases cards.len(),
{
    if cards.len() == 0 {
        0
    } else {
        count_of_card_type(cards.drop_last(), t) + if cards.last().card_type == t {
            1nat
        } else {
            0nat
        }
    }
}

/// The cards whose id is `id`, in their order.
pub open spec fn with_card_id(cards: Seq<CardView>, id: u32) -> Seq<CardView>
    decreases cards.len(),
{
    if cards.len() == 0 {
        cards
    } else if cards.last().id == id {
        with_card_id(cards.drop_last(), id).push(cards.last())
    } else {
        with_card_id(cards.drop_last(), id)
    }
}

/// The cards of a region, in order, and the attributes of the region.
#[derive(Debug, Clone, PartialEq, Eq)]
pub struct MemoryRegion {
    pub cards: Vec<Card>,
    pub attrs: Vec<Word>,
}

impl View for MemoryRegion {
    type V = MemoryRegionView;

    open spec fn view(&self) -> MemoryRegionView {
        MemoryRegionView { cards: cards_view(self.cards@), attrs: self.attrs@ }
    }
}

impl MemoryRegion {
    /// A region with no cards and no attributes.
    pub fn new() -> (r: Self)
        ensures
            r@ == (MemoryRegionView { cards: Seq::empty(), attrs: Seq::empty() }),
    {
        let r = Self { cards: Vec::<Card>::new(), attrs: Vec::<Word>::new() };
        assert(cards_view(r.cards@) =~= Seq::<CardView>::empty());
        r
    }

    /// A region with the given cards and attributes.
    pub fn with_data(cards: Vec<Card>, attrs: Vec<Word>) -> (r: Self)
        ensures
            r@ == (MemoryRegionView { cards: cards_view(cards@), attrs: attrs@ }),
    {
        Self { cards, attrs }
    }

    /// The number of cards of type `t`.
    pub(crate) fn count_cards_with_type(&self, t: u32) -> (r: usize)
        ensures
            r == count_of_card_type(self@.cards, t),
    {
        let ghost cards = self@.cards;
        let mut count: usize = 0;
        let mut i: usize = 0;
        while i < self.cards.len()
            invariant
                i <= self.cards@.len(),
                cards == cards_view(self.cards@),
                count == count_of_card_type(cards.take(i as int), t),
                count <= i,
            decreases self.cards@.len() - i,
        {
            proof {
                assert(cards.take(i + 1).drop_last() =~= cards.take(i as int));
            }
            if self.cards[i].card_type() == t {
                count = count + 1;
            }
            i = i + 1;
        }
        proof {
            assert(cards.take(i as int) =~= cards);
        }
        count
    }

    /// Keeps only the cards whose id is `id`, in their order; returns how
    /// many there are.
    pub(crate) fn retain_cards_with_id(&mut self, id: u32) -> (r: usize)
        ensures
            final(self)@ == (MemoryRegionView { cards: with_card_id(old(self)@.cards, id), ..old(self)@ }),
            r == with_card_id(old(self)@.cards, id).len(),
    {
        let ghost cards = cards_view(self.cards@);
        let mut kept: Vec<Card> = Vec::new();
        let mut i: usize = 0;
        while i < self.cards.len()
            invariant
                i <= self.cards@.len(),
                cards == cards_view(self.cards@),
                cards_view(kept@) == with_card_id(cards.take(i as int), id),
            decreases self.cards@.len() - i,
        {
            proof {
                assert(cards.take(i + 1).drop_last() =~= cards.take(i as int));
            }
            if self.cards[i].id() == id {
                let card = self.cards[i].clone();
                let ghost before = kept@;
                kept.push(card);
                proof {
                    assert(cards_view(kept@) =~= cards_view(before).push(card@));
                }
            }
            i = i + 1;
        }
        proof {
            assert(cards.take(i as int) =~= cards);
        }
        let n = kept.len();
        self.cards = kept;
        n
    }

    /// Adds `card` after the last card.
    pub(crate) fn push_card(&mut self, card: Card)
        ensures
            final(self)@ == (MemoryRegionView { cards: old(self)@.cards.push(card@), ..old(self)@ }),
    {
        let ghost before = self.cards@;
        self.cards.push(card);
        proof {
            assert(cards_view(self.cards@) =~= cards_view(before).push(card@));
        }
    }

    /// Takes out the `index`-th card; the cards after it move up.
    pub(crate) fn remove_card(&mut self, index: usize) -> (r: Card)
        requires
            index < old(self)@.cards.len(),
        ensures
            r@ == old(self)@.cards[index as int],
            final(self)@ == (MemoryRegionView { cards: old(self)@.cards.remove(index as int), ..old(self)@ }),
    {
        let ghost before = self.cards@;
        let card = self.cards.remove(index);
        proof {
            assert(cards_view(self.cards@) =~= cards_view(before).remove(index as int));
        }
        card
    }

    /// Sets attribute `attr_index` of the `card_index`-th card to `value`.
    pub(crate) fn set_card_attr(&mut self, card_index: usize, attr_index: usize, value: Word)
        requires
            card_index < old(self)@.cards.len(),
            attr_index < old(self)@.cards[card_index as int].attrs.len(),
        ensures
            final(self)@ == (MemoryRegionView {
                cards: old(self)@.cards.update(
                    card_index as int,
                    CardView {
                        attrs: old(self)@.cards[card_index as int].attrs.update(attr_index as int, value),
                        ..old(self)@.cards[card_index as int]
                    },
                ),
                ..old(self)@
            }),
    {
        let ghost before = self.cards@;
        let mut card = self.cards[card_index].clone();
        card.set_attr(attr_index, value);
        self.cards.set(card_index, card);
        proof {
            assert(cards_view(self.cards@) =~= cards_view(before).update(card_index as int, card@));
        }
    }
}


/// The count of type `t` among `cards` is the number of them whose type is
/// `t`: none among no cards; adding one of type `t` raises it by one, and
/// adding one of another type leaves it as it was.
pub proof fn lemma_count_of_card_type_meaning(items: Seq<CardView>, t: u32, extra: CardView)
    ensures
        count_of_card_type(items, t) == items.filter(|c: CardView| c.card_type == t).len(),
        count_of_card_type(Seq::<CardView>::empty(), t) == 0,
        extra.card_type == t ==> count_of_card_type(items.push(extra), t) == count_of_card_type(items, t) + 1,
        extra.card_type != t ==> count_of_card_type(items.push(extra), t) == count_of_card_type(items, t),
        count_of_card_type(items, t) <= items.len(),
    decreases items.len(),
{
    reveal_with_fuel(Seq::filter, 2);
    assert(items.push(extra).drop_last() =~= items);
    if items.len() > 0 {
        lemma_count_of_card_type_meaning(items.drop_last(), t, items.last());
    }
}

} // verus!
