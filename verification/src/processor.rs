//! The kinds of entity that the program stores in accounts, the cards a new
//! board starts with, and what the fight log records when a player joins.

use vstd::prelude::*;
use vstd::string::StringSliceAdditionalSpecFns;
use crate::fight_log::LogEntry;
use crate::ruleset::Ruleset;

verus! {

/// A kind of stored entity.
#[derive(Clone, Copy, Debug, PartialEq, Eq, Structural)]
pub enum EntityType {
    Custom,
    Card,
    Ruleset,
    Collection,
}

/// The name of each kind of entity, as ASCII bytes.
pub open spec fn entity_name(t: EntityType) -> Seq<u8> {
    match t {
        EntityType::Custom => seq![99u8, 117u8, 115u8, 116u8, 111u8, 109u8],
        EntityType::Card => seq![99u8, 97u8, 114u8, 100u8],
        EntityType::Ruleset => seq![114u8, 117u8, 108u8, 101u8, 115u8, 101u8, 116u8],
        EntityType::Collection => seq![99u8, 111u8, 108u8, 108u8, 101u8, 99u8, 116u8, 105u8, 111u8, 110u8],
    }
}

impl EntityType {
    /// The kind with code `value`: `1` card, `2` ruleset, `3` collection,
    /// anything else custom.
    pub fn from_u8(value: u8) -> (r: EntityType)
        ensures
            r == match value {
                1 => EntityType::Card,
                2 => EntityType::Ruleset,
                3 => EntityType::Collection,
                _ => EntityType::Custom,
            },
    {
        match value {
            1 => EntityType::Card,
            2 => EntityType::Ruleset,
            3 => EntityType::Collection,
            _ => EntityType::Custom,
        }
    }

    /// The name of the kind: `custom`, `card`, `ruleset` or `collection`.
    pub fn get_name(&self) -> (r: &[u8])
        ensures
            r@ == entity_name(*self),
    {
        let name = match self {
            EntityType::Custom => "custom",
            EntityType::Card => "card",
            EntityType::Ruleset => "ruleset",
            EntityType::Collection => "collection",
        };
        proof {
            reveal_strlit("custom");
            reveal_strlit("card");
            reveal_strlit("ruleset");
            reveal_strlit("collection");
            vstd::string::is_ascii_spec_bytes(name);
            assert(name.spec_bytes() =~= entity_name(*self));
        }
        name.as_bytes()
    }
}

/// A card of a new board: its id, its type, and the place it starts in.
#[derive(Clone, Copy, Debug, PartialEq, Eq, Structural)]
pub struct PlacedCard {
    pub id: u32,
    pub card_type: u32,
    pub place: u32,
}

/// A deck entry as plain values: a place, and pairs of a card type and a
/// number of copies.
pub open spec fn deck_view(deck: Seq<(u32, Vec<(u32, u32)>)>) -> Seq<(u32, Seq<(u32, u32)>)> {
    deck.map_values(|e: (u32, Vec<(u32, u32)>)| (e.0, e.1@))
}

/// The cards that the pairs of card type and number of copies put in
/// `place`, as pairs of card type and place, in order.
pub open spec fn place_cards(place: u32, entries: Seq<(u32, u32)>) -> Seq<(u32, u32)>
    decreases entries.len(),
{
    if entries.len() == 0 {
        Seq::empty()
    } else {
        place_cards(place, entries.drop_last()) + Seq::new(entries.last().1 as nat, |i: int| (entries.last().0, place))
    }
}

/// The cards of a whole deck, as pairs of card type and place, place after place.
pub open spec fn deck_cards(deck: Seq<(u32, Seq<(u32, u32)>)>) -> Seq<(u32, u32)>
    decreases deck.len(),
{
    if deck.len() == 0 {
        Seq::empty()
    } else {
        deck_cards(deck.drop_last()) + place_cards(deck.last().0, deck.last().1)
    }
}

/// The cards a new board starts with: one for each copy in the deck of the
/// ruleset, in deck order, with ids counted from `0`.
pub fn initial_cards(ruleset: &Ruleset) -> (r: Vec<PlacedCard>)
    requires
        deck_cards(deck_view(ruleset.deck@)).len() <= u32::MAX,
    ensures
        r@.len() == deck_cards(deck_view(ruleset.deck@)).len(),
        forall|i: int|
            0 <= i < r@.len() ==> #[trigger] r@[i] == (PlacedCard {
                id: i as u32,
                card_type: deck_cards(deck_view(ruleset.deck@))[i].0,
                place: deck_cards(deck_view(ruleset.deck@))[i].1,
            }),
{
    let ghost deck = deck_view(ruleset.deck@);
    let mut cards: Vec<PlacedCard> = Vec::new();
    let mut card_id: u32 = 0;
    let mut p: usize = 0;
    while p < ruleset.deck.len()
        invariant
            p <= ruleset.deck@.len(),
            deck == deck_view(ruleset.deck@),
            deck_cards(deck).len() <= u32::MAX,
            card_id == cards@.len(),
            cards@.len() == deck_cards(deck.take(p as int)).len(),
            forall|i: int|
                0 <= i < cards@.len() ==> #[trigger] cards@[i] == (PlacedCard {
                    id: i as u32,
                    card_type: deck_cards(deck.take(p as int))[i].0,
                    place: deck_cards(deck.take(p as int))[i].1,
                }),
        decreases ruleset.deck@.len() - p,
    {
        let place_id = ruleset.deck[p].0;
        let index_amounts = &ruleset.deck[p].1;
        let ghost before = deck_cards(deck.take(p as int));
        proof {
            assert(deck.take(p + 1).drop_last() =~= deck.take(p as int));
            lemma_deck_cards_prefix(deck, p + 1);
        }
        let mut e: usize = 0;
        while e < index_amounts.len()
            invariant
                e <= index_amounts@.len(),
                p < deck.len(),
                deck[p as int] == (place_id, index_amounts@),
                deck_cards(deck).len() <= u32::MAX,
                before == deck_cards(deck.take(p as int)),
                before.len() + place_cards(place_id, index_amounts@).len() <= deck_cards(deck).len(),
                card_id == cards@.len(),
                cards@.len() == before.len() + place_cards(place_id, index_amounts@.take(e as int)).len(),
                forall|i: int|
                    0 <= i < cards@.len() ==> #[trigger] cards@[i] == (PlacedCard {
                        id: i as u32,
                        card_type: (before + place_cards(place_id, index_amounts@.take(e as int)))[i].0,
                        place: (before + place_cards(place_id, index_amounts@.take(e as int)))[i].1,
                    }),
            decreases index_amounts@.len() - e,
        {
            let card_type = index_amounts[e].0;
            let amount = index_amounts[e].1;
            let ghost prefix = before + place_cards(place_id, index_amounts@.take(e as int));
            proof {
                assert(index_amounts@.take(e + 1).drop_last() =~= index_amounts@.take(e as int));
                lemma_place_cards_prefix(place_id, index_amounts@, e + 1);
            }
            let mut i: u32 = 0;
            while i < amount
                invariant
                    i <= amount,
                    prefix.len() + amount <= deck_cards(deck).len(),
                    deck_cards(deck).len() <= u32::MAX,
                    card_id == cards@.len(),
                    cards@.len() == prefix.len() + i,
                    forall|m: int|
                        0 <= m < cards@.len() ==> #[trigger] cards@[m] == (PlacedCard {
                            id: m as u32,
                            card_type: (prefix + Seq::new(amount as nat, |j: int| (card_type, place_id)))[m].0,
                            place: (prefix + Seq::new(amount as nat, |j: int| (card_type, place_id)))[m].1,
                        }),
                decreases amount - i,
            {
                cards.push(PlacedCard { id: card_id, card_type, place: place_id });
                card_id = card_id + 1;
                i = i + 1;
            }
            proof {
                assert(before + place_cards(place_id, index_amounts@.take(e + 1)) =~= prefix + Seq::new(
                    amount as nat,
                    |j: int| (card_type, place_id),
                ));
            }
            e = e + 1;
        }
        proof {
            assert(index_amounts@.take(e as int) =~= index_amounts@);
        }
        p = p + 1;
    }
    proof {
        assert(deck.take(p as int) =~= deck);
    }
    cards
}

/// The cards of the first `k` places come first among the cards of a deck.
proof fn lemma_deck_cards_prefix(deck: Seq<(u32, Seq<(u32, u32)>)>, k: int)
    requires
        0 <= k <= deck.len(),
    ensures
        deck_cards(deck.take(k)).len() <= deck_cards(deck).len(),
    decreases deck.len() - k,
{
    if k < deck.len() {
        lemma_deck_cards_prefix(deck, k + 1);
        assert(deck.take(k + 1).drop_last() =~= deck.take(k));
    } else {
        assert(deck.take(k) =~= deck);
    }
}

/// The cards of the first `k` entries of a place come first among its cards.
proof fn lemma_place_cards_prefix(place: u32, entries: Seq<(u32, u32)>, k: int)
    requires
        0 <= k <= entries.len(),
    ensures
        place_cards(place, entries.take(k)).len() <= place_cards(place, entries).len(),
    decreases entries.len() - k,
{
    if k < entries.len() {
        lemma_place_cards_prefix(place, entries, k + 1);
        assert(entries.take(k + 1).drop_last() =~= entries.take(k));
    } else {
        assert(entries.take(k) =~= entries);
    }
}

/// The entries logged for the cards that start in place `0`, in order: the
/// first player is shown each of them.
pub open spec fn shown_cards(cards: Seq<PlacedCard>) -> Seq<LogEntry>
    decreases cards.len(),
{
    if cards.len() == 0 {
        Seq::empty()
    } else if cards.last().place == 0 {
        shown_cards(cards.drop_last()).push(LogEntry { player_id: 1, action_type: 0, action_data: cards.last().id })
    } else {
        shown_cards(cards.drop_last())
    }
}

/// What the fight log gains when a player joins a board that has
/// `player_count` players and holds `cards`: nothing (`None`) once the game
/// has two players; otherwise the joining player and a bot are added, each
/// logged under its number among the players, and then the cards in place
/// `0` are shown to the first player.
pub open spec fn spec_join_board_log(player_count: usize, cards: Seq<PlacedCard>) -> Option<Seq<LogEntry>> {
    if player_count > 1 {
        None
    } else {
        Some(
            seq![
                LogEntry { player_id: (player_count + 1) as u32, action_type: 1, action_data: 2 },
                LogEntry { player_id: (player_count + 2) as u32, action_type: 1, action_data: 2 },
            ] + shown_cards(cards),
        )
    }
}

/// The entries that joining a board adds to its fight log; see
/// [`spec_join_board_log`].
pub fn join_board_log(player_count: usize, cards: &[PlacedCard]) -> (r: Option<Vec<LogEntry>>)
    ensures
        match spec_join_board_log(player_count, cards@) {
            Some(entries) => r matches Some(v) && v@ == entries,
            None => r is None,
        },
{
    if player_count > 1 {
        return None;
    }
    let mut log: Vec<LogEntry> = Vec::new();
    log.push(LogEntry { player_id: (player_count + 1) as u32, action_type: 1, action_data: 2 });
    log.push(LogEntry { player_id: (player_count + 2) as u32, action_type: 1, action_data: 2 });
    let ghost head = log@;
    let mut i: usize = 0;
    while i < cards.len()
        invariant
            i <= cards@.len(),
            log@ == head + shown_cards(cards@.take(i as int)),
        decreases cards@.len() - i,
    {
        proof {
            assert(cards@.take(i + 1).drop_last() =~= cards@.take(i as int));
        }
        if cards[i].place == 0 {
            log.push(LogEntry { player_id: 1, action_type: 0, action_data: cards[i].id });
        }
        i = i + 1;
    }
    proof {
        assert(cards@.take(i as int) =~= cards@);
    }
    Some(log)
}

} // verus!
