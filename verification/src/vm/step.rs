//! What one instruction, and a run of instructions, does to a VM that runs
//! on a board.

use vstd::prelude::*;
use crate::board::{BoardView, spec_region_access};
use crate::board::memory_region::{MemoryRegionView, count_of_card_type, with_card_id};
use crate::card::{CardTypeView, CardView, spec_instantiate_card};
use crate::rom::card_type_ids;
use crate::search::first_index_of;
use crate::vm::enums::SingleExecutionResult;
use crate::vm::error::{Error as VmError, ErrorSource};
use crate::vm::log::EventView;
use crate::vm::memory::{
    advanced, args_panics, bool_binary_panics, call_panics, fn_return_panics, frame_top,
    ifjmp_panics, not_panics, num_binary_panics, num_unary_panics, pop_external_panics,
    pop_variable_panics, push_variable_panics, pushed, return_void_panics, spec_args,
    spec_bool_binary, spec_call, spec_fn_return, spec_function, spec_ifjmp, spec_not,
    spec_num_binary, spec_num_unary, spec_pop_external, spec_pop_no_inc, spec_pop_variable,
    spec_push_variable, spec_return_void, BoolOp, Error, MemoryView, NumOp, UnaryOp,
};
use crate::vmcommand::VMCommand;
use crate::word::{Word, spec_word_to_u32, spec_word_to_usize};

verus! {

/// Everything a run can change: the memory, the board and the log.
pub struct VmState {
    pub memory: MemoryView,
    pub board: BoardView,
    pub log: Seq<EventView>,
}

/// `s` with its memory replaced by `m`.
pub open spec fn with_memory(s: VmState, m: MemoryView) -> VmState {
    VmState { memory: m, ..s }
}

/// The outcome of an instruction that only works on the memory.
pub open spec fn on_memory(s: VmState, r: (MemoryView, Result<(), Error>)) -> (VmState, Result<(), Error>) {
    (with_memory(s, r.0), r.1)
}

/// An instruction that completed, leaving memory `m`.
pub open spec fn next(s: VmState, m: MemoryView) -> (VmState, Result<(), Error>) {
    (with_memory(s, m), Ok(()))
}

/// An instruction that failed with `e`, leaving memory `m`.
pub open spec fn fail(s: VmState, m: MemoryView, e: Error) -> (VmState, Result<(), Error>) {
    (with_memory(s, m), Err(e))
}

/// Pops the top value, which must be a number, without moving on.
pub open spec fn popped_numeric(m: MemoryView) -> (MemoryView, Result<i32, Error>) {
    let p = spec_pop_no_inc(m);
    (
        p.0,
        match p.1 {
            Err(e) => Err(e),
            Ok(Word::Numeric(i)) => Ok(i),
            Ok(Word::Boolean(_)) => Err(Error::TypeMismatch),
        },
    )
}

/// Whether region `index` of `b` is out of the current player's reach.
pub open spec fn unreachable(b: BoardView, index: usize) -> bool {
    spec_region_access(b, index) is Err
}

/// Region `index` of `b`, where it can be reached.
pub open spec fn region_of(b: BoardView, index: usize) -> MemoryRegionView {
    spec_region_access(b, index)->Ok_0
}

/// `b` with region `index` replaced by `region`.
pub open spec fn with_region(b: BoardView, index: usize, region: MemoryRegionView) -> BoardView {
    BoardView { regions: b.regions.update(index as int, region), ..b }
}

/// Whether popping a value without moving on overflows the frame bound.
pub open spec fn pop_no_inc_panics(m: MemoryView) -> bool {
    frame_top(m) + 1 > usize::MAX
}

// ---- region attributes ----

/// `LoadRegionAttr { region_index, attr_index }`.
pub open spec fn spec_load_region_attr(s: VmState, region_index: u16, attr_index: u16) -> (VmState, Result<(), Error>) {
    let region = region_of(s.board, region_index as usize);
    next(s, advanced(pushed(s.memory, region.attrs[attr_index as int])))
}

/// Whether `LoadRegionAttr { region_index, attr_index }` panics.
pub open spec fn load_region_attr_panics(s: VmState, region_index: u16, attr_index: u16) -> bool {
    unreachable(s.board, region_index as usize) || attr_index >= region_of(s.board, region_index as usize).attrs.len()
        || s.memory.pc == usize::MAX
}

/// `StoreRegionAttr { region_index, attr_index }`.
pub open spec fn spec_store_region_attr(s: VmState, region_index: u16, attr_index: u16) -> (VmState, Result<(), Error>) {
    let p = spec_pop_external(s.memory);
    match p.1 {
        Err(e) => fail(s, p.0, e),
        Ok(v) => {
            let region = region_of(s.board, region_index as usize);
            (
                VmState {
                    memory: p.0,
                    board: with_region(
                        s.board,
                        region_index as usize,
                        MemoryRegionView { attrs: region.attrs.update(attr_index as int, v), ..region },
                    ),
                    log: s.log.push(
                        EventView::RegionChange {
                            region_index,
                            attr_index,
                            previous_value: region.attrs[attr_index as int],
                            new_value: v,
                        },
                    ),
                },
                Ok(()),
            )
        },
    }
}

/// Whether `StoreRegionAttr { region_index, attr_index }` panics.
pub open spec fn store_region_attr_panics(s: VmState, region_index: u16, attr_index: u16) -> bool {
    pop_external_panics(s.memory) || (spec_pop_external(s.memory).1 is Ok && (unreachable(
        s.board,
        region_index as usize,
    ) || attr_index >= region_of(s.board, region_index as usize).attrs.len()))
}

// ---- cards ----

/// `PushCardCount { region_index }`.
pub open spec fn spec_card_count(s: VmState, region_index: u32) -> (VmState, Result<(), Error>) {
    let region = region_of(s.board, region_index as usize);
    next(s, advanced(pushed(s.memory, Word::Numeric(region.cards.len() as i32))))
}

/// Whether `PushCardCount { region_index }` panics.
pub open spec fn card_count_panics(s: VmState, region_index: u32) -> bool {
    unreachable(s.board, region_index as usize) || s.memory.pc == usize::MAX
}

/// `PushCardCountWithCardType { region_index }`.
pub open spec fn spec_count_with_type(s: VmState, region_index: u32) -> (VmState, Result<(), Error>) {
    let p = popped_numeric(s.memory);
    match p.1 {
        Err(e) => fail(s, p.0, e),
        Ok(t) => {
            let region = region_of(s.board, region_index as usize);
            next(s, advanced(pushed(p.0, Word::Numeric(count_of_card_type(region.cards, t as u32) as i32))))
        },
    }
}

/// Whether `PushCardCountWithCardType { region_index }` panics.
pub open spec fn count_with_type_panics(s: VmState, region_index: u32) -> bool {
    pop_no_inc_panics(s.memory) || (popped_numeric(s.memory).1 is Ok && (unreachable(s.board, region_index as usize)
        || s.memory.pc == usize::MAX))
}

/// `PushCardTypeByCardIndex { region_index }`.
pub open spec fn spec_card_type_by_index(s: VmState, region_index: u32) -> (VmState, Result<(), Error>) {
    let p = popped_numeric(s.memory);
    match p.1 {
        Err(e) => fail(s, p.0, e),
        Ok(i) => {
            let region = region_of(s.board, region_index as usize);
            next(s, advanced(pushed(p.0, Word::Numeric(region.cards[i as usize as int].card_type as i32))))
        },
    }
}

/// Whether `PushCardTypeByCardIndex { region_index }` panics.
pub open spec fn card_type_by_index_panics(s: VmState, region_index: u32) -> bool {
    pop_no_inc_panics(s.memory) || match popped_numeric(s.memory).1 {
        Ok(i) => unreachable(s.board, region_index as usize) || i as usize >= region_of(
            s.board,
            region_index as usize,
        ).cards.len() || s.memory.pc == usize::MAX,
        Err(_) => false,
    }
}

/// `LoadCardTypeAttrByTypeIndex { attr_index }`.
pub open spec fn spec_type_attr_by_type_index(types: Seq<CardTypeView>, s: VmState, attr_index: u32) -> (VmState, Result<(), Error>) {
    let p = popped_numeric(s.memory);
    match p.1 {
        Err(e) => fail(s, p.0, e),
        Ok(i) => next(s, advanced(pushed(p.0, types[i as usize as int].attrs[attr_index as int]))),
    }
}

/// Whether `LoadCardTypeAttrByTypeIndex { attr_index }` panics.
pub open spec fn type_attr_by_type_index_panics(types: Seq<CardTypeView>, s: VmState, attr_index: u32) -> bool {
    pop_no_inc_panics(s.memory) || match popped_numeric(s.memory).1 {
        Ok(i) => i as usize >= types.len() || attr_index >= types[i as usize as int].attrs.len()
            || s.memory.pc == usize::MAX,
        Err(_) => false,
    }
}

/// `LoadCardTypeAttrByCardIndex { region_index, attr_index }`.
pub open spec fn spec_type_attr_by_card_index(types: Seq<CardTypeView>, s: VmState, region_index: u16, attr_index: u16) -> (VmState, Result<(), Error>) {
    let p = popped_numeric(s.memory);
    match p.1 {
        Err(e) => fail(s, p.0, e),
        Ok(i) => {
            let card = region_of(s.board, region_index as usize).cards[i as usize as int];
            match first_index_of(card_type_ids(types), card.card_type) {
                None => fail(s, p.0, Error::NoSuchType),
                Some(k) => next(s, advanced(pushed(p.0, types[k].attrs[attr_index as int]))),
            }
        },
    }
}

/// Whether `LoadCardTypeAttrByCardIndex { region_index, attr_index }` panics.
pub open spec fn type_attr_by_card_index_panics(types: Seq<CardTypeView>, s: VmState, region_index: u16, attr_index: u16) -> bool {
    pop_no_inc_panics(s.memory) || match popped_numeric(s.memory).1 {
        Ok(i) => unreachable(s.board, region_index as usize) || i as usize >= region_of(
            s.board,
            region_index as usize,
        ).cards.len() || match first_index_of(
            card_type_ids(types),
            region_of(s.board, region_index as usize).cards[i as usize as int].card_type,
        ) {
            None => false,
            Some(k) => attr_index >= types[k].attrs.len() || s.memory.pc == usize::MAX,
        },
        Err(_) => false,
    }
}

/// `LoadCardAttrByCardIndex { region_index, attr_index }`.
pub open spec fn spec_load_card_attr(s: VmState, region_index: u16, attr_index: u16) -> (VmState, Result<(), Error>) {
    let p = popped_numeric(s.memory);
    match p.1 {
        Err(e) => fail(s, p.0, e),
        Ok(i) => {
            let card = region_of(s.board, region_index as usize).cards[i as usize as int];
            next(s, advanced(pushed(p.0, card.attrs[attr_index as int])))
        },
    }
}

/// Whether `LoadCardAttrByCardIndex { region_index, attr_index }` panics.
pub open spec fn load_card_attr_panics(s: VmState, region_index: u16, attr_index: u16) -> bool {
    pop_no_inc_panics(s.memory) || match popped_numeric(s.memory).1 {
        Ok(i) => unreachable(s.board, region_index as usize) || i as usize >= region_of(
            s.board,
            region_index as usize,
        ).cards.len() || attr_index >= region_of(s.board, region_index as usize).cards[i as usize as int].attrs.len()
            || s.memory.pc == usize::MAX,
        Err(_) => false,
    }
}

/// `StoreCardAttrByCardIndex { region_index, attr_index }`: pops the card
/// index, then the value.
pub open spec fn spec_store_card_attr(s: VmState, region_index: u16, attr_index: u16) -> (VmState, Result<(), Error>) {
    let p = popped_numeric(s.memory);
    match p.1 {
        Err(e) => fail(s, p.0, e),
        Ok(i) => {
            let q = spec_pop_external(p.0);
            match q.1 {
                Err(e) => fail(s, q.0, e),
                Ok(v) => {
                    let region = region_of(s.board, region_index as usize);
                    let idx = i as usize as int;
                    let card = region.cards[idx];
                    (
                        VmState {
                            memory: q.0,
                            board: with_region(
                                s.board,
                                region_index as usize,
                                MemoryRegionView {
                                    cards: region.cards.update(
                                        idx,
                                        CardView { attrs: card.attrs.update(attr_index as int, v), ..card },
                                    ),
                                    ..region
                                },
                            ),
                            log: s.log.push(
                                EventView::CardChange {
                                    region_index,
                                    card_index: i as u32,
                                    attr_index,
                                    previous_value: card.attrs[attr_index as int],
                                    new_value: v,
                                },
                            ),
                        },
                        Ok(()),
                    )
                },
            }
        },
    }
}

/// Whether `StoreCardAttrByCardIndex { region_index, attr_index }` panics.
pub open spec fn store_card_attr_panics(s: VmState, region_index: u16, attr_index: u16) -> bool {
    let p = popped_numeric(s.memory);
    pop_no_inc_panics(s.memory) || match p.1 {
        Ok(i) => unreachable(s.board, region_index as usize) || i as usize >= region_of(
            s.board,
            region_index as usize,
        ).cards.len() || pop_external_panics(p.0) || (spec_pop_external(p.0).1 is Ok && attr_index >= region_of(
            s.board,
            region_index as usize,
        ).cards[i as usize as int].attrs.len()),
        Err(_) => false,
    }
}

/// `b` with a new card `card` after the last card of region `index`, and
/// the next card id handed out.
pub open spec fn with_new_card(b: BoardView, index: usize, card: CardView) -> BoardView {
    let region = region_of(b, index);
    BoardView {
        regions: b.regions.update(index as int, MemoryRegionView { cards: region.cards.push(card), ..region }),
        card_index: (b.card_index + 1) as u32,
        ..b
    }
}

/// `InstanceCardByTypeIndex { region_index }`.
pub open spec fn spec_instance_by_index(types: Seq<CardTypeView>, s: VmState, region_index: u16) -> (VmState, Result<(), Error>) {
    let p = spec_pop_external(s.memory);
    match p.1 {
        Err(e) => fail(s, p.0, e),
        Ok(Word::Boolean(_)) => fail(s, p.0, Error::TypeMismatch),
        Ok(Word::Numeric(i)) => {
            let id = i as u32;
            let board = with_new_card(
                s.board,
                region_index as usize,
                spec_instantiate_card(types[id as int], s.board.card_index),
            );
            (
                VmState {
                    memory: p.0,
                    board,
                    log: s.log.push(
                        EventView::AddCardByIndex {
                            card_index: (region_of(board, region_index as usize).cards.len() - 1) as u32,
                            cardtype_index: id,
                        },
                    ),
                },
                Ok(()),
            )
        },
    }
}

/// Whether `InstanceCardByTypeIndex { region_index }` panics: running out of
/// card ids, an unreachable region, a negative index, or an index past the
/// types all panic.
pub open spec fn instance_by_index_panics(types: Seq<CardTypeView>, s: VmState, region_index: u16) -> bool {
    pop_external_panics(s.memory) || match spec_pop_external(s.memory).1 {
        Ok(Word::Numeric(i)) => s.board.card_index == u32::MAX || unreachable(s.board, region_index as usize) || i < 0
            || i >= types.len(),
        _ => false,
    }
}

/// `InstanceCardByTypeId { region_index }`.
pub open spec fn spec_instance_by_id(types: Seq<CardTypeView>, s: VmState, region_index: u16) -> (VmState, Result<(), Error>) {
    let p = spec_pop_external(s.memory);
    match p.1 {
        Err(e) => fail(s, p.0, e),
        Ok(Word::Boolean(_)) => fail(s, p.0, Error::TypeMismatch),
        Ok(Word::Numeric(i)) => {
            let id = i as u32;
            let k = first_index_of(card_type_ids(types), id)->Some_0;
            let board = with_new_card(
                s.board,
                region_index as usize,
                spec_instantiate_card(types[k], s.board.card_index),
            );
            (
                VmState {
                    memory: p.0,
                    board,
                    log: s.log.push(
                        EventView::AddCardById {
                            card_index: (region_of(board, region_index as usize).cards.len() - 1) as u32,
                            cardtype_id: id,
                        },
                    ),
                },
                Ok(()),
            )
        },
    }
}

/// Whether `InstanceCardByTypeId { region_index }` panics: running out of
/// card ids, an unreachable region, a negative id, or an id that no type has
/// all panic.
pub open spec fn instance_by_id_panics(types: Seq<CardTypeView>, s: VmState, region_index: u16) -> bool {
    pop_external_panics(s.memory) || match spec_pop_external(s.memory).1 {
        Ok(Word::Numeric(i)) => s.board.card_index == u32::MAX || unreachable(s.board, region_index as usize) || i < 0
            || first_index_of(card_type_ids(types), i as u32) is None,
        _ => false,
    }
}

/// `CallCardAction`: pops the action index, then the type index, and calls
/// the action's entry point.
pub open spec fn spec_call_card_action(types: Seq<CardTypeView>, s: VmState) -> (VmState, Result<(), Error>) {
    let p = spec_pop_no_inc(s.memory);
    match p.1 {
        Err(e) => fail(s, p.0, e),
        Ok(w) => match spec_word_to_usize(w) {
            Err(_) => fail(s, p.0, Error::TypeMismatch),
            Ok(action) => {
                let q = spec_pop_no_inc(p.0);
                match q.1 {
                    Err(e) => fail(s, q.0, e),
                    Ok(w2) => match spec_word_to_usize(w2) {
                        Err(_) => fail(s, q.0, Error::TypeMismatch),
                        Ok(ti) => {
                            let ep = types[ti as int].action_entry_points[action as int];
                            let m = spec_call(q.0, ep.spec_address() as usize, ep.spec_n_args() as usize);
                            (
                                VmState {
                                    memory: m,
                                    board: s.board,
                                    log: s.log.push(
                                        EventView::CardActionStarted {
                                            cardtype_index: ti as u32,
                                            action_index: action as u32,
                                            args: spec_args(m),
                                        },
                                    ),
                                },
                                Ok(()),
                            )
                        },
                    },
                }
            },
        },
    }
}

/// Whether `CallCardAction` panics.
pub open spec fn call_card_action_panics(types: Seq<CardTypeView>, s: VmState) -> bool {
    let p = spec_pop_no_inc(s.memory);
    pop_no_inc_panics(s.memory) || match p.1 {
        Ok(w) => match spec_word_to_usize(w) {
            Ok(action) => {
                let q = spec_pop_no_inc(p.0);
                match q.1 {
                    Ok(w2) => match spec_word_to_usize(w2) {
                        Ok(ti) => ti >= types.len() || action >= types[ti as int].action_entry_points.len()
                            || call_panics(
                            q.0,
                            types[ti as int].action_entry_points[action as int].spec_n_args() as usize,
                        ),
                        Err(_) => false,
                    },
                    Err(_) => false,
                }
            },
            Err(_) => false,
        },
        Err(_) => false,
    }
}

/// `RemoveCardByIndex { region_index }`.
pub open spec fn spec_remove_by_index(s: VmState, region_index: u16) -> (VmState, Result<(), Error>) {
    let p = spec_pop_external(s.memory);
    match p.1 {
        Err(e) => fail(s, p.0, e),
        Ok(w) => match spec_word_to_usize(w) {
            Err(_) => fail(s, p.0, Error::TypeMismatch),
            Ok(i) => {
                let region = region_of(s.board, region_index as usize);
                (
                    VmState {
                        memory: p.0,
                        board: with_region(
                            s.board,
                            region_index as usize,
                            MemoryRegionView { cards: region.cards.remove(i as int), ..region },
                        ),
                        log: s.log.push(EventView::RemoveCard { card_id: region.cards[i as int].id }),
                    },
                    Ok(()),
                )
            },
        },
    }
}

/// Whether `RemoveCardByIndex { region_index }` panics: the region is
/// reached before anything is popped.
pub open spec fn remove_by_index_panics(s: VmState, region_index: u16) -> bool {
    unreachable(s.board, region_index as usize) || pop_external_panics(s.memory) || match spec_pop_external(
        s.memory,
    ).1 {
        Ok(w) => match spec_word_to_usize(w) {
            Ok(i) => i >= region_of(s.board, region_index as usize).cards.len(),
            Err(_) => false,
        },
        Err(_) => false,
    }
}

/// The regions of `b` after every reachable one among the first `n` kept
/// only its cards whose id is `id`.
pub open spec fn regions_with_card_id(b: BoardView, id: u32, n: nat) -> Seq<MemoryRegionView> {
    Seq::new(
        b.regions.len(),
        |k: int|
            if k < n && b.readable[k] {
                MemoryRegionView { cards: with_card_id(b.regions[k].cards, id), ..b.regions[k] }
            } else {
                b.regions[k]
            },
    )
}

/// The removals logged while the first `n` regions of `b` are filtered:
/// one for each card with id `id` in a reachable region.
pub open spec fn removal_log(b: BoardView, id: u32, n: nat) -> Seq<EventView>
    decreases n,
{
    if n == 0 {
        Seq::empty()
    } else {
        let k = (n - 1) as int;
        removal_log(b, id, (n - 1) as nat) + if b.readable[k] {
            Seq::new(with_card_id(b.regions[k].cards, id).len(), |j: int| EventView::RemoveCard { card_id: id })
        } else {
            Seq::empty()
        }
    }
}

/// `RemoveCardById`: every reachable region keeps exactly its cards whose id
/// is the popped id, and a removal is logged for each of them.
pub open spec fn spec_remove_by_id(s: VmState) -> (VmState, Result<(), Error>) {
    let p = spec_pop_external(s.memory);
    match p.1 {
        Err(e) => fail(s, p.0, e),
        Ok(w) => match spec_word_to_u32(w) {
            Err(_) => fail(s, p.0, Error::TypeMismatch),
            Ok(id) => (
                VmState {
                    memory: p.0,
                    board: BoardView { regions: regions_with_card_id(s.board, id, s.board.regions.len()), ..s.board },
                    log: s.log + removal_log(s.board, id, s.board.regions.len()),
                },
                Ok(()),
            ),
        },
    }
}

// ---- one instruction ----

/// Whether `c` is one of the instructions that are not implemented; they
/// all panic.
pub open spec fn unimplemented_command(c: VMCommand) -> bool {
    match c {
        VMCommand::PushCardTypeByCardId => true,
        VMCommand::LoadCardTypeAttrByCardId { .. } => true,
        VMCommand::LoadCardAttrByCardId { .. } => true,
        VMCommand::StoreCardAttrByCardId { .. } => true,
        VMCommand::ReadPlayerInput => true,
        VMCommand::ReadRandomInput => true,
        _ => false,
    }
}

/// What instruction `c` does to `s`, given the card types.
pub open spec fn spec_command(types: Seq<CardTypeView>, s: VmState, c: VMCommand) -> (VmState, Result<(), Error>) {
    let m = s.memory;
    match c {
        VMCommand::Halt => (s, Err(Error::Halt)),
        VMCommand::Add => on_memory(s, spec_num_binary(m, NumOp::Add)),
        VMCommand::Sub => on_memory(s, spec_num_binary(m, NumOp::Sub)),
        VMCommand::Div => on_memory(s, spec_num_binary(m, NumOp::Div)),
        VMCommand::Mul => on_memory(s, spec_num_binary(m, NumOp::Mul)),
        VMCommand::Rem => on_memory(s, spec_num_binary(m, NumOp::Rem)),
        VMCommand::Neg => on_memory(s, spec_num_unary(m, UnaryOp::Neg)),
        VMCommand::Inc => on_memory(s, spec_num_unary(m, UnaryOp::Inc)),
        VMCommand::Dec => on_memory(s, spec_num_unary(m, UnaryOp::Dec)),
        VMCommand::Abs => on_memory(s, spec_num_unary(m, UnaryOp::Abs)),
        VMCommand::Eq => on_memory(s, spec_num_binary(m, NumOp::Equal)),
        VMCommand::Gt => on_memory(s, spec_num_binary(m, NumOp::Gt)),
        VMCommand::Lt => on_memory(s, spec_num_binary(m, NumOp::Lt)),
        VMCommand::And => on_memory(s, spec_bool_binary(m, BoolOp::And)),
        VMCommand::Or => on_memory(s, spec_bool_binary(m, BoolOp::Or)),
        VMCommand::Not => on_memory(s, spec_not(m)),
        VMCommand::PushConstant(w) => next(s, advanced(pushed(m, w))),
        VMCommand::LoadRegionAttr { region_index, attr_index } => spec_load_region_attr(s, region_index, attr_index),
        VMCommand::StoreRegionAttr { region_index, attr_index } => spec_store_region_attr(s, region_index, attr_index),
        VMCommand::LoadLocal { index } => on_memory(s, spec_push_variable(m, true, index as usize)),
        VMCommand::StoreLocal { index } => on_memory(s, spec_pop_variable(m, true, index as usize)),
        VMCommand::LoadArgument { index } => on_memory(s, spec_push_variable(m, false, index as usize)),
        VMCommand::StoreArgument { index } => on_memory(s, spec_pop_variable(m, false, index as usize)),
        VMCommand::Goto(address) => next(s, MemoryView { pc: address as usize, ..m }),
        VMCommand::IfGoto(address) => on_memory(s, spec_ifjmp(m, address as usize)),
        VMCommand::Function { n_locals } => next(s, spec_function(m, n_locals as usize)),
        VMCommand::Call { address, n_args } => next(s, spec_call(m, address as usize, n_args as usize)),
        VMCommand::Return => on_memory(s, spec_fn_return(m)),
        VMCommand::ReturnVoid => on_memory(s, spec_return_void(m)),
        VMCommand::PushCardCount { region_index } => spec_card_count(s, region_index),
        VMCommand::PushTypeCount => next(s, advanced(pushed(m, Word::Numeric(types.len() as i32)))),
        VMCommand::PushCardCountWithCardType { region_index } => spec_count_with_type(s, region_index),
        VMCommand::PushCardTypeByCardIndex { region_index } => spec_card_type_by_index(s, region_index),
        VMCommand::LoadCardTypeAttrByTypeIndex { attr_index } => spec_type_attr_by_type_index(types, s, attr_index),
        VMCommand::LoadCardTypeAttrByCardIndex { region_index, attr_index } => spec_type_attr_by_card_index(
            types,
            s,
            region_index,
            attr_index,
        ),
        VMCommand::LoadCardAttrByCardIndex { region_index, attr_index } => spec_load_card_attr(s, region_index, attr_index),
        VMCommand::StoreCardAttrByCardIndex { region_index, attr_index } => spec_store_card_attr(s, region_index, attr_index),
        VMCommand::InstanceCardByTypeIndex { region_index } => spec_instance_by_index(types, s, region_index),
        VMCommand::InstanceCardByTypeId { region_index } => spec_instance_by_id(types, s, region_index),
        VMCommand::CallCardAction => spec_call_card_action(types, s),
        VMCommand::RemoveCardByIndex { region_index } => spec_remove_by_index(s, region_index),
        VMCommand::RemoveCardById => spec_remove_by_id(s),
        _ => (s, Ok(())),
    }
}

/// Whether instruction `c` panics on `s`.
pub open spec fn command_panics(types: Seq<CardTypeView>, s: VmState, c: VMCommand) -> bool {
    let m = s.memory;
    match c {
        VMCommand::Halt => false,
        VMCommand::Add => num_binary_panics(m, NumOp::Add),
        VMCommand::Sub => num_binary_panics(m, NumOp::Sub),
        VMCommand::Div => num_binary_panics(m, NumOp::Div),
        VMCommand::Mul => num_binary_panics(m, NumOp::Mul),
        VMCommand::Rem => num_binary_panics(m, NumOp::Rem),
        VMCommand::Neg => num_unary_panics(m, UnaryOp::Neg),
        VMCommand::Inc => num_unary_panics(m, UnaryOp::Inc),
        VMCommand::Dec => num_unary_panics(m, UnaryOp::Dec),
        VMCommand::Abs => num_unary_panics(m, UnaryOp::Abs),
        VMCommand::Eq => num_binary_panics(m, NumOp::Equal),
        VMCommand::Gt => num_binary_panics(m, NumOp::Gt),
        VMCommand::Lt => num_binary_panics(m, NumOp::Lt),
        VMCommand::And => bool_binary_panics(m),
        VMCommand::Or => bool_binary_panics(m),
        VMCommand::Not => not_panics(m),
        VMCommand::PushConstant(_) => m.pc == usize::MAX,
        VMCommand::LoadRegionAttr { region_index, attr_index } => load_region_attr_panics(s, region_index, attr_index),
        VMCommand::StoreRegionAttr { region_index, attr_index } => store_region_attr_panics(s, region_index, attr_index),
        VMCommand::LoadLocal { index } => push_variable_panics(m, true, index as usize),
        VMCommand::StoreLocal { index } => pop_variable_panics(m, true, index as usize),
        VMCommand::LoadArgument { index } => push_variable_panics(m, false, index as usize),
        VMCommand::StoreArgument { index } => pop_variable_panics(m, false, index as usize),
        VMCommand::Goto(_) => false,
        VMCommand::IfGoto(_) => ifjmp_panics(m),
        VMCommand::Function { .. } => m.pc == usize::MAX,
        VMCommand::Call { n_args, .. } => call_panics(m, n_args as usize),
        VMCommand::Return => fn_return_panics(m),
        VMCommand::ReturnVoid => return_void_panics(m),
        VMCommand::PushCardCount { region_index } => card_count_panics(s, region_index),
        VMCommand::PushTypeCount => m.pc == usize::MAX,
        VMCommand::PushCardCountWithCardType { region_index } => count_with_type_panics(s, region_index),
        VMCommand::PushCardTypeByCardIndex { region_index } => card_type_by_index_panics(s, region_index),
        VMCommand::LoadCardTypeAttrByTypeIndex { attr_index } => type_attr_by_type_index_panics(types, s, attr_index),
        VMCommand::LoadCardTypeAttrByCardIndex { region_index, attr_index } => type_attr_by_card_index_panics(
            types,
            s,
            region_index,
            attr_index,
        ),
        VMCommand::LoadCardAttrByCardIndex { region_index, attr_index } => load_card_attr_panics(s, region_index, attr_index),
        VMCommand::StoreCardAttrByCardIndex { region_index, attr_index } => store_card_attr_panics(
            s,
            region_index,
            attr_index,
        ),
        VMCommand::InstanceCardByTypeIndex { region_index } => instance_by_index_panics(types, s, region_index),
        VMCommand::InstanceCardByTypeId { region_index } => instance_by_id_panics(types, s, region_index),
        VMCommand::CallCardAction => call_card_action_panics(types, s),
        VMCommand::RemoveCardByIndex { region_index } => remove_by_index_panics(s, region_index),
        VMCommand::RemoveCardById => pop_external_panics(m),
        _ => unimplemented_command(c),
    }
}

/// One step: the instruction at the program counter.
pub open spec fn spec_step(instrs: Seq<VMCommand>, types: Seq<CardTypeView>, s: VmState) -> (VmState, Result<(), Error>) {
    spec_command(types, s, instrs[s.memory.pc as int])
}

/// Whether a step panics: the program counter is past the program, or the instruction panics.
pub open spec fn step_panics(instrs: Seq<VMCommand>, types: Seq<CardTypeView>, s: VmState) -> bool {
    s.memory.pc >= instrs.len() || command_panics(types, s, instrs[s.memory.pc as int])
}

// ---- a run ----

/// At most `n` steps: the run stops at `Halt` (finished), at the first
/// failing instruction (an error naming where the program counter then is),
/// or after `n` completed steps (unfinished).
pub open spec fn spec_run(instrs: Seq<VMCommand>, types: Seq<CardTypeView>, s: VmState, n: nat) -> (VmState, Result<SingleExecutionResult, VmError>)
    decreases n,
{
    if n == 0 {
        (s, Ok(SingleExecutionResult::Unfinished))
    } else {
        let t = spec_step(instrs, types, s);
        match t.1 {
            Ok(()) => spec_run(instrs, types, t.0, (n - 1) as nat),
            Err(Error::Halt) => (t.0, Ok(SingleExecutionResult::Finished)),
            Err(e) => (
                t.0,
                Err(VmError { instruction: t.0.memory.pc as u32, source: ErrorSource::MemoryError { source: e } }),
            ),
        }
    }
}

/// Whether one of the at most `n` steps of a run panics.
pub open spec fn run_panics(instrs: Seq<VMCommand>, types: Seq<CardTypeView>, s: VmState, n: nat) -> bool
    decreases n,
{
    n > 0 && (step_panics(instrs, types, s) || (spec_step(instrs, types, s).1 is Ok && run_panics(
        instrs,
        types,
        spec_step(instrs, types, s).0,
        (n - 1) as nat,
    )))
}

} // verus!
