//! What one instruction, and a run of instructions, does to a VM that runs on
//! a game state.

use vstd::prelude::*;
use crate::word::{Word, spec_word_to_u32, spec_word_to_usize};
use crate::card::EntryPoint;
use crate::on_chain_types::game_state::{GameStateView, count_of_type, with_id};
use crate::on_chain_types::object::ObjectView;
use crate::on_chain_types::object_type::{ObjectTypeView, object_type_ids, spec_instantiate_object};
use crate::on_chain_types::vmcommand::VMCommand;
use crate::game_vm::log::EventView;
use crate::search::first_index_of;
use crate::vm::enums::SingleExecutionResult;
use crate::vm::error::{Error as VmError, ErrorSource};
use crate::vm::memory::{
    advanced, args_panics, bool_binary_panics, call_panics, fn_return_panics, frame_top,
    ifjmp_panics, not_panics, num_binary_panics, num_unary_panics, pop_external_panics,
    pop_variable_panics, push_variable_panics, pushed, return_void_panics, spec_args,
    spec_bool_binary, spec_call, spec_fn_return, spec_function, spec_ifjmp, spec_not,
    spec_num_binary, spec_num_unary, spec_pop_external, spec_pop_no_inc, spec_pop_variable,
    spec_push_variable, spec_return_void, BoolOp, Error, MemoryView, NumOp, UnaryOp,
};

verus! {

/// Everything a run can change: the memory, the game state and the log.
pub struct VmState {
    pub memory: MemoryView,
    pub game: GameStateView,
    pub log: Seq<EventView>,
}

/// `s` with its memory replaced by `m`.
pub open spec fn with_memory(s: VmState, m: MemoryView) -> VmState {
    VmState { memory: m, ..s }
}

/// The outcome of an instruction that only works on the memory.
pub open spec fn on_memory(s: VmState, r: (MemoryView, Result<(), Error>)) -> (VmState, Result<(), Error>) {
    (with_memory(s, r.0), r.1)
}

/// An instruction that completed, leaving memory `m`.
pub open spec fn next(s: VmState, m: MemoryView) -> (VmState, Result<(), Error>) {
    (with_memory(s, m), Ok(()))
}

/// An instruction that failed with `e`, leaving memory `m`.
pub open spec fn fail(s: VmState, m: MemoryView, e: Error) -> (VmState, Result<(), Error>) {
    (with_memory(s, m), Err(e))
}

/// Pops the top value, which must be a number, without moving on.
pub open spec fn popped_numeric(m: MemoryView) -> (MemoryView, Result<i32, Error>) {
    let p = spec_pop_no_inc(m);
    (
        p.0,
        match p.1 {
            Err(e) => Err(e),
            Ok(Word::Numeric(i)) => Ok(i),
            Ok(Word::Boolean(_)) => Err(Error::TypeMismatch),
        },
    )
}

// ---- game state attributes ----

/// `StoreGameStateAttr { index }`.
pub open spec fn spec_store_game_attr(s: VmState, index: u32) -> (VmState, Result<(), Error>) {
    let p = spec_pop_external(s.memory);
    match p.1 {
        Err(e) => fail(s, p.0, e),
        Ok(v) => (
            VmState {
                memory: p.0,
                game: GameStateView { attrs: s.game.attrs.update(index as int, v), ..s.game },
                log: s.log.push(
                    EventView::GameStateChange {
                        attr_index: index,
                        previous_value: s.game.attrs[index as int],
                        new_value: v,
                    },
                ),
            },
            Ok(()),
        ),
    }
}

/// Whether `StoreGameStateAttr { index }` panics.
pub open spec fn store_game_attr_panics(s: VmState, index: u32) -> bool {
    pop_external_panics(s.memory) || (spec_pop_external(s.memory).1 is Ok && index >= s.game.attrs.len())
}

// ---- objects ----

/// `PushObjectCountWithObjectType`.
pub open spec fn spec_count_with_type(s: VmState) -> (VmState, Result<(), Error>) {
    let p = popped_numeric(s.memory);
    match p.1 {
        Err(e) => fail(s, p.0, e),
        Ok(t) => next(s, advanced(pushed(p.0, Word::Numeric(count_of_type(s.game.objects, t as u32) as i32)))),
    }
}

/// Whether `PushObjectCountWithObjectType` panics.
pub open spec fn count_with_type_panics(s: VmState) -> bool {
    frame_top(s.memory) + 1 > usize::MAX || (popped_numeric(s.memory).1 is Ok && s.memory.pc == usize::MAX)
}

/// `PushObjectType`.
pub open spec fn spec_push_object_type(s: VmState) -> (VmState, Result<(), Error>) {
    let p = popped_numeric(s.memory);
    match p.1 {
        Err(e) => fail(s, p.0, e),
        Ok(i) => next(
            s,
            advanced(pushed(p.0, Word::Numeric(s.game.objects[i as usize as int].object_type as i32))),
        ),
    }
}

/// Whether `PushObjectType` panics.
pub open spec fn push_object_type_panics(s: VmState) -> bool {
    frame_top(s.memory) + 1 > usize::MAX || match popped_numeric(s.memory).1 {
        Ok(i) => i as usize >= s.game.objects.len() || s.memory.pc == usize::MAX,
        Err(_) => false,
    }
}

/// `LoadObjectTypeAttrByTypeIndex { attr_index }`.
pub open spec fn spec_type_attr_by_type_index(types: Seq<ObjectTypeView>, s: VmState, attr_index: u32) -> (VmState, Result<(), Error>) {
    let p = popped_numeric(s.memory);
    match p.1 {
        Err(e) => fail(s, p.0, e),
        Ok(i) => next(s, advanced(pushed(p.0, types[i as usize as int].attrs[attr_index as int]))),
    }
}

/// Whether `LoadObjectTypeAttrByTypeIndex { attr_index }` panics.
pub open spec fn type_attr_by_type_index_panics(types: Seq<ObjectTypeView>, s: VmState, attr_index: u32) -> bool {
    frame_top(s.memory) + 1 > usize::MAX || match popped_numeric(s.memory).1 {
        Ok(i) => i as usize >= types.len() || attr_index >= types[i as usize as int].attrs.len()
            || s.memory.pc == usize::MAX,
        Err(_) => false,
    }
}

/// `LoadObjectTypeAttrByObjectIndex { attr_index }`.
pub open spec fn spec_type_attr_by_object_index(types: Seq<ObjectTypeView>, s: VmState, attr_index: u32) -> (VmState, Result<(), Error>) {
    let p = popped_numeric(s.memory);
    match p.1 {
        Err(e) => fail(s, p.0, e),
        Ok(i) => match first_index_of(object_type_ids(types), s.game.objects[i as usize as int].object_type) {
            None => fail(s, p.0, Error::NoSuchType),
            Some(k) => next(s, advanced(pushed(p.0, types[k].attrs[attr_index as int]))),
        },
    }
}

/// Whether `LoadObjectTypeAttrByObjectIndex { attr_index }` panics.
pub open spec fn type_attr_by_object_index_panics(types: Seq<ObjectTypeView>, s: VmState, attr_index: u32) -> bool {
    frame_top(s.memory) + 1 > usize::MAX || match popped_numeric(s.memory).1 {
        Ok(i) => i as usize >= s.game.objects.len() || match first_index_of(
            object_type_ids(types),
            s.game.objects[i as usize as int].object_type,
        ) {
            None => false,
            Some(k) => attr_index >= types[k].attrs.len() || s.memory.pc == usize::MAX,
        },
        Err(_) => false,
    }
}

/// `LoadObjectAttr { attr_index }`.
pub open spec fn spec_load_object_attr(s: VmState, attr_index: u32) -> (VmState, Result<(), Error>) {
    let p = spec_pop_no_inc(s.memory);
    match p.1 {
        Err(e) => fail(s, p.0, e),
        Ok(w) => next(
            s,
            advanced(pushed(p.0, s.game.objects[w->Numeric_0 as usize as int].attrs[attr_index as int])),
        ),
    }
}

/// Whether `LoadObjectAttr { attr_index }` panics; a boolean index is a panic.
pub open spec fn load_object_attr_panics(s: VmState, attr_index: u32) -> bool {
    frame_top(s.memory) + 1 > usize::MAX || match spec_pop_no_inc(s.memory).1 {
        Ok(Word::Numeric(i)) => i as usize >= s.game.objects.len() || attr_index
            >= s.game.objects[i as usize as int].attrs.len() || s.memory.pc == usize::MAX,
        Ok(Word::Boolean(_)) => true,
        Err(_) => false,
    }
}

/// `StoreObjectAttr { attr_index }`.
pub open spec fn spec_store_object_attr(s: VmState, attr_index: u32) -> (VmState, Result<(), Error>) {
    let p = popped_numeric(s.memory);
    match p.1 {
        Err(e) => fail(s, p.0, e),
        Ok(i) => {
            let q = spec_pop_external(p.0);
            match q.1 {
                Err(e) => fail(s, q.0, e),
                Ok(v) => {
                    let idx = i as usize as int;
                    let object = s.game.objects[idx];
                    (
                        VmState {
                            memory: q.0,
                            game: GameStateView {
                                objects: s.game.objects.update(
                                    idx,
                                    ObjectView { attrs: object.attrs.update(attr_index as int, v), ..object },
                                ),
                                ..s.game
                            },
                            log: s.log.push(
                                EventView::ObjectChange {
                                    object_index: i as u32,
                                    attr_index,
                                    previous_value: object.attrs[attr_index as int],
                                    new_value: v,
                                },
                            ),
                        },
                        Ok(()),
                    )
                },
            }
        },
    }
}

/// Whether `StoreObjectAttr { attr_index }` panics.
pub open spec fn store_object_attr_panics(s: VmState, attr_index: u32) -> bool {
    let p = popped_numeric(s.memory);
    frame_top(s.memory) + 1 > usize::MAX || match p.1 {
        Ok(i) => i as usize >= s.game.objects.len() || pop_external_panics(p.0) || (spec_pop_external(
            p.0,
        ).1 is Ok && attr_index >= s.game.objects[i as usize as int].attrs.len()),
        Err(_) => false,
    }
}

/// The game with a new object `o` and the next object id handed out.
pub open spec fn with_new_object(g: GameStateView, o: ObjectView) -> GameStateView {
    GameStateView { objects: g.objects.push(o), attrs: g.attrs, object_index: (g.object_index + 1) as u32 }
}

/// `InstanceObjectByTypeIndex`.
pub open spec fn spec_instance_by_index(types: Seq<ObjectTypeView>, s: VmState) -> (VmState, Result<(), Error>) {
    let p = spec_pop_external(s.memory);
    match p.1 {
        Err(e) => fail(s, p.0, e),
        Ok(Word::Boolean(_)) => fail(s, p.0, Error::TypeMismatch),
        Ok(Word::Numeric(i)) => {
            let id = i as u32;
            let game = with_new_object(s.game, spec_instantiate_object(types[id as int], s.game.object_index));
            (
                VmState {
                    memory: p.0,
                    game,
                    log: s.log.push(
                        EventView::AddObjectByIndex {
                            object_index: (game.objects.len() - 1) as u32,
                            object_type_index: id,
                        },
                    ),
                },
                Ok(()),
            )
        },
    }
}

/// Whether `InstanceObjectByTypeIndex` panics: a negative index, running out
/// of object ids, or an index past the types all panic.
pub open spec fn instance_by_index_panics(types: Seq<ObjectTypeView>, s: VmState) -> bool {
    pop_external_panics(s.memory) || match spec_pop_external(s.memory).1 {
        Ok(Word::Numeric(i)) => i < 0 || s.game.object_index == u32::MAX || i >= types.len(),
        _ => false,
    }
}

/// `InstanceObjectByTypeId`.
pub open spec fn spec_instance_by_id(types: Seq<ObjectTypeView>, s: VmState) -> (VmState, Result<(), Error>) {
    let p = spec_pop_external(s.memory);
    match p.1 {
        Err(e) => fail(s, p.0, e),
        Ok(Word::Boolean(_)) => fail(s, p.0, Error::TypeMismatch),
        Ok(Word::Numeric(i)) => {
            let id = i as u32;
            let k = first_index_of(object_type_ids(types), id)->Some_0;
            let game = with_new_object(s.game, spec_instantiate_object(types[k], s.game.object_index));
            (
                VmState {
                    memory: p.0,
                    game,
                    log: s.log.push(
                        EventView::AddObjectById {
                            object_index: (game.objects.len() - 1) as u32,
                            object_type_id: id,
                        },
                    ),
                },
                Ok(()),
            )
        },
    }
}

/// Whether `InstanceObjectByTypeId` panics: a negative id, running out of
/// object ids, or an id that no type has all panic.
pub open spec fn instance_by_id_panics(types: Seq<ObjectTypeView>, s: VmState) -> bool {
    pop_external_panics(s.memory) || match spec_pop_external(s.memory).1 {
        Ok(Word::Numeric(i)) => i < 0 || s.game.object_index == u32::MAX || first_index_of(
            object_type_ids(types),
            i as u32,
        ) is None,
        _ => false,
    }
}

/// `CallObjectAction`: pops the action index, then the type index, and calls
/// the action's entry point.
pub open spec fn spec_call_object_action(types: Seq<ObjectTypeView>, s: VmState) -> (VmState, Result<(), Error>) {
    let p = spec_pop_no_inc(s.memory);
    match p.1 {
        Err(e) => fail(s, p.0, e),
        Ok(w) => match spec_word_to_usize(w) {
            Err(_) => fail(s, p.0, Error::TypeMismatch),
            Ok(action) => {
                let q = spec_pop_no_inc(p.0);
                match q.1 {
                    Err(e) => fail(s, q.0, e),
                    Ok(w2) => match spec_word_to_usize(w2) {
                        Err(_) => fail(s, q.0, Error::TypeMismatch),
                        Ok(ti) => {
                            let ep = types[ti as int].action_entry_points[action as int];
                            let m = spec_call(q.0, ep.spec_address() as usize, ep.spec_n_args() as usize);
                            (
                                VmState {
                                    memory: m,
                                    game: s.game,
                                    log: s.log.push(
                                        EventView::ObjectActionStarted {
                                            object_type_index: ti as u32,
                                            action_index: action as u32,
                                            args: spec_args(m),
                                        },
                                    ),
                                },
                                Ok(()),
                            )
                        },
                    },
                }
            },
        },
    }
}

/// Whether `CallObjectAction` panics.
pub open spec fn call_object_action_panics(types: Seq<ObjectTypeView>, s: VmState) -> bool {
    let p = spec_pop_no_inc(s.memory);
    frame_top(s.memory) + 1 > usize::MAX || match p.1 {
        Ok(w) => match spec_word_to_usize(w) {
            Ok(action) => {
                let q = spec_pop_no_inc(p.0);
                match q.1 {
                    Ok(w2) => match spec_word_to_usize(w2) {
                        Ok(ti) => ti >= types.len() || action >= types[ti as int].action_entry_points.len()
                            || call_panics(
                            q.0,
                            types[ti as int].action_entry_points[action as int].spec_n_args() as usize,
                        ),
                        Err(_) => false,
                    },
                    Err(_) => false,
                }
            },
            Err(_) => false,
        },
        Err(_) => false,
    }
}

/// `RemoveObjectByIndex`.
pub open spec fn spec_remove_by_index(s: VmState) -> (VmState, Result<(), Error>) {
    let p = spec_pop_external(s.memory);
    match p.1 {
        Err(e) => fail(s, p.0, e),
        Ok(w) => match spec_word_to_usize(w) {
            Err(_) => fail(s, p.0, Error::TypeMismatch),
            Ok(i) => (
                VmState {
                    memory: p.0,
                    game: GameStateView { objects: s.game.objects.remove(i as int), ..s.game },
                    log: s.log.push(EventView::RemoveObject { object_id: s.game.objects[i as int].id }),
                },
                Ok(()),
            ),
        },
    }
}

/// Whether `RemoveObjectByIndex` panics.
pub open spec fn remove_by_index_panics(s: VmState) -> bool {
    pop_external_panics(s.memory) || match spec_pop_external(s.memory).1 {
        Ok(w) => match spec_word_to_usize(w) {
            Ok(i) => i >= s.game.objects.len(),
            Err(_) => false,
        },
        Err(_) => false,
    }
}

/// `RemoveObjectById`: keeps exactly the objects whose id is the popped id,
/// and logs a removal for each of them.
pub open spec fn spec_remove_by_id(s: VmState) -> (VmState, Result<(), Error>) {
    let p = spec_pop_external(s.memory);
    match p.1 {
        Err(e) => fail(s, p.0, e),
        Ok(w) => match spec_word_to_u32(w) {
            Err(_) => fail(s, p.0, Error::TypeMismatch),
            Ok(id) => {
                let kept = with_id(s.game.objects, id);
                (
                    VmState {
                        memory: p.0,
                        game: GameStateView { objects: kept, ..s.game },
                        log: s.log + Seq::new(kept.len(), |k: int| EventView::RemoveObject { object_id: id }),
                    },
                    Ok(()),
                )
            },
        },
    }
}

// ---- one instruction ----

/// What instruction `c` does to `s`, given the object types.
pub open spec fn spec_command(types: Seq<ObjectTypeView>, s: VmState, c: VMCommand) -> (VmState, Result<(), Error>) {
    let m = s.memory;
    match c {
        VMCommand::Halt => (s, Err(Error::Halt)),
        VMCommand::Add => on_memory(s, spec_num_binary(m, NumOp::Add)),
        VMCommand::Sub => on_memory(s, spec_num_binary(m, NumOp::Sub)),
        VMCommand::Div => on_memory(s, spec_num_binary(m, NumOp::Div)),
        VMCommand::Mul => on_memory(s, spec_num_binary(m, NumOp::Mul)),
        VMCommand::Rem => on_memory(s, spec_num_binary(m, NumOp::Rem)),
        VMCommand::Neg => on_memory(s, spec_num_unary(m, UnaryOp::Neg)),
        VMCommand::Inc => on_memory(s, spec_num_unary(m, UnaryOp::Inc)),
        VMCommand::Dec => on_memory(s, spec_num_unary(m, UnaryOp::Dec)),
        VMCommand::Abs => on_memory(s, spec_num_unary(m, UnaryOp::Abs)),
        VMCommand::Eq => on_memory(s, spec_num_binary(m, NumOp::Equal)),
        VMCommand::Gt => on_memory(s, spec_num_binary(m, NumOp::Gt)),
        VMCommand::Lt => on_memory(s, spec_num_binary(m, NumOp::Lt)),
        VMCommand::And => on_memory(s, spec_bool_binary(m, BoolOp::And)),
        VMCommand::Or => on_memory(s, spec_bool_binary(m, BoolOp::Or)),
        VMCommand::Not => on_memory(s, spec_not(m)),
        VMCommand::PushConstant(w) => next(s, advanced(pushed(m, w))),
        VMCommand::LoadGameStateAttr { index } => next(s, advanced(pushed(m, s.game.attrs[index as int]))),
        VMCommand::StoreGameStateAttr { index } => spec_store_game_attr(s, index),
        VMCommand::LoadLocal { index } => on_memory(s, spec_push_variable(m, true, index as usize)),
        VMCommand::StoreLocal { index } => on_memory(s, spec_pop_variable(m, true, index as usize)),
        VMCommand::LoadArgument { index } => on_memory(s, spec_push_variable(m, false, index as usize)),
        VMCommand::StoreArgument { index } => on_memory(s, spec_pop_variable(m, false, index as usize)),
        VMCommand::Goto(address) => next(s, MemoryView { pc: address as usize, ..m }),
        VMCommand::IfGoto(address) => on_memory(s, spec_ifjmp(m, address as usize)),
        VMCommand::Function { n_locals } => next(s, spec_function(m, n_locals as usize)),
        VMCommand::Call { address, n_args } => next(s, spec_call(m, address as usize, n_args as usize)),
        VMCommand::Return => on_memory(s, spec_fn_return(m)),
        VMCommand::ReturnVoid => on_memory(s, spec_return_void(m)),
        VMCommand::PushObjectCount => next(s, advanced(pushed(m, Word::Numeric(s.game.objects.len() as i32)))),
        VMCommand::PushTypeCount => next(s, advanced(pushed(m, Word::Numeric(types.len() as i32)))),
        VMCommand::PushObjectCountWithObjectType => spec_count_with_type(s),
        VMCommand::PushObjectType => spec_push_object_type(s),
        VMCommand::LoadObjectTypeAttrByTypeIndex { attr_index } => spec_type_attr_by_type_index(types, s, attr_index),
        VMCommand::LoadObjectTypeAttrByObjectIndex { attr_index } => spec_type_attr_by_object_index(types, s, attr_index),
        VMCommand::LoadObjectAttr { attr_index } => spec_load_object_attr(s, attr_index),
        VMCommand::StoreObjectAttr { attr_index } => spec_store_object_attr(s, attr_index),
        VMCommand::InstanceObjectByTypeIndex => spec_instance_by_index(types, s),
        VMCommand::InstanceObjectByTypeId => spec_instance_by_id(types, s),
        VMCommand::CallObjectAction => spec_call_object_action(types, s),
        VMCommand::RemoveObjectByIndex => spec_remove_by_index(s),
        VMCommand::RemoveObjectById => spec_remove_by_id(s),
    }
}

/// Whether instruction `c` panics on `s`.
pub open spec fn command_panics(types: Seq<ObjectTypeView>, s: VmState, c: VMCommand) -> bool {
    let m = s.memory;
    match c {
        VMCommand::Halt => false,
        VMCommand::Add => num_binary_panics(m, NumOp::Add),
        VMCommand::Sub => num_binary_panics(m, NumOp::Sub),
        VMCommand::Div => num_binary_panics(m, NumOp::Div),
        VMCommand::Mul => num_binary_panics(m, NumOp::Mul),
        VMCommand::Rem => num_binary_panics(m, NumOp::Rem),
        VMCommand::Neg => num_unary_panics(m, UnaryOp::Neg),
        VMCommand::Inc => num_unary_panics(m, UnaryOp::Inc),
        VMCommand::Dec => num_unary_panics(m, UnaryOp::Dec),
        VMCommand::Abs => num_unary_panics(m, UnaryOp::Abs),
        VMCommand::Eq => num_binary_panics(m, NumOp::Equal),
        VMCommand::Gt => num_binary_panics(m, NumOp::Gt),
        VMCommand::Lt => num_binary_panics(m, NumOp::Lt),
        VMCommand::And => bool_binary_panics(m),
        VMCommand::Or => bool_binary_panics(m),
        VMCommand::Not => not_panics(m),
        VMCommand::PushConstant(_) => m.pc == usize::MAX,
        VMCommand::LoadGameStateAttr { index } => index >= s.game.attrs.len() || m.pc == usize::MAX,
        VMCommand::StoreGameStateAttr { index } => store_game_attr_panics(s, index),
        VMCommand::LoadLocal { index } => push_variable_panics(m, true, index as usize),
        VMCommand::StoreLocal { index } => pop_variable_panics(m, true, index as usize),
        VMCommand::LoadArgument { index } => push_variable_panics(m, false, index as usize),
        VMCommand::StoreArgument { index } => pop_variable_panics(m, false, index as usize),
        VMCommand::Goto(_) => false,
        VMCommand::IfGoto(_) => ifjmp_panics(m),
        VMCommand::Function { .. } => m.pc == usize::MAX,
        VMCommand::Call { n_args, .. } => call_panics(m, n_args as usize),
        VMCommand::Return => fn_return_panics(m),
        VMCommand::ReturnVoid => return_void_panics(m),
        VMCommand::PushObjectCount => m.pc == usize::MAX,
        VMCommand::PushTypeCount => m.pc == usize::MAX,
        VMCommand::PushObjectCountWithObjectType => count_with_type_panics(s),
        VMCommand::PushObjectType => push_object_type_panics(s),
        VMCommand::LoadObjectTypeAttrByTypeIndex { attr_index } => type_attr_by_type_index_panics(types, s, attr_index),
        VMCommand::LoadObjectTypeAttrByObjectIndex { attr_index } => type_attr_by_object_index_panics(types, s, attr_index),
        VMCommand::LoadObjectAttr { attr_index } => load_object_attr_panics(s, attr_index),
        VMCommand::StoreObjectAttr { attr_index } => store_object_attr_panics(s, attr_index),
        VMCommand::InstanceObjectByTypeIndex => instance_by_index_panics(types, s),
        VMCommand::InstanceObjectByTypeId => instance_by_id_panics(types, s),
        VMCommand::CallObjectAction => call_object_action_panics(types, s),
        VMCommand::RemoveObjectByIndex => remove_by_index_panics(s),
        VMCommand::RemoveObjectById => pop_external_panics(m),
    }
}

/// One step: the instruction at the program counter.
pub open spec fn spec_step(instrs: Seq<VMCommand>, types: Seq<ObjectTypeView>, s: VmState) -> (VmState, Result<(), Error>) {
    spec_command(types, s, instrs[s.memory.pc as int])
}

/// Whether a step panics: the program counter is past the program, or the instruction panics.
pub open spec fn step_panics(instrs: Seq<VMCommand>, types: Seq<ObjectTypeView>, s: VmState) -> bool {
    s.memory.pc >= instrs.len() || command_panics(types, s, instrs[s.memory.pc as int])
}

// ---- a run ----

/// At most `n` steps: the run stops at `Halt` (finished), at the first
/// failing instruction (an error naming where the program counter then is),
/// or after `n` completed steps (unfinished).
pub open spec fn spec_run(instrs: Seq<VMCommand>, types: Seq<ObjectTypeView>, s: VmState, n: nat) -> (VmState, Result<SingleExecutionResult, VmError>)
    decreases n,
{
    if n == 0 {
        (s, Ok(SingleExecutionResult::Unfinished))
    } else {
        let t = spec_step(instrs, types, s);
        match t.1 {
            Ok(()) => spec_run(instrs, types, t.0, (n - 1) as nat),
            Err(Error::Halt) => (t.0, Ok(SingleExecutionResult::Finished)),
            Err(e) => (
                t.0,
                Err(VmError { instruction: t.0.memory.pc as u32, source: ErrorSource::MemoryError { source: e } }),
            ),
        }
    }
}

/// Whether one of the at most `n` steps of a run panics.
pub open spec fn run_panics(instrs: Seq<VMCommand>, types: Seq<ObjectTypeView>, s: VmState, n: nat) -> bool
    decreases n,
{
    n > 0 && (step_panics(instrs, types, s) || (spec_step(instrs, types, s).1 is Ok && run_panics(
        instrs,
        types,
        spec_step(instrs, types, s).0,
        (n - 1) as nat,
    )))
}

} // verus!
