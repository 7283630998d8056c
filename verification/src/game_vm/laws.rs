//! What holds of every run: where a finished run stops, how a run splits in
//! two, and that the log of a run only grows.

use vstd::prelude::*;
use crate::on_chain_types::object_type::ObjectTypeView;
use crate::on_chain_types::vmcommand::VMCommand;
use crate::game_vm::log::EventView;
use crate::game_vm::step::{
    VmState, spec_command, command_panics, spec_step, step_panics, spec_run, run_panics, spec_store_game_attr,
    store_game_attr_panics,
};
use crate::vm::memory::{
    advanced, pushed, top, second, has_operands, replaced_top_two, spec_num_binary, NumOp, MemoryView,
    lemma_num_ops_meaning, lemma_bool_ops_meaning, lemma_not_meaning,
};
use crate::game_vm::step::on_memory;
use crate::on_chain_types::game_state::{lemma_count_of_type_meaning, count_of_type};
use crate::on_chain_types::object::ObjectView;
use crate::word::Word;
use crate::vm::enums::SingleExecutionResult;
use crate::vm::memory::Error;

verus! {

/// `s` with an empty log.
pub open spec fn without_log(s: VmState) -> VmState {
    VmState { log: Seq::empty(), ..s }
}

/// Only `Halt` stops with `Halt`, and it leaves the VM as it was.
pub proof fn lemma_only_halt_halts(types: Seq<ObjectTypeView>, s: VmState, c: VMCommand)
    ensures
        (spec_command(types, s, c).1 == Err::<(), Error>(Error::Halt)) <==> (c == VMCommand::Halt),
        c == VMCommand::Halt ==> spec_command(types, s, c).0 == s,
{
}

/// A run that finishes leaves the program counter on a `Halt` instruction.
pub proof fn lemma_finished_on_halt(instrs: Seq<VMCommand>, types: Seq<ObjectTypeView>, s: VmState, n: nat)
    requires
        !run_panics(instrs, types, s, n),
    ensures
        spec_run(instrs, types, s, n).1 == Ok::<SingleExecutionResult, crate::vm::error::Error>(SingleExecutionResult::Finished) ==> {
            let t = spec_run(instrs, types, s, n).0;
            t.memory.pc < instrs.len() && instrs[t.memory.pc as int] == VMCommand::Halt
        },
    decreases n,
{
    if n > 0 {
        let t = spec_step(instrs, types, s);
        lemma_only_halt_halts(types, s, instrs[s.memory.pc as int]);
        if t.1 is Ok {
            lemma_finished_on_halt(instrs, types, t.0, (n - 1) as nat);
        }
    }
}

/// Running `a + b` instructions is running `a`, then, if those stopped at the
/// limit, running `b` more from where they stopped; and the longer run
/// panics exactly when one of the two does.
pub proof fn lemma_run_split(instrs: Seq<VMCommand>, types: Seq<ObjectTypeView>, s: VmState, a: nat, b: nat)
    ensures
        spec_run(instrs, types, s, a).1 == Ok::<SingleExecutionResult, crate::vm::error::Error>(SingleExecutionResult::Unfinished) ==> {
            let t = spec_run(instrs, types, s, a).0;
            &&& spec_run(instrs, types, s, a + b) == spec_run(instrs, types, t, b)
            &&& run_panics(instrs, types, s, a + b) == (run_panics(instrs, types, s, a) || run_panics(instrs, types, t, b))
        },
        spec_run(instrs, types, s, a).1 != Ok::<SingleExecutionResult, crate::vm::error::Error>(SingleExecutionResult::Unfinished) ==> {
            &&& spec_run(instrs, types, s, a + b) == spec_run(instrs, types, s, a)
            &&& run_panics(instrs, types, s, a + b) == run_panics(instrs, types, s, a)
        },
    decreases a,
{
    if a > 0 {
        let t = spec_step(instrs, types, s);
        assert((a + b) - 1 == (a - 1) + b);
        if t.1 is Ok {
            lemma_run_split(instrs, types, t.0, (a - 1) as nat, b);
        }
    }
}

/// One instruction does not look at the log: it does the same on a VM with
/// an empty log, and what it appends there it appends to the log it finds.
pub proof fn lemma_command_keeps_log(types: Seq<ObjectTypeView>, s: VmState, c: VMCommand)
    ensures
        ({
            let r = spec_command(types, s, c);
            let e = spec_command(types, without_log(s), c);
            &&& r.1 == e.1
            &&& r.0.memory == e.0.memory
            &&& r.0.game == e.0.game
            &&& r.0.log == s.log + e.0.log
        }),
        command_panics(types, s, c) == command_panics(types, without_log(s), c),
{
    assert(s.log =~= s.log + Seq::<EventView>::empty());
    assert forall|ev: EventView| #[trigger] s.log.push(ev) =~= s.log + Seq::<EventView>::empty().push(ev) by {}
}

/// A run does not look at the log: it does the same on a VM with an empty
/// log, and appends to the log it finds what it appends to an empty one.
pub proof fn lemma_run_keeps_log(instrs: Seq<VMCommand>, types: Seq<ObjectTypeView>, s: VmState, n: nat)
    ensures
        ({
            let r = spec_run(instrs, types, s, n);
            let e = spec_run(instrs, types, without_log(s), n);
            &&& r.1 == e.1
            &&& r.0.memory == e.0.memory
            &&& r.0.game == e.0.game
            &&& r.0.log == s.log + e.0.log
        }),
        run_panics(instrs, types, s, n) == run_panics(instrs, types, without_log(s), n),
    decreases n,
{
    let z = without_log(s);
    if n == 0 {
        assert(s.log =~= s.log + Seq::<EventView>::empty());
    } else {
        let pc = s.memory.pc as int;
        lemma_command_keeps_log(types, s, instrs[pc]);
        let t = spec_step(instrs, types, s);
        let u = spec_step(instrs, types, z);
        if t.1 is Ok {
            lemma_run_keeps_log(instrs, types, t.0, (n - 1) as nat);
            lemma_run_keeps_log(instrs, types, u.0, (n - 1) as nat);
            assert(without_log(t.0) == without_log(u.0));
            let rt = spec_run(instrs, types, without_log(t.0), (n - 1) as nat);
            assert(spec_run(instrs, types, s, n).0.log == t.0.log + rt.0.log);
            assert(spec_run(instrs, types, z, n).0.log == u.0.log + rt.0.log);
            assert(t.0.log + rt.0.log =~= s.log + (u.0.log + rt.0.log));
        }
    }
}

/// Stopping a run at its limit and resuming it on a fresh VM (which starts
/// with an empty log) goes on as the longer run would: the memory, the game
/// state and the outcome are those of the longer run, and its log is the
/// log of the first part followed by the log of the second.
pub proof fn lemma_resume(instrs: Seq<VMCommand>, types: Seq<ObjectTypeView>, s: VmState, a: nat, b: nat)
    requires
        spec_run(instrs, types, s, a).1 == Ok::<SingleExecutionResult, crate::vm::error::Error>(SingleExecutionResult::Unfinished),
    ensures
        ({
            let first = spec_run(instrs, types, s, a).0;
            let second = spec_run(instrs, types, without_log(first), b);
            let whole = spec_run(instrs, types, s, a + b);
            &&& whole.1 == second.1
            &&& whole.0.memory == second.0.memory
            &&& whole.0.game == second.0.game
            &&& whole.0.log == first.log + second.0.log
            &&& run_panics(instrs, types, s, a + b) == (run_panics(instrs, types, s, a)
                || run_panics(instrs, types, without_log(first), b))
        }),
{
    let first = spec_run(instrs, types, s, a).0;
    lemma_run_split(instrs, types, s, a, b);
    lemma_run_keeps_log(instrs, types, first, b);
}

/// A value stored into an attribute of the game is the value that loading
/// that attribute pushes back.
pub proof fn lemma_store_then_load_game_attr(types: Seq<ObjectTypeView>, s: VmState, index: u32)
    requires
        !store_game_attr_panics(s, index),
        spec_store_game_attr(s, index).1 is Ok,
        s.memory.pc + 2 <= usize::MAX,
    ensures
        ({
            let stored = spec_store_game_attr(s, index).0;
            let load = VMCommand::LoadGameStateAttr { index };
            &&& !command_panics(types, stored, load)
            &&& spec_command(types, stored, load).0.memory == advanced(pushed(stored.memory, top(s.memory)))
        }),
{
}


/// `s` with its memory's top two values replaced by `w`, on the next
/// instruction.
pub open spec fn with_top_two_replaced(s: VmState, w: Word) -> VmState {
    VmState { memory: replaced_top_two(s.memory, w), ..s }
}

/// The arithmetic and comparison instructions on two numbers `x` (on top)
/// and `y` (below it) replace them with `x + y`, `x - y`, `x * y`,
/// `x == y`, `x > y`, `x < y`, where the result fits in an `i32`; division
/// and remainder do what the memory does with them; none of them touches the
/// game state or the log.
pub proof fn lemma_number_commands(types: Seq<ObjectTypeView>, s: VmState, x: i32, y: i32)
    requires
        has_operands(s.memory, 2),
        top(s.memory) == Word::Numeric(x),
        second(s.memory) == Word::Numeric(y),
    ensures
        i32::MIN <= x + y <= i32::MAX ==> spec_command(types, s, VMCommand::Add) == (
            with_top_two_replaced(s, Word::Numeric((x + y) as i32)),
            Ok::<(), Error>(()),
        ),
        i32::MIN <= x - y <= i32::MAX ==> spec_command(types, s, VMCommand::Sub) == (
            with_top_two_replaced(s, Word::Numeric((x - y) as i32)),
            Ok::<(), Error>(()),
        ),
        i32::MIN <= x * y <= i32::MAX ==> spec_command(types, s, VMCommand::Mul) == (
            with_top_two_replaced(s, Word::Numeric((x * y) as i32)),
            Ok::<(), Error>(()),
        ),
        spec_command(types, s, VMCommand::Eq) == (with_top_two_replaced(s, Word::Boolean(x == y)), Ok::<(), Error>(())),
        spec_command(types, s, VMCommand::Gt) == (with_top_two_replaced(s, Word::Boolean(x > y)), Ok::<(), Error>(())),
        spec_command(types, s, VMCommand::Lt) == (with_top_two_replaced(s, Word::Boolean(x < y)), Ok::<(), Error>(())),
        spec_command(types, s, VMCommand::Div) == on_memory(s, spec_num_binary(s.memory, NumOp::Div)),
        spec_command(types, s, VMCommand::Rem) == on_memory(s, spec_num_binary(s.memory, NumOp::Rem)),
{
    lemma_num_ops_meaning(s.memory, x, y);
}

/// `And` on two booleans `x` (on top) and `y` (below it) replaces them with
/// `x && y`, and `Or` with `x || y`; `Not` on a boolean `x` replaces it with
/// `!x`; none of them touches the game state or the log.
pub proof fn lemma_boolean_commands(types: Seq<ObjectTypeView>, s: VmState, x: bool, y: bool)
    requires
        has_operands(s.memory, 1),
        top(s.memory) == Word::Boolean(x),
    ensures
        has_operands(s.memory, 2) && second(s.memory) == Word::Boolean(y) ==> spec_command(types, s, VMCommand::And) == (
            with_top_two_replaced(s, Word::Boolean(x && y)),
            Ok::<(), Error>(()),
        ),
        has_operands(s.memory, 2) && second(s.memory) == Word::Boolean(y) ==> spec_command(types, s, VMCommand::Or) == (
            with_top_two_replaced(s, Word::Boolean(x || y)),
            Ok::<(), Error>(()),
        ),
        spec_command(types, s, VMCommand::Not) == (
            VmState {
                memory: MemoryView {
                    stack: s.memory.stack.take(s.memory.stack.len() - 1).push(Word::Boolean(!x)),
                    pc: (s.memory.pc + 1) as usize,
                    ..s.memory
                },
                ..s
            },
            Ok::<(), Error>(()),
        ),
{
    if has_operands(s.memory, 2) && second(s.memory) == Word::Boolean(y) {
        lemma_bool_ops_meaning(s.memory, x, y);
    }
    lemma_not_meaning(s.memory, x);
}

/// `PushObjectCountWithObjectType` with a number `t` on top replaces it
/// with the number of objects whose type is `t`, and touches neither the
/// game state nor the log.
pub proof fn lemma_count_with_type_command(types: Seq<ObjectTypeView>, s: VmState, t: i32)
    requires
        has_operands(s.memory, 1),
        top(s.memory) == Word::Numeric(t),
    ensures
        spec_command(types, s, VMCommand::PushObjectCountWithObjectType) == (
            VmState {
                memory: MemoryView {
                    stack: s.memory.stack.take(s.memory.stack.len() - 1).push(
                        Word::Numeric(s.game.objects.filter(|o: ObjectView| o.object_type == t as u32).len() as i32),
                    ),
                    pc: (s.memory.pc + 1) as usize,
                    ..s.memory
                },
                ..s
            },
            Ok::<(), Error>(()),
        ),
{
    let objects = s.game.objects;
    lemma_count_of_type_meaning(objects, t as u32, objects.last());
}


/// Making an object of the type at index `i` puts a new object after the
/// last one: its id is the game's next object id, its type is that type's
/// id, and its attributes are the type's initial attributes. The next object
/// id goes up by one, the game's attributes stay, and one more object of
/// that type is counted.
pub proof fn lemma_instance_by_index_command(types: Seq<ObjectTypeView>, s: VmState, i: i32)
    requires
        has_operands(s.memory, 1),
        top(s.memory) == Word::Numeric(i),
        0 <= i < types.len(),
        s.game.object_index < u32::MAX,
    ensures
        ({
            let r = spec_command(types, s, VMCommand::InstanceObjectByTypeIndex);
            let t = types[i as int];
            &&& r.1 == Ok::<(), Error>(())
            &&& r.0.game.objects == s.game.objects.push(
                ObjectView { id: s.game.object_index, object_type: t.id, attrs: t.init_object_attrs },
            )
            &&& r.0.game.object_index == s.game.object_index + 1
            &&& r.0.game.attrs == s.game.attrs
            &&& count_of_type(r.0.game.objects, t.id) == count_of_type(s.game.objects, t.id) + 1
        }),
{
    let t = types[i as int];
    lemma_count_of_type_meaning(
        s.game.objects,
        t.id,
        ObjectView { id: s.game.object_index, object_type: t.id, attrs: t.init_object_attrs },
    );
}

/// Removing the object at index `i` takes exactly that object out: the
/// objects before it stay where they are, the ones after it move down by
/// one, and the removal of that object's id is logged.
pub proof fn lemma_remove_by_index_command(types: Seq<ObjectTypeView>, s: VmState, i: i32)
    requires
        has_operands(s.memory, 1),
        top(s.memory) == Word::Numeric(i),
        0 <= i < s.game.objects.len(),
    ensures
        ({
            let r = spec_command(types, s, VMCommand::RemoveObjectByIndex);
            let before = s.game.objects;
            let after = r.0.game.objects;
            &&& r.1 == Ok::<(), Error>(())
            &&& after.len() == before.len() - 1
            &&& forall|j: int| 0 <= j < i ==> #[trigger] after[j] == before[j]
            &&& forall|j: int| i <= j < after.len() ==> #[trigger] after[j] == before[j + 1]
            &&& r.0.game.attrs == s.game.attrs
            &&& r.0.game.object_index == s.game.object_index
            &&& r.0.log == s.log.push(EventView::RemoveObject { object_id: before[i as int].id })
        }),
{
}

} // verus!
