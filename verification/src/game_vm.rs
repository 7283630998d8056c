//! # The VM that runs actions on a game state
//!
//! The VM executes the instructions of an [`InstructionRom`] one by one on
//! its [`Memory`], reading and changing the [`GameState`] it was given, and
//! records every change of the game state in its log.

pub mod enums;
pub mod laws;
pub mod log;
pub mod step;

use vstd::prelude::*;
use crate::word::Word;
use crate::on_chain_types::game_state::GameState;
use crate::on_chain_types::instruction_rom::InstructionRom;
use crate::on_chain_types::object::Object;
use crate::on_chain_types::object_type::{ObjectTypesRom, object_type_ids};
use crate::on_chain_types::vmcommand::VMCommand;
use crate::search::first_index_of;
use crate::vm::Sealed;
use crate::vm::enums::SingleExecutionResult;
use crate::vm::error::{Error as VmError, ErrorSource};
use crate::vm::memory::{Error, Memory, spec_init_memory};
use crate::game_vm::enums::ExecutionResult;
use crate::game_vm::log::{Event, EventView, Log, log_view};
use crate::game_vm::step::{
    VmState, spec_command, command_panics, spec_step, step_panics,
    spec_run, run_panics, spec_store_game_attr, store_game_attr_panics, spec_count_with_type,
    count_with_type_panics, spec_push_object_type, push_object_type_panics,
    spec_type_attr_by_type_index, type_attr_by_type_index_panics, spec_type_attr_by_object_index,
    type_attr_by_object_index_panics, spec_load_object_attr, load_object_attr_panics,
    spec_store_object_attr, store_object_attr_panics, spec_instance_by_index,
    instance_by_index_panics, spec_instance_by_id, instance_by_id_panics, spec_call_object_action,
    call_object_action_panics, spec_remove_by_index, remove_by_index_panics, spec_remove_by_id,
};

verus! {

/// A VM that runs one action of an object type on a game state.
#[derive(Debug)]
pub struct VM<'a> {
    pub instructions: InstructionRom<'a>,
    pub object_types: ObjectTypesRom<'a>,
    pub memory: Memory,
    pub game_state: &'a mut GameState,
    pub log: Log,
}

impl<'a> VM<'a> {
    /// The memory, the game state and the log of the VM.
    pub open spec fn state(&self) -> VmState {
        VmState { memory: self.memory@, game: (*self.game_state)@, log: log_view(self.log@) }
    }

    /// A VM about to run action `action_index` of object `object_index` with `args`.
    pub fn init_vm(
        instructions: InstructionRom<'a>,
        object_types: ObjectTypesRom<'a>,
        game_state: &'a mut GameState,
        args: &'a [Word],
        object_index: u32,
        action_index: u32,
    ) -> (r: Self)
        ensures
            r.state() == (VmState {
                memory: spec_init_memory(args@, object_index, action_index),
                game: (*old(game_state))@,
                log: Seq::empty(),
            }),
            r.instructions == instructions,
            r.object_types == object_types,
            (*final(game_state))@ == (*final(r.game_state))@,
    {
        let memory = Memory::init_memory(args, object_index, action_index);
        let r = Self { instructions, object_types, memory, game_state, log: Vec::new() };
        assert(log_view(r.log@) =~= Seq::<EventView>::empty());
        r
    }

    /// Runs at most `instruction_limit` instructions; see [`spec_run`].
    pub fn execute(&mut self, instruction_limit: usize) -> (r: Result<SingleExecutionResult, VmError>)
        requires
            !run_panics(old(self).instructions@, old(self).object_types@, old(self).state(), instruction_limit as nat),
        ensures
            (final(self).state(), r) == spec_run(
                old(self).instructions@,
                old(self).object_types@,
                old(self).state(),
                instruction_limit as nat,
            ),
            final(self).instructions == old(self).instructions,
            final(self).object_types == old(self).object_types,
            (*final(final(self).game_state))@ == (*final(old(self).game_state))@,
    {
        let ghost instrs = self.instructions@;
        let ghost types = self.object_types@;
        let mut i: usize = 0;
        while i < instruction_limit
            invariant
                i <= instruction_limit,
                self.instructions@ == instrs,
                self.object_types@ == types,
                self.instructions == old(self).instructions,
                self.object_types == old(self).object_types,
                (*final(self.game_state))@ == (*final(old(self).game_state))@,
                spec_run(instrs, types, self.state(), (instruction_limit - i) as nat) == spec_run(
                    instrs,
                    types,
                    old(self).state(),
                    instruction_limit as nat,
                ),
                !run_panics(instrs, types, self.state(), (instruction_limit - i) as nat),
            decreases instruction_limit - i,
        {
            match self.run_one_instruction() {
                Ok(()) => {},
                Err(Error::Halt) => {
                    return Ok(SingleExecutionResult::Finished);
                },
                Err(err) => {
                    let error = VmError { instruction: self.memory.pc() as u32, source: ErrorSource::from(err) };
                    return Err(error);
                },
            }
            i = i + 1;
        }
        Ok(SingleExecutionResult::Unfinished)
    }

    /// A VM that goes on with a run that stopped at its instruction limit.
    pub fn resume_execution(
        instructions: InstructionRom<'a>,
        object_types: ObjectTypesRom<'a>,
        game_state: &'a mut GameState,
        sealed_memory: Sealed<Memory>,
    ) -> (r: Self)
        ensures
            r.state() == (VmState {
                memory: sealed_memory.spec_data()@,
                game: (*old(game_state))@,
                log: Seq::empty(),
            }),
            r.instructions == instructions,
            r.object_types == object_types,
            (*final(game_state))@ == (*final(r.game_state))@,
    {
        let memory = Sealed::<Memory>::release_data(sealed_memory);
        let r = Self { instructions, object_types, memory, game_state, log: Vec::new() };
        assert(log_view(r.log@) =~= Seq::<EventView>::empty());
        r
    }

    /// Ends the VM: the log when the program counter is on `Halt`, otherwise
    /// the log and the sealed memory to resume from.
    pub fn stop_execution(self) -> (r: ExecutionResult)
        requires
            self.memory@.pc < self.instructions@.len(),
        ensures
            self.instructions@[self.memory@.pc as int] == VMCommand::Halt ==> (r matches ExecutionResult::Finished(l)
                && log_view(l@) == self.state().log),
            self.instructions@[self.memory@.pc as int] != VMCommand::Halt ==> (r matches ExecutionResult::Unfinished(l, m)
                && log_view(l@) == self.state().log && m.spec_data()@ == self.memory@),
    {
        if self.is_halted() {
            ExecutionResult::Finished(self.log)
        } else {
            ExecutionResult::Unfinished(self.log, Sealed::seal(self.memory))
        }
    }

    /// The memory of the VM.
    pub fn release_memory(self) -> (r: Memory)
        ensures
            r@ == self.memory@,
    {
        self.memory
    }

    /// Whether the instruction at the program counter is `Halt`.
    pub fn is_halted(&self) -> (r: bool)
        requires
            self.memory@.pc < self.instructions@.len(),
        ensures
            r == (self.instructions@[self.memory@.pc as int] == VMCommand::Halt),
    {
        let instruction = self.instructions.fetch_instruction(self.memory.pc());
        instruction == VMCommand::Halt
    }

    fn run_one_instruction(&mut self) -> (r: Result<(), Error>)
        requires
            !step_panics(old(self).instructions@, old(self).object_types@, old(self).state()),
        ensures
            (final(self).state(), r) == spec_step(old(self).instructions@, old(self).object_types@, old(self).state()),
            final(self).instructions == old(self).instructions,
            final(self).object_types == old(self).object_types,
            (*final(final(self).game_state))@ == (*final(old(self).game_state))@,
    {
        let instruction = self.instructions.fetch_instruction(self.memory.pc());
        match instruction {
            VMCommand::Add => self.memory.add(),
            VMCommand::Sub => self.memory.sub(),
            VMCommand::Mul => self.memory.mul(),
            VMCommand::Div => self.memory.div(),
            VMCommand::Rem => self.memory.rem(),
            VMCommand::Neg => self.memory.neg(),
            VMCommand::Inc => self.memory.inc(),
            VMCommand::Dec => self.memory.dec(),
            VMCommand::Abs => self.memory.abs(),
            VMCommand::Eq => self.memory.equal(),
            VMCommand::Gt => self.memory.gt(),
            VMCommand::Lt => self.memory.lt(),
            VMCommand::Or => self.memory.or(),
            VMCommand::And => self.memory.and(),
            VMCommand::Not => self.memory.not(),
            VMCommand::PushConstant(word) => self.memory.push_external(word),
            VMCommand::LoadGameStateAttr { index } => {
                let attr = self.game_state.attr(index as usize);
                self.memory.push_external(attr)
            },
            VMCommand::StoreGameStateAttr { index } => self.store_game_state_attr(index),
            VMCommand::LoadLocal { index } => self.memory.push_local(index as usize),
            VMCommand::StoreLocal { index } => self.memory.pop_local(index as usize),
            VMCommand::LoadArgument { index } => self.memory.push_argument(index as usize),
            VMCommand::StoreArgument { index } => self.memory.pop_argument(index as usize),
            VMCommand::Goto(instruction) => self.memory.jmp(instruction as usize),
            VMCommand::IfGoto(instruction) => self.memory.ifjmp(instruction as usize),
            VMCommand::Call { address, n_args } => self.memory.call(address as usize, n_args as usize),
            VMCommand::Function { n_locals } => self.memory.function(n_locals as usize),
            VMCommand::Return => self.memory.fn_return(),
            VMCommand::ReturnVoid => self.memory.return_void(),
            VMCommand::PushObjectCount => {
                let len = self.game_state.object_count();
                self.memory.push_external(Word::Numeric(len as i32))
            },
            VMCommand::PushTypeCount => {
                let len = self.object_types.object_type_count();
                self.memory.push_external(Word::Numeric(len as i32))
            },
            VMCommand::PushObjectCountWithObjectType => self.push_object_count_with_type(),
            VMCommand::PushObjectType => self.push_object_type(),
            VMCommand::LoadObjectTypeAttrByTypeIndex { attr_index } => self.push_object_type_attr_by_type_index(attr_index),
            VMCommand::LoadObjectTypeAttrByObjectIndex { attr_index } => self.push_object_type_attr_by_object_index(attr_index),
            VMCommand::LoadObjectAttr { attr_index } => self.push_object_attr(attr_index),
            VMCommand::StoreObjectAttr { attr_index } => self.pop_object_attr(attr_index),
            VMCommand::InstanceObjectByTypeIndex => self.instantiate_object_by_type_index(),
            VMCommand::InstanceObjectByTypeId => self.instantiate_object_by_type_id(),
            VMCommand::CallObjectAction => self.call_object_action(),
            VMCommand::RemoveObjectByIndex => self.remove_object_by_index(),
            VMCommand::RemoveObjectById => self.remove_object_by_id(),
            VMCommand::Halt => Err(Error::Halt),
        }
    }
}

impl<'a> VM<'a> {
    fn store_game_state_attr(&mut self, index: u32) -> (r: Result<(), Error>)
        requires
            !store_game_attr_panics(old(self).state(), index),
        ensures
            (final(self).state(), r) == spec_store_game_attr(old(self).state(), index),
            final(self).instructions == old(self).instructions,
            final(self).object_types == old(self).object_types,
            (*final(final(self).game_state))@ == (*final(old(self).game_state))@,
    {
        let value = match self.memory.pop_external() {
            Ok(v) => v,
            Err(e) => return Err(e),
        };
        let previous_value = self.game_state.attr(index as usize);
        let ghost log0 = self.log@;
        self.log.push(Event::GameStateChange { attr_index: index, previous_value, new_value: value });
        proof {
            assert(log_view(self.log@) =~= log_view(log0).push(
                EventView::GameStateChange { attr_index: index, previous_value, new_value: value },
            ));
        }
        self.game_state.set_attr(index as usize, value);
        Ok(())
    }

    fn push_object_count_with_type(&mut self) -> (r: Result<(), Error>)
        requires
            !count_with_type_panics(old(self).state()),
        ensures
            (final(self).state(), r) == spec_count_with_type(old(self).state()),
            final(self).instructions == old(self).instructions,
            final(self).object_types == old(self).object_types,
            (*final(final(self).game_state))@ == (*final(old(self).game_state))@,
    {
        let object_type = match self.memory.pop_external_no_pc_inc() {
            Ok(w) => w,
            Err(e) => return Err(e),
        };
        match object_type {
            Word::Numeric(id) => {
                let count = self.game_state.count_objects_with_type(id as u32);
                self.memory.push_external(Word::Numeric(count as i32))
            },
            Word::Boolean(_) => Err(Error::TypeMismatch),
        }
    }

    fn push_object_type(&mut self) -> (r: Result<(), Error>)
        requires
            !push_object_type_panics(old(self).state()),
        ensures
            (final(self).state(), r) == spec_push_object_type(old(self).state()),
            final(self).instructions == old(self).instructions,
            final(self).object_types == old(self).object_types,
            (*final(final(self).game_state))@ == (*final(old(self).game_state))@,
    {
        let index = match self.memory.pop_external_no_pc_inc() {
            Ok(w) => w,
            Err(e) => return Err(e),
        };
        match index {
            Word::Numeric(i) => {
                let object_type = self.game_state.object(i as usize).object_type();
                self.memory.push_external(Word::Numeric(object_type as i32))
            },
            Word::Boolean(_) => Err(Error::TypeMismatch),
        }
    }

    fn push_object_type_attr_by_type_index(&mut self, attr_index: u32) -> (r: Result<(), Error>)
        requires
            !type_attr_by_type_index_panics(old(self).object_types@, old(self).state(), attr_index),
        ensures
            (final(self).state(), r) == spec_type_attr_by_type_index(
                old(self).object_types@,
                old(self).state(),
                attr_index,
            ),
            final(self).instructions == old(self).instructions,
            final(self).object_types == old(self).object_types,
            (*final(final(self).game_state))@ == (*final(old(self).game_state))@,
    {
        let type_index = match self.memory.pop_external_no_pc_inc() {
            Ok(w) => w,
            Err(e) => return Err(e),
        };
        match type_index {
            Word::Numeric(id) => {
                let object_type = self.object_types.object_type_by_type_index(id as usize);
                let attr_value = object_type.attr_by_index(attr_index as usize);
                self.memory.push_external(attr_value)
            },
            Word::Boolean(_) => Err(Error::TypeMismatch),
        }
    }

    fn push_object_type_attr_by_object_index(&mut self, attr_index: u32) -> (r: Result<(), Error>)
        requires
            !type_attr_by_object_index_panics(old(self).object_types@, old(self).state(), attr_index),
        ensures
            (final(self).state(), r) == spec_type_attr_by_object_index(
                old(self).object_types@,
                old(self).state(),
                attr_index,
            ),
            final(self).instructions == old(self).instructions,
            final(self).object_types == old(self).object_types,
            (*final(final(self).game_state))@ == (*final(old(self).game_state))@,
    {
        let object_index = match self.memory.pop_external_no_pc_inc() {
            Ok(w) => w,
            Err(e) => return Err(e),
        };
        match object_index {
            Word::Numeric(id) => {
                let object_type_id = self.game_state.object(id as usize).object_type();
                match self.object_types.object_type_by_type_id(object_type_id) {
                    Some(object_type) => {
                        let attr_value = object_type.attr_by_index(attr_index as usize);
                        self.memory.push_external(attr_value)
                    },
                    None => Err(Error::NoSuchType),
                }
            },
            Word::Boolean(_) => Err(Error::TypeMismatch),
        }
    }

    fn push_object_attr(&mut self, attr_index: u32) -> (r: Result<(), Error>)
        requires
            !load_object_attr_panics(old(self).state(), attr_index),
        ensures
            (final(self).state(), r) == spec_load_object_attr(old(self).state(), attr_index),
            final(self).instructions == old(self).instructions,
            final(self).object_types == old(self).object_types,
            (*final(final(self).game_state))@ == (*final(old(self).game_state))@,
    {
        let object_index = match self.memory.pop_external_no_pc_inc() {
            Ok(w) => w,
            Err(e) => return Err(e),
        };
        match object_index {
            Word::Numeric(id) => {
                let attr_value = self.game_state.object(id as usize).attr(attr_index as usize);
                self.memory.push_external(attr_value)
            },
            Word::Boolean(_) => Err(Error::TypeMismatch),
        }
    }

    fn pop_object_attr(&mut self, attr_index: u32) -> (r: Result<(), Error>)
        requires
            !store_object_attr_panics(old(self).state(), attr_index),
        ensures
            (final(self).state(), r) == spec_store_object_attr(old(self).state(), attr_index),
            final(self).instructions == old(self).instructions,
            final(self).object_types == old(self).object_types,
            (*final(final(self).game_state))@ == (*final(old(self).game_state))@,
    {
        let object_index = match self.memory.pop_external_no_pc_inc() {
            Ok(w) => w,
            Err(e) => return Err(e),
        };
        match object_index {
            Word::Numeric(id) => {
                let idx = id as usize;
                let attr_value = match self.memory.pop_external() {
                    Ok(v) => v,
                    Err(e) => return Err(e),
                };
                let previous_value = self.game_state.object(idx).attr(attr_index as usize);
                let ghost log0 = self.log@;
                self.log.push(
                    Event::ObjectChange {
                        object_index: id as u32,
                        attr_index,
                        previous_value,
                        new_value: attr_value,
                    },
                );
                proof {
                    assert(log_view(self.log@) =~= log_view(log0).push(
                        EventView::ObjectChange {
                            object_index: id as u32,
                            attr_index,
                            previous_value,
                            new_value: attr_value,
                        },
                    ));
                }
                self.game_state.set_object_attr(idx, attr_index as usize, attr_value);
                Ok(())
            },
            Word::Boolean(_) => Err(Error::TypeMismatch),
        }
    }

    fn instantiate_object_by_type_index(&mut self) -> (r: Result<(), Error>)
        requires
            !instance_by_index_panics(old(self).object_types@, old(self).state()),
        ensures
            (final(self).state(), r) == spec_instance_by_index(old(self).object_types@, old(self).state()),
            final(self).instructions == old(self).instructions,
            final(self).object_types == old(self).object_types,
            (*final(final(self).game_state))@ == (*final(old(self).game_state))@,
    {
        let index = match self.memory.pop_external() {
            Ok(w) => w,
            Err(e) => return Err(e),
        };
        match index {
            Word::Numeric(index) => {
                let id: u32 = index as u32;
                let object_id = self.game_state.generate_object_id();
                let object = match self.object_types.instance_object_by_type_index(id, object_id) {
                    Ok(o) => o,
                    Err(_) => return Err(Error::NoSuchType),
                };
                self.game_state.push_object(object);
                let ghost log0 = self.log@;
                let object_index = (self.game_state.object_count() - 1) as u32;
                self.log.push(Event::AddObjectByIndex { object_index, object_type_index: id });
                proof {
                    assert(log_view(self.log@) =~= log_view(log0).push(
                        EventView::AddObjectByIndex { object_index, object_type_index: id },
                    ));
                }
                Ok(())
            },
            Word::Boolean(_) => Err(Error::TypeMismatch),
        }
    }

    fn instantiate_object_by_type_id(&mut self) -> (r: Result<(), Error>)
        requires
            !instance_by_id_panics(old(self).object_types@, old(self).state()),
        ensures
            (final(self).state(), r) == spec_instance_by_id(old(self).object_types@, old(self).state()),
            final(self).instructions == old(self).instructions,
            final(self).object_types == old(self).object_types,
            (*final(final(self).game_state))@ == (*final(old(self).game_state))@,
    {
        let index = match self.memory.pop_external() {
            Ok(w) => w,
            Err(e) => return Err(e),
        };
        match index {
            Word::Numeric(index) => {
                let id: u32 = index as u32;
                let object_id = self.game_state.generate_object_id();
                let object = match self.object_types.instance_object_by_type_id(id, object_id) {
                    Ok(o) => o,
                    Err(_) => return Err(Error::NoSuchType),
                };
                self.game_state.push_object(object);
                let ghost log0 = self.log@;
                let object_index = (self.game_state.object_count() - 1) as u32;
                self.log.push(Event::AddObjectById { object_index, object_type_id: id });
                proof {
                    assert(log_view(self.log@) =~= log_view(log0).push(
                        EventView::AddObjectById { object_index, object_type_id: id },
                    ));
                }
                Ok(())
            },
            Word::Boolean(_) => Err(Error::TypeMismatch),
        }
    }

    fn call_object_action(&mut self) -> (r: Result<(), Error>)
        requires
            !call_object_action_panics(old(self).object_types@, old(self).state()),
        ensures
            (final(self).state(), r) == spec_call_object_action(old(self).object_types@, old(self).state()),
            final(self).instructions == old(self).instructions,
            final(self).object_types == old(self).object_types,
            (*final(final(self).game_state))@ == (*final(old(self).game_state))@,
    {
        let action_index_word = match self.memory.pop_external_no_pc_inc() {
            Ok(w) => w,
            Err(e) => return Err(e),
        };
        let action_index = match usize::try_from(action_index_word) {
            Ok(v) => v,
            Err(_) => return Err(Error::TypeMismatch),
        };
        let type_index_word = match self.memory.pop_external_no_pc_inc() {
            Ok(w) => w,
            Err(e) => return Err(e),
        };
        let type_index = match usize::try_from(type_index_word) {
            Ok(v) => v,
            Err(_) => return Err(Error::TypeMismatch),
        };
        let object_type = self.object_types.object_type_by_type_index(type_index);
        let entry_point = object_type.action_entry_point(action_index);
        match self.memory.call(entry_point.address(), entry_point.n_args()) {
            Ok(()) => {},
            Err(e) => return Err(e),
        }
        let args = self.memory.args();
        let ghost log0 = self.log@;
        self.log.push(
            Event::ObjectActionStarted {
                object_type_index: type_index as u32,
                action_index: action_index as u32,
                args,
            },
        );
        proof {
            assert(log_view(self.log@) =~= log_view(log0).push(
                EventView::ObjectActionStarted {
                    object_type_index: type_index as u32,
                    action_index: action_index as u32,
                    args: args@,
                },
            ));
        }
        Ok(())
    }

    fn remove_object_by_index(&mut self) -> (r: Result<(), Error>)
        requires
            !remove_by_index_panics(old(self).state()),
        ensures
            (final(self).state(), r) == spec_remove_by_index(old(self).state()),
            final(self).instructions == old(self).instructions,
            final(self).object_types == old(self).object_types,
            (*final(final(self).game_state))@ == (*final(old(self).game_state))@,
    {
        let object_index_word = match self.memory.pop_external() {
            Ok(w) => w,
            Err(e) => return Err(e),
        };
        let object_index = match usize::try_from(object_index_word) {
            Ok(v) => v,
            Err(_) => return Err(Error::TypeMismatch),
        };
        let object = self.game_state.remove_object(object_index);
        let ghost log0 = self.log@;
        self.log.push(Event::RemoveObject { object_id: object.id() });
        proof {
            assert(log_view(self.log@) =~= log_view(log0).push(EventView::RemoveObject { object_id: object@.id }));
        }
        Ok(())
    }

    fn remove_object_by_id(&mut self) -> (r: Result<(), Error>)
        requires
            !crate::vm::memory::pop_external_panics(old(self).state().memory),
        ensures
            (final(self).state(), r) == spec_remove_by_id(old(self).state()),
            final(self).instructions == old(self).instructions,
            final(self).object_types == old(self).object_types,
            (*final(final(self).game_state))@ == (*final(old(self).game_state))@,
    {
        let object_id = match self.memory.pop_external() {
            Ok(w) => w,
            Err(e) => return Err(e),
        };
        let object_id = match u32::try_from(object_id) {
            Ok(v) => v,
            Err(_) => return Err(Error::TypeMismatch),
        };
        let n = self.game_state.retain_objects_with_id(object_id);
        let ghost log0 = log_view(self.log@);
        let ghost memory1 = self.memory@;
        let ghost game1 = (*self.game_state)@;
        let mut k: usize = 0;
        while k < n
            invariant
                k <= n,
                self.memory@ == memory1,
                (*self.game_state)@ == game1,
                self.instructions == old(self).instructions,
                self.object_types == old(self).object_types,
                (*final(self.game_state))@ == (*final(old(self).game_state))@,
                log_view(self.log@) =~= log0 + Seq::new(k as nat, |j: int| EventView::RemoveObject { object_id }),
            decreases n - k,
        {
            let ghost before = self.log@;
            self.log.push(Event::RemoveObject { object_id });
            proof {
                assert(log_view(self.log@) =~= log_view(before).push(EventView::RemoveObject { object_id }));
            }
            k = k + 1;
        }
        Ok(())
    }
}

} // verus!
