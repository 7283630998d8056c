//! # The VM that runs card actions on a board
//!
//! The VM executes the instructions of an [`InstructionRom`] one by one on
//! its [`Memory`], reading and changing the regions of the [`Board`] it was
//! given, and records every change of the board in its log.

pub mod enums;
pub mod error;
pub mod laws;
pub mod log;
pub mod memory;
pub mod step;

use vstd::prelude::*;
use crate::board::{Board, spec_region_access};
use crate::board::memory_region::MemoryRegionView;
use crate::card::CardView;
use crate::instruction_rom::InstructionRom;
use crate::rom::CardTypesRom;
use crate::vm::enums::{ExecutionResult, SingleExecutionResult};
use crate::vm::error::{Error as VmError, ErrorSource};
use crate::vm::log::{Event, EventView, Log, log_view};
use crate::vm::memory::{Error, Memory, spec_init_memory};
use crate::vm::step::{
    VmState, spec_command, command_panics, spec_step, step_panics, spec_run, run_panics,
    spec_load_region_attr, load_region_attr_panics, spec_store_region_attr, store_region_attr_panics,
    spec_card_count, card_count_panics, spec_count_with_type, count_with_type_panics,
    spec_card_type_by_index, card_type_by_index_panics, spec_type_attr_by_type_index,
    type_attr_by_type_index_panics, spec_type_attr_by_card_index, type_attr_by_card_index_panics,
    spec_load_card_attr, load_card_attr_panics, spec_store_card_attr, store_card_attr_panics,
    spec_instance_by_index, instance_by_index_panics, spec_instance_by_id, instance_by_id_panics,
    spec_call_card_action, call_card_action_panics, spec_remove_by_index, remove_by_index_panics,
    spec_remove_by_id, regions_with_card_id, removal_log,
};
use crate::vmcommand::VMCommand;
use crate::word::Word;

verus! {

/// A value that only the VM can open again.
#[derive(Debug, Clone, PartialEq, Eq)]
pub struct Sealed<T> {
    data: T,
}

impl<T> Sealed<T> {
    /// The sealed value.
    pub closed spec fn spec_data(self) -> T {
        self.data
    }

    /// Seals `data`.
    pub(crate) fn seal(data: T) -> (r: Self)
        ensures
            r.spec_data() == data,
    {
        Sealed { data }
    }

    pub(crate) fn release_data(self) -> (r: T)
        ensures
            r == self.spec_data(),
    {
        self.data
    }
}

/// A VM that runs one action of a card type on a board.
#[derive(Debug)]
pub struct VM<'a, Brd: Board> {
    pub instructions: InstructionRom<'a>,
    pub card_types: CardTypesRom<'a>,
    pub memory: Memory,
    pub board: &'a mut Brd,
    pub log: Log,
}

impl<'a, Brd: Board> VM<'a, Brd> {
    /// The memory, the board and the log of the VM.
    pub open spec fn state(&self) -> VmState {
        VmState { memory: self.memory@, board: (*self.board).board_view(), log: log_view(self.log@) }
    }

    /// A VM about to run action `action_index` of card type `card_index` with `args`.
    pub fn init_vm(
        instructions: InstructionRom<'a>,
        card_types: CardTypesRom<'a>,
        board: &'a mut Brd,
        args: &'a [Word],
        card_index: u32,
        action_index: u32,
    ) -> (r: Self)
        ensures
            r.state() == (VmState {
                memory: spec_init_memory(args@, card_index, action_index),
                board: (*old(board)).board_view(),
                log: Seq::empty(),
            }),
            r.instructions == instructions,
            r.card_types == card_types,
            (*final(board)).board_view() == (*final(r.board)).board_view(),
            (*final(board)).setup() == (*final(r.board)).setup(),
            (*r.board).setup() == (*old(board)).setup(),
    {
        let memory = Memory::init_memory(args, card_index, action_index);
        let r = Self { instructions, card_types, memory, board, log: Vec::new() };
        assert(log_view(r.log@) =~= Seq::<EventView>::empty());
        r
    }

    /// Runs at most `instruction_limit` instructions; see [`spec_run`].
    pub fn execute(&mut self, instruction_limit: usize) -> (r: Result<SingleExecutionResult, VmError>)
        requires
            !run_panics(old(self).instructions@, old(self).card_types@, old(self).state(), instruction_limit as nat),
        ensures
            (final(self).state(), r) == spec_run(
                old(self).instructions@,
                old(self).card_types@,
                old(self).state(),
                instruction_limit as nat,
            ),
            final(self).instructions == old(self).instructions,
            final(self).card_types == old(self).card_types,
            (*final(final(self).board)).board_view() == (*final(old(self).board)).board_view(),
            (*final(final(self).board)).setup() == (*final(old(self).board)).setup(),
            (*final(self).board).setup() == (*old(self).board).setup(),
    {
        let ghost instrs = self.instructions@;
        let ghost types = self.card_types@;
        let mut i: usize = 0;
        while i < instruction_limit
            invariant
                i <= instruction_limit,
                self.instructions@ == instrs,
                self.card_types@ == types,
                self.instructions == old(self).instructions,
                self.card_types == old(self).card_types,
                (*final(self.board)).board_view() == (*final(old(self).board)).board_view(),
                (*final(self.board)).setup() == (*final(old(self).board)).setup(),
                (*self.board).setup() == (*old(self).board).setup(),
                spec_run(instrs, types, self.state(), (instruction_limit - i) as nat) == spec_run(
                    instrs,
                    types,
                    old(self).state(),
                    instruction_limit as nat,
                ),
                !run_panics(instrs, types, self.state(), (instruction_limit - i) as nat),
            decreases instruction_limit - i,
        {
            match self.run_one_instruction() {
                Ok(()) => {},
                Err(Error::Halt) => {
                    return Ok(SingleExecutionResult::Finished);
                },
                Err(err) => {
                    let error = VmError { instruction: self.memory.pc() as u32, source: ErrorSource::from(err) };
                    return Err(error);
                },
            }
            i = i + 1;
        }
        Ok(SingleExecutionResult::Unfinished)
    }

    /// A VM that goes on with a run that stopped at its instruction limit.
    pub fn resume_execution(
        instructions: InstructionRom<'a>,
        card_types: CardTypesRom<'a>,
        board: &'a mut Brd,
        sealed_memory: Sealed<Memory>,
    ) -> (r: Self)
        ensures
            r.state() == (VmState {
                memory: sealed_memory.spec_data()@,
                board: (*old(board)).board_view(),
                log: Seq::empty(),
            }),
            r.instructions == instructions,
            r.card_types == card_types,
            (*final(board)).board_view() == (*final(r.board)).board_view(),
            (*final(board)).setup() == (*final(r.board)).setup(),
            (*r.board).setup() == (*old(board)).setup(),
    {
        let memory = Sealed::<Memory>::release_data(sealed_memory);
        let r = Self { instructions, card_types, memory, board, log: Vec::new() };
        assert(log_view(r.log@) =~= Seq::<EventView>::empty());
        r
    }

    /// Ends the VM: the log when the program counter is on `Halt`, otherwise
    /// the log and the sealed memory to resume from.
    pub fn stop_execution(self) -> (r: ExecutionResult)
        requires
            self.memory@.pc < self.instructions@.len(),
        ensures
            self.instructions@[self.memory@.pc as int] == VMCommand::Halt ==> (r matches ExecutionResult::Finished(l)
                && log_view(l@) == self.state().log),
            self.instructions@[self.memory@.pc as int] != VMCommand::Halt ==> (r matches ExecutionResult::Unfinished(l, m)
                && log_view(l@) == self.state().log && m.spec_data()@ == self.memory@),
    {
        if self.is_halted() {
            ExecutionResult::Finished(self.log)
        } else {
            ExecutionResult::Unfinished(self.log, Sealed::seal(self.memory))
        }
    }

    /// The memory of the VM.
    pub fn release_memory(self) -> (r: Memory)
        ensures
            r@ == self.memory@,
    {
        self.memory
    }

    /// Whether the instruction at the program counter is `Halt`.
    pub fn is_halted(&self) -> (r: bool)
        requires
            self.memory@.pc < self.instructions@.len(),
        ensures
            r == (self.instructions@[self.memory@.pc as int] == VMCommand::Halt),
    {
        let instruction = self.instructions.fetch_instruction(self.memory.pc());
        instruction == VMCommand::Halt
    }

    fn run_one_instruction(&mut self) -> (r: Result<(), Error>)
        requires
            !step_panics(old(self).instructions@, old(self).card_types@, old(self).state()),
        ensures
            (final(self).state(), r) == spec_step(old(self).instructions@, old(self).card_types@, old(self).state()),
            final(self).instructions == old(self).instructions,
            final(self).card_types == old(self).card_types,
            (*final(final(self).board)).board_view() == (*final(old(self).board)).board_view(),
            (*final(final(self).board)).setup() == (*final(old(self).board)).setup(),
            (*final(self).board).setup() == (*old(self).board).setup(),
    {
        let instruction = self.instructions.fetch_instruction(self.memory.pc());
        match instruction {
            VMCommand::Add => self.memory.add(),
            VMCommand::Sub => self.memory.sub(),
            VMCommand::Mul => self.memory.mul(),
            VMCommand::Div => self.memory.div(),
            VMCommand::Rem => self.memory.rem(),
            VMCommand::Neg => self.memory.neg(),
            VMCommand::Inc => self.memory.inc(),
            VMCommand::Dec => self.memory.dec(),
            VMCommand::Abs => self.memory.abs(),
            VMCommand::Eq => self.memory.equal(),
            VMCommand::Gt => self.memory.gt(),
            VMCommand::Lt => self.memory.lt(),
            VMCommand::Or => self.memory.or(),
            VMCommand::And => self.memory.and(),
            VMCommand::Not => self.memory.not(),
            VMCommand::PushConstant(word) => self.memory.push_external(word),
            VMCommand::LoadRegionAttr { region_index, attr_index } => self.push_region_attr(region_index, attr_index),
            VMCommand::StoreRegionAttr { region_index, attr_index } => self.pop_region_attr(region_index, attr_index),
            VMCommand::LoadLocal { index } => self.memory.push_local(index as usize),
            VMCommand::StoreLocal { index } => self.memory.pop_local(index as usize),
            VMCommand::LoadArgument { index } => self.memory.push_argument(index as usize),
            VMCommand::StoreArgument { index } => self.memory.pop_argument(index as usize),
            VMCommand::Goto(instruction) => self.memory.jmp(instruction as usize),
            VMCommand::IfGoto(instruction) => self.memory.ifjmp(instruction as usize),
            VMCommand::Call { address, n_args } => self.memory.call(address as usize, n_args as usize),
            VMCommand::Function { n_locals } => self.memory.function(n_locals as usize),
            VMCommand::Return => self.memory.fn_return(),
            VMCommand::ReturnVoid => self.memory.return_void(),
            VMCommand::PushCardCount { region_index } => self.push_card_count(region_index),
            VMCommand::PushTypeCount => {
                let len = self.card_types.card_type_count();
                self.memory.push_external(Word::Numeric(len as i32))
            },
            VMCommand::PushCardCountWithCardType { region_index } => self.push_card_count_with_type(region_index),
            VMCommand::PushCardTypeByCardIndex { region_index } => self.push_card_type_by_index(region_index),
            VMCommand::LoadCardTypeAttrByTypeIndex { attr_index } => self.push_card_type_attr_by_type_index(attr_index),
            VMCommand::LoadCardTypeAttrByCardIndex { region_index, attr_index } => self.push_card_type_attr_by_card_index(
                region_index,
                attr_index,
            ),
            VMCommand::LoadCardAttrByCardIndex { region_index, attr_index } => self.push_card_attr_by_index(
                region_index,
                attr_index,
            ),
            VMCommand::StoreCardAttrByCardIndex { region_index, attr_index } => self.pop_card_attr(region_index, attr_index),
            VMCommand::InstanceCardByTypeIndex { region_index } => self.instantiate_card_by_type_index(region_index),
            VMCommand::InstanceCardByTypeId { region_index } => self.instantiate_card_by_type_id(region_index),
            VMCommand::CallCardAction => self.call_card_action(),
            VMCommand::RemoveCardByIndex { region_index } => self.remove_card_by_index(region_index),
            VMCommand::RemoveCardById => self.remove_card_by_id(),
            VMCommand::Halt => Err(Error::Halt),
            // The instructions below are not implemented; the caller rules them out.
            VMCommand::PushCardTypeByCardId => Ok(()),
            VMCommand::LoadCardTypeAttrByCardId { .. } => Ok(()),
            VMCommand::LoadCardAttrByCardId { .. } => Ok(()),
            VMCommand::StoreCardAttrByCardId { .. } => Ok(()),
            VMCommand::ReadPlayerInput => Ok(()),
            VMCommand::ReadRandomInput => Ok(()),
        }
    }
}

impl<'a, Brd: Board> VM<'a, Brd> {
    fn push_region_attr(&mut self, region_index: u16, attr_index: u16) -> (r: Result<(), Error>)
        requires
            !load_region_attr_panics(old(self).state(), region_index, attr_index),
        ensures
            (final(self).state(), r) == spec_load_region_attr(old(self).state(), region_index, attr_index),
            final(self).instructions == old(self).instructions,
            final(self).card_types == old(self).card_types,
            (*final(final(self).board)).board_view() == (*final(old(self).board)).board_view(),
            (*final(final(self).board)).setup() == (*final(old(self).board)).setup(),
            (*final(self).board).setup() == (*old(self).board).setup(),
    {
        let ghost b0 = (*self.board).board_view();
        match self.board.memory_region(region_index as usize) {
            Ok(region) => {
                let attr = region.attrs[attr_index as usize];
                proof {
                    assert((*self.board).board_view().regions =~= b0.regions);
                }
                self.memory.push_external(attr)
            },
            // Unreachable: the caller rules out a region out of reach.
            Err(_) => Err(Error::AccessViolation),
        }
    }

    fn pop_region_attr(&mut self, region_index: u16, attr_index: u16) -> (r: Result<(), Error>)
        requires
            !store_region_attr_panics(old(self).state(), region_index, attr_index),
        ensures
            (final(self).state(), r) == spec_store_region_attr(old(self).state(), region_index, attr_index),
            final(self).instructions == old(self).instructions,
            final(self).card_types == old(self).card_types,
            (*final(final(self).board)).board_view() == (*final(old(self).board)).board_view(),
            (*final(final(self).board)).setup() == (*final(old(self).board)).setup(),
            (*final(self).board).setup() == (*old(self).board).setup(),
    {
        let value = match self.memory.pop_external() {
            Ok(v) => v,
            Err(e) => return Err(e),
        };
        match self.board.memory_region(region_index as usize) {
            Ok(region) => {
                let previous_value = region.attrs[attr_index as usize];
                let ghost log0 = self.log@;
                self.log.push(Event::RegionChange { region_index, attr_index, previous_value, new_value: value });
                proof {
                    assert(log_view(self.log@) =~= log_view(log0).push(
                        EventView::RegionChange { region_index, attr_index, previous_value, new_value: value },
                    ));
                }
                region.attrs.set(attr_index as usize, value);
                Ok(())
            },
            // Unreachable: the caller rules out a region out of reach.
            Err(_) => Err(Error::AccessViolation),
        }
    }

    fn push_card_count(&mut self, region_index: u32) -> (r: Result<(), Error>)
        requires
            !card_count_panics(old(self).state(), region_index),
        ensures
            (final(self).state(), r) == spec_card_count(old(self).state(), region_index),
            final(self).instructions == old(self).instructions,
            final(self).card_types == old(self).card_types,
            (*final(final(self).board)).board_view() == (*final(old(self).board)).board_view(),
            (*final(final(self).board)).setup() == (*final(old(self).board)).setup(),
            (*final(self).board).setup() == (*old(self).board).setup(),
    {
        let ghost b0 = (*self.board).board_view();
        match self.board.memory_region(region_index as usize) {
            Ok(region) => {
                let len = region.cards.len();
                proof {
                    assert((*self.board).board_view().regions =~= b0.regions);
                }
                self.memory.push_external(Word::Numeric(len as i32))
            },
            // Unreachable: the caller rules out a region out of reach.
            Err(_) => Err(Error::AccessViolation),
        }
    }

    fn push_card_count_with_type(&mut self, region_index: u32) -> (r: Result<(), Error>)
        requires
            !count_with_type_panics(old(self).state(), region_index),
        ensures
            (final(self).state(), r) == spec_count_with_type(old(self).state(), region_index),
            final(self).instructions == old(self).instructions,
            final(self).card_types == old(self).card_types,
            (*final(final(self).board)).board_view() == (*final(old(self).board)).board_view(),
            (*final(final(self).board)).setup() == (*final(old(self).board)).setup(),
            (*final(self).board).setup() == (*old(self).board).setup(),
    {
        let ghost b0 = (*self.board).board_view();
        let card_type = match self.memory.pop_external_no_pc_inc() {
            Ok(w) => w,
            Err(e) => return Err(e),
        };
        match card_type {
            Word::Numeric(id) => match self.board.memory_region(region_index as usize) {
                Ok(region) => {
                    let count = region.count_cards_with_type(id as u32);
                    proof {
                        assert((*self.board).board_view().regions =~= b0.regions);
                    }
                    self.memory.push_external(Word::Numeric(count as i32))
                },
                // Unreachable: the caller rules out a region out of reach.
                Err(_) => Err(Error::AccessViolation),
            },
            Word::Boolean(_) => Err(Error::TypeMismatch),
        }
    }

    fn push_card_type_by_index(&mut self, region_index: u32) -> (r: Result<(), Error>)
        requires
            !card_type_by_index_panics(old(self).state(), region_index),
        ensures
            (final(self).state(), r) == spec_card_type_by_index(old(self).state(), region_index),
            final(self).instructions == old(self).instructions,
            final(self).card_types == old(self).card_types,
            (*final(final(self).board)).board_view() == (*final(old(self).board)).board_view(),
            (*final(final(self).board)).setup() == (*final(old(self).board)).setup(),
            (*final(self).board).setup() == (*old(self).board).setup(),
    {
        let ghost b0 = (*self.board).board_view();
        let index = match self.memory.pop_external_no_pc_inc() {
            Ok(w) => w,
            Err(e) => return Err(e),
        };
        match index {
            Word::Numeric(i) => match self.board.memory_region(region_index as usize) {
                Ok(region) => {
                    let card_type = region.cards[i as usize].card_type();
                    proof {
                        assert((*self.board).board_view().regions =~= b0.regions);
                    }
                    self.memory.push_external(Word::Numeric(card_type as i32))
                },
                // Unreachable: the caller rules out a region out of reach.
                Err(_) => Err(Error::AccessViolation),
            },
            Word::Boolean(_) => Err(Error::TypeMismatch),
        }
    }

    fn push_card_type_attr_by_type_index(&mut self, attr_index: u32) -> (r: Result<(), Error>)
        requires
            !type_attr_by_type_index_panics(old(self).card_types@, old(self).state(), attr_index),
        ensures
            (final(self).state(), r) == spec_type_attr_by_type_index(old(self).card_types@, old(self).state(), attr_index),
            final(self).instructions == old(self).instructions,
            final(self).card_types == old(self).card_types,
            (*final(final(self).board)).board_view() == (*final(old(self).board)).board_view(),
            (*final(final(self).board)).setup() == (*final(old(self).board)).setup(),
            (*final(self).board).setup() == (*old(self).board).setup(),
    {
        let type_index = match self.memory.pop_external_no_pc_inc() {
            Ok(w) => w,
            Err(e) => return Err(e),
        };
        match type_index {
            Word::Numeric(id) => {
                let card_type = self.card_types.card_type_by_type_index(id as usize);
                let attr_value = card_type.attr_by_index(attr_index as usize);
                self.memory.push_external(attr_value)
            },
            Word::Boolean(_) => Err(Error::TypeMismatch),
        }
    }

    fn push_card_type_attr_by_card_index(&mut self, region_index: u16, attr_index: u16) -> (r: Result<(), Error>)
        requires
            !type_attr_by_card_index_panics(old(self).card_types@, old(self).state(), region_index, attr_index),
        ensures
            (final(self).state(), r) == spec_type_attr_by_card_index(old(self).card_types@, old(self).state(), region_index, attr_index),
            final(self).instructions == old(self).instructions,
            final(self).card_types == old(self).card_types,
            (*final(final(self).board)).board_view() == (*final(old(self).board)).board_view(),
            (*final(final(self).board)).setup() == (*final(old(self).board)).setup(),
            (*final(self).board).setup() == (*old(self).board).setup(),
    {
        let ghost b0 = (*self.board).board_view();
        let card_index = match self.memory.pop_external_no_pc_inc() {
            Ok(w) => w,
            Err(e) => return Err(e),
        };
        match card_index {
            Word::Numeric(id) => match self.board.memory_region(region_index as usize) {
                Ok(region) => {
                    let card_type_id = region.cards[id as usize].card_type();
                    proof {
                        assert((*self.board).board_view().regions =~= b0.regions);
                    }
                    match self.card_types.card_type_by_type_id(card_type_id) {
                        Some(card_type) => {
                            let attr_value = card_type.attr_by_index(attr_index as usize);
                            self.memory.push_external(attr_value)
                        },
                        None => Err(Error::NoSuchType),
                    }
                },
                // Unreachable: the caller rules out a region out of reach.
                Err(_) => Err(Error::AccessViolation),
            },
            Word::Boolean(_) => Err(Error::TypeMismatch),
        }
    }

    fn push_card_attr_by_index(&mut self, region_index: u16, attr_index: u16) -> (r: Result<(), Error>)
        requires
            !load_card_attr_panics(old(self).state(), region_index, attr_index),
        ensures
            (final(self).state(), r) == spec_load_card_attr(old(self).state(), region_index, attr_index),
            final(self).instructions == old(self).instructions,
            final(self).card_types == old(self).card_types,
            (*final(final(self).board)).board_view() == (*final(old(self).board)).board_view(),
            (*final(final(self).board)).setup() == (*final(old(self).board)).setup(),
            (*final(self).board).setup() == (*old(self).board).setup(),
    {
        let ghost b0 = (*self.board).board_view();
        let card_index = match self.memory.pop_external_no_pc_inc() {
            Ok(w) => w,
            Err(e) => return Err(e),
        };
        match card_index {
            Word::Numeric(id) => match self.board.memory_region(region_index as usize) {
                Ok(region) => {
                    let attr_value = region.cards[id as usize].attr(attr_index as usize);
                    proof {
                        assert((*self.board).board_view().regions =~= b0.regions);
                    }
                    self.memory.push_external(attr_value)
                },
                // Unreachable: the caller rules out a region out of reach.
                Err(_) => Err(Error::AccessViolation),
            },
            Word::Boolean(_) => Err(Error::TypeMismatch),
        }
    }

    fn pop_card_attr(&mut self, region_index: u16, attr_index: u16) -> (r: Result<(), Error>)
        requires
            !store_card_attr_panics(old(self).state(), region_index, attr_index),
        ensures
            (final(self).state(), r) == spec_store_card_attr(old(self).state(), region_index, attr_index),
            final(self).instructions == old(self).instructions,
            final(self).card_types == old(self).card_types,
            (*final(final(self).board)).board_view() == (*final(old(self).board)).board_view(),
            (*final(final(self).board)).setup() == (*final(old(self).board)).setup(),
            (*final(self).board).setup() == (*old(self).board).setup(),
    {
        let ghost b0 = (*self.board).board_view();
        let card_index = match self.memory.pop_external_no_pc_inc() {
            Ok(w) => w,
            Err(e) => return Err(e),
        };
        match card_index {
            Word::Numeric(id) => match self.board.memory_region(region_index as usize) {
                Ok(region) => {
                    let idx = id as usize;
                    let attr_value = match self.memory.pop_external() {
                        Ok(v) => v,
                        Err(e) => {
                            proof {
                                assert((*self.board).board_view().regions =~= b0.regions);
                            }
                            return Err(e);
                        },
                    };
                    let previous_value = region.cards[idx].attr(attr_index as usize);
                    let ghost log0 = self.log@;
                    self.log.push(
                        Event::CardChange {
                            region_index,
                            card_index: id as u32,
                            attr_index,
                            previous_value,
                            new_value: attr_value,
                        },
                    );
                    proof {
                        assert(log_view(self.log@) =~= log_view(log0).push(
                            EventView::CardChange {
                                region_index,
                                card_index: id as u32,
                                attr_index,
                                previous_value,
                                new_value: attr_value,
                            },
                        ));
                    }
                    region.set_card_attr(idx, attr_index as usize, attr_value);
                    Ok(())
                },
                // Unreachable: the caller rules out a region out of reach.
                Err(_) => Err(Error::AccessViolation),
            },
            Word::Boolean(_) => Err(Error::TypeMismatch),
        }
    }

    fn instantiate_card_by_type_index(&mut self, region_index: u16) -> (r: Result<(), Error>)
        requires
            !instance_by_index_panics(old(self).card_types@, old(self).state(), region_index),
        ensures
            (final(self).state(), r) == spec_instance_by_index(old(self).card_types@, old(self).state(), region_index),
            final(self).instructions == old(self).instructions,
            final(self).card_types == old(self).card_types,
            (*final(final(self).board)).board_view() == (*final(old(self).board)).board_view(),
            (*final(final(self).board)).setup() == (*final(old(self).board)).setup(),
            (*final(self).board).setup() == (*old(self).board).setup(),
    {
        let index = match self.memory.pop_external() {
            Ok(w) => w,
            Err(e) => return Err(e),
        };
        match index {
            Word::Numeric(index) => {
                let new_card_id = self.board.generate_card_id();
                match self.board.memory_region(region_index as usize) {
                    Ok(region) => {
                        let id: u32 = index as u32;
                        let card = match self.card_types.instance_card_by_type_index(id, new_card_id) {
                            Ok(card) => card,
                            // Unreachable: the caller rules out a missing card type.
                            Err(_) => return Err(Error::NoSuchType),
                        };
                        region.push_card(card);
                        proof {
                            assert(region@.cards.len() == region.cards@.len());
                        }
                        let card_index = (region.cards.len() - 1) as u32;
                        let ghost log0 = self.log@;
                        self.log.push(Event::AddCardByIndex { card_index, cardtype_index: id });
                        proof {
                            assert(log_view(self.log@) =~= log_view(log0).push(EventView::AddCardByIndex { card_index, cardtype_index: id }));
                        }
                        Ok(())
                    },
                    // Unreachable: the caller rules out a region out of reach.
                    Err(_) => Err(Error::AccessViolation),
                }
            },
            Word::Boolean(_) => Err(Error::TypeMismatch),
        }
    }

    fn instantiate_card_by_type_id(&mut self, region_index: u16) -> (r: Result<(), Error>)
        requires
            !instance_by_id_panics(old(self).card_types@, old(self).state(), region_index),
        ensures
            (final(self).state(), r) == spec_instance_by_id(old(self).card_types@, old(self).state(), region_index),
            final(self).instructions == old(self).instructions,
            final(self).card_types == old(self).card_types,
            (*final(final(self).board)).board_view() == (*final(old(self).board)).board_view(),
            (*final(final(self).board)).setup() == (*final(old(self).board)).setup(),
            (*final(self).board).setup() == (*old(self).board).setup(),
    {
        let index = match self.memory.pop_external() {
            Ok(w) => w,
            Err(e) => return Err(e),
        };
        match index {
            Word::Numeric(index) => {
                let new_card_id = self.board.generate_card_id();
                match self.board.memory_region(region_index as usize) {
                    Ok(region) => {
                        let id: u32 = index as u32;
                        let card = match self.card_types.instance_card_by_type_id(id, new_card_id) {
                            Ok(card) => card,
                            // Unreachable: the caller rules out a missing card type.
                            Err(_) => return Err(Error::NoSuchType),
                        };
                        region.push_card(card);
                        proof {
                            assert(region@.cards.len() == region.cards@.len());
                        }
                        let card_index = (region.cards.len() - 1) as u32;
                        let ghost log0 = self.log@;
                        self.log.push(Event::AddCardById { card_index, cardtype_id: id });
                        proof {
                            assert(log_view(self.log@) =~= log_view(log0).push(EventView::AddCardById { card_index, cardtype_id: id }));
                        }
                        Ok(())
                    },
                    // Unreachable: the caller rules out a region out of reach.
                    Err(_) => Err(Error::AccessViolation),
                }
            },
            Word::Boolean(_) => Err(Error::TypeMismatch),
        }
    }

    fn call_card_action(&mut self) -> (r: Result<(), Error>)
        requires
            !call_card_action_panics(old(self).card_types@, old(self).state()),
        ensures
            (final(self).state(), r) == spec_call_card_action(old(self).card_types@, old(self).state()),
            final(self).instructions == old(self).instructions,
            final(self).card_types == old(self).card_types,
            (*final(final(self).board)).board_view() == (*final(old(self).board)).board_view(),
            (*final(final(self).board)).setup() == (*final(old(self).board)).setup(),
            (*final(self).board).setup() == (*old(self).board).setup(),
    {
        let action_index_word = match self.memory.pop_external_no_pc_inc() {
            Ok(w) => w,
            Err(e) => return Err(e),
        };
        let action_index = match usize::try_from(action_index_word) {
            Ok(v) => v,
            Err(_) => return Err(Error::TypeMismatch),
        };
        let type_index_word = match self.memory.pop_external_no_pc_inc() {
            Ok(w) => w,
            Err(e) => return Err(e),
        };
        let type_index = match usize::try_from(type_index_word) {
            Ok(v) => v,
            Err(_) => return Err(Error::TypeMismatch),
        };
        let card_type = self.card_types.card_type_by_type_index(type_index);
        let entry_point = card_type.action_entry_point(action_index);
        match self.memory.call(entry_point.address(), entry_point.n_args()) {
            Ok(()) => {},
            Err(e) => return Err(e),
        }
        let args = self.memory.args();
        let ghost log0 = self.log@;
        self.log.push(
            Event::CardActionStarted {
                cardtype_index: type_index as u32,
                action_index: action_index as u32,
                args,
            },
        );
        proof {
            assert(log_view(self.log@) =~= log_view(log0).push(
                EventView::CardActionStarted {
                    cardtype_index: type_index as u32,
                    action_index: action_index as u32,
                    args: args@,
                },
            ));
        }
        Ok(())
    }

    fn remove_card_by_index(&mut self, region_index: u16) -> (r: Result<(), Error>)
        requires
            !remove_by_index_panics(old(self).state(), region_index),
        ensures
            (final(self).state(), r) == spec_remove_by_index(old(self).state(), region_index),
            final(self).instructions == old(self).instructions,
            final(self).card_types == old(self).card_types,
            (*final(final(self).board)).board_view() == (*final(old(self).board)).board_view(),
            (*final(final(self).board)).setup() == (*final(old(self).board)).setup(),
            (*final(self).board).setup() == (*old(self).board).setup(),
    {
        let ghost b0 = (*self.board).board_view();
        match self.board.memory_region(region_index as usize) {
            Ok(region) => {
                let card_index_word = match self.memory.pop_external() {
                    Ok(w) => w,
                    Err(e) => {
                        proof {
                            assert((*self.board).board_view().regions =~= b0.regions);
                        }
                        return Err(e);
                    },
                };
                let card_index = match usize::try_from(card_index_word) {
                    Ok(v) => v,
                    Err(_) => {
                        proof {
                            assert((*self.board).board_view().regions =~= b0.regions);
                        }
                        return Err(Error::TypeMismatch);
                    },
                };
                let card = region.remove_card(card_index);
                let ghost log0 = self.log@;
                self.log.push(Event::RemoveCard { card_id: card.id() });
                proof {
                    assert(log_view(self.log@) =~= log_view(log0).push(EventView::RemoveCard { card_id: card@.id }));
                }
                Ok(())
            },
            // Unreachable: the caller rules out a region out of reach.
            Err(_) => Err(Error::AccessViolation),
        }
    }

    fn remove_card_by_id(&mut self) -> (r: Result<(), Error>)
        requires
            !crate::vm::memory::pop_external_panics(old(self).state().memory),
        ensures
            (final(self).state(), r) == spec_remove_by_id(old(self).state()),
            final(self).instructions == old(self).instructions,
            final(self).card_types == old(self).card_types,
            (*final(final(self).board)).board_view() == (*final(old(self).board)).board_view(),
            (*final(final(self).board)).setup() == (*final(old(self).board)).setup(),
            (*final(self).board).setup() == (*old(self).board).setup(),
    {
        let card_id = match self.memory.pop_external() {
            Ok(w) => w,
            Err(e) => return Err(e),
        };
        let card_id = match u32::try_from(card_id) {
            Ok(v) => v,
            Err(_) => return Err(Error::TypeMismatch),
        };
        let ghost b0 = (*self.board).board_view();
        let ghost log0 = log_view(self.log@);
        let ghost memory1 = self.memory@;
        let count = self.board.region_count();
        let mut region_index: usize = 0;
        while region_index < count
            invariant
                region_index <= count,
                count == b0.regions.len(),
                self.memory@ == memory1,
                (*self.board).board_view().regions == regions_with_card_id(b0, card_id, region_index as nat),
                (*self.board).board_view().readable == b0.readable,
                (*self.board).board_view().owner == b0.owner,
                (*self.board).board_view().card_index == b0.card_index,
                log_view(self.log@) == log0 + removal_log(b0, card_id, region_index as nat),
                self.instructions == old(self).instructions,
                self.card_types == old(self).card_types,
                (*final(self.board)).board_view() == (*final(old(self).board)).board_view(),
                (*final(self.board)).setup() == (*final(old(self).board)).setup(),
                (*self.board).setup() == (*old(self).board).setup(),
            decreases count - region_index,
        {
            let ghost before = (*self.board).board_view();
            let ghost log1 = log_view(self.log@);
            let ghost k0 = region_index as int;
            match self.board.memory_region(region_index) {
                Ok(region) => {
                    let n = region.retain_cards_with_id(card_id);
                    push_removals(&mut self.log, card_id, n);
                },
                Err(_) => {},
            }
            proof {
                assert(regions_with_card_id(b0, card_id, (k0 + 1) as nat) =~= (*self.board).board_view().regions);
                assert(log0 + removal_log(b0, card_id, (k0 + 1) as nat) =~= log_view(self.log@));
            }
            region_index = region_index + 1;
        }
        Ok(())
    }
}

/// Appends `n` removals of card `card_id` to `log`.
fn push_removals(log: &mut Log, card_id: u32, n: usize)
    ensures
        log_view(final(log)@) == log_view(old(log)@) + Seq::new(n as nat, |j: int| EventView::RemoveCard { card_id }),
{
    let ghost log1 = log_view(log@);
    let mut k: usize = 0;
    while k < n
        invariant
            k <= n,
            log_view(log@) == log1 + Seq::new(k as nat, |j: int| EventView::RemoveCard { card_id }),
        decreases n - k,
    {
        let ghost l = log@;
        log.push(Event::RemoveCard { card_id });
        proof {
            assert(log_view(log@) =~= log_view(l).push(EventView::RemoveCard { card_id }));
            assert(log1 + Seq::new((k + 1) as nat, |j: int| EventView::RemoveCard { card_id }) =~= (log1
                + Seq::new(k as nat, |j: int| EventView::RemoveCard { card_id })).push(EventView::RemoveCard { card_id }));
        }
        k = k + 1;
    }
}

} // verus!
