use solcery_vm::board::memory_region::MemoryRegion;
use solcery_vm::board::player_board::PlayerBoard;
use solcery_vm::board::verification_board::{OwnedMemoryRegion, VerificationBoard};
use solcery_vm::board::{Board, Error as BoardError};
use solcery_vm::card::{CardType, EntryPoint};
use solcery_vm::instruction_rom::InstructionRom;
use solcery_vm::rom::CardTypesRom;
use solcery_vm::vm::enums::{ExecutionResult, SingleExecutionResult};
use solcery_vm::vm::log::Event;
use solcery_vm::vm::memory::Memory;
use solcery_vm::vm::VM;
use solcery_vm::vmcommand::VMCommand;
use solcery_vm::word::Word;

fn n(v: i32) -> Word {
    Word::Numeric(v)
}

fn b(v: bool) -> Word {
    Word::Boolean(v)
}

fn type1() -> CardType {
    let type1_attrs = vec![n(10), n(5), b(true), b(false)];
    let type1_init_attrs = vec![n(5), n(5), b(false), b(false)];
    CardType::from_raw_parts(1, type1_attrs, type1_init_attrs, vec![EntryPoint::from_raw_parts(2, 0)])
}

fn type2() -> CardType {
    let type2_attrs = vec![n(20), n(5), b(true), b(true)];
    let type2_init_attrs = vec![n(6), n(4), b(false), b(false)];
    CardType::from_raw_parts(2, type2_attrs, type2_init_attrs, vec![EntryPoint::from_raw_parts(4, 0)])
}

fn testing_board() -> VerificationBoard {
    let type1 = type1();
    let type2 = type2();

    let board_attrs = vec![n(3), n(4), n(5), b(false), b(false), b(true)];

    let mut card1 = type1.instantiate_card(1);
    let mut card2 = type2.instantiate_card(2);

    card1.attrs[0] = Word::Numeric(4);
    card2.attrs[3] = Word::Boolean(true);

    let card3 = type1.instantiate_card(3);
    let card4 = type2.instantiate_card(4);
    let common_region = OwnedMemoryRegion::with_data(0, vec![card1, card2, card3, card4], board_attrs);

    VerificationBoard::from_raw_parts(vec![common_region], 5, 1, vec![])
}

fn initial_board() -> VerificationBoard {
    let card1 = type1().instantiate_card(1);
    let board_attrs = vec![n(0), n(0), n(0), b(false), b(false), b(false)];
    let common_region = OwnedMemoryRegion::with_data(0, vec![card1], board_attrs);
    VerificationBoard::from_raw_parts(vec![common_region], 1, 1, vec![])
}

fn run(instructions: Vec<VMCommand>, board: &mut VerificationBoard) -> Memory {
    let instructions = InstructionRom::from_raw_parts(&instructions);
    let card_types = vec![type1(), type2()];
    let card_types = CardTypesRom::from_raw_parts(&card_types);
    let args = vec![];
    let mut vm = VM::init_vm(instructions, card_types, board, &args, 0, 0);
    vm.execute(10).unwrap();
    assert!(vm.is_halted());
    VM::release_memory(vm)
}

#[test]
fn tests_init_empty_memory_vm() {
    let instructions = vec![
        VMCommand::PushConstant(Word::Numeric(2)),
        VMCommand::PushCardTypeByCardIndex { region_index: 0 },
        VMCommand::Halt,
    ];
    let instructions = InstructionRom::from_raw_parts(&instructions);

    let card_types = vec![type1(), type2()];
    let card_types = CardTypesRom::from_raw_parts(&card_types);

    let mut board = testing_board();

    let args = vec![];
    let vm = VM::init_vm(instructions, card_types, &mut board, &args, 0, 0);
    let memory = VM::release_memory(vm);
    let needed_memory = Memory::from_raw_parts(vec![n(0), n(0)], 0, 0, 0, 0, 0);

    assert_eq!(memory, needed_memory);
}

#[test]
fn tests_push_type() {
    let mut board = testing_board();
    let memory = run(
        vec![VMCommand::PushConstant(Word::Numeric(2)), VMCommand::PushCardTypeByCardIndex { region_index: 0 }, VMCommand::Halt],
        &mut board,
    );
    assert_eq!(memory, Memory::from_raw_parts(vec![n(0), n(0), n(1)], 0, 0, 2, 0, 0));
    assert_eq!(board, testing_board());
}

#[test]
fn push_card_count() {
    let mut board = testing_board();
    let memory = run(
        vec![
            VMCommand::PushConstant(Word::Numeric(2)),
            VMCommand::PushCardCountWithCardType { region_index: 0 },
            VMCommand::Halt,
        ],
        &mut board,
    );
    assert_eq!(memory, Memory::from_raw_parts(vec![n(0), n(0), n(2)], 0, 0, 2, 0, 0));
    assert_eq!(board, testing_board());
}

#[test]
fn tests_push_type_attr_by_type_index() {
    let instructions = vec![
        VMCommand::PushConstant(Word::Numeric(1)),
        VMCommand::LoadCardTypeAttrByTypeIndex { attr_index: 3 },
        VMCommand::Halt,
    ];
    let instructions = InstructionRom::from_raw_parts(&instructions);

    let card_types = vec![type1(), type2()];
    let card_types = CardTypesRom::from_raw_parts(&card_types);

    let mut board = testing_board();

    let args = vec![];
    let mut vm = VM::init_vm(instructions, card_types, &mut board, &args, 0, 0);

    vm.execute(10).unwrap();

    assert!(vm.is_halted());

    let memory = VM::release_memory(vm);
    let needed_memory = Memory::from_raw_parts(vec![n(0), n(0), b(true)], 0, 0, 2, 0, 0);

    assert_eq!(memory, needed_memory);

    let board_needed = testing_board();

    assert_eq!(board, board_needed);
}

#[test]
fn push_type_attr_by_card_index() {
    let mut board = testing_board();
    let memory = run(
        vec![
            VMCommand::PushConstant(Word::Numeric(1)),
            VMCommand::LoadCardTypeAttrByCardIndex { region_index: 0, attr_index: 3 },
            VMCommand::Halt,
        ],
        &mut board,
    );
    assert_eq!(memory, Memory::from_raw_parts(vec![n(0), n(0), b(true)], 0, 0, 2, 0, 0));
    assert_eq!(board, testing_board());
}

#[test]
fn tests_push_attr() {
    let mut board = testing_board();
    let memory = run(
        vec![
            VMCommand::PushConstant(Word::Numeric(1)),
            VMCommand::LoadCardAttrByCardIndex { region_index: 0, attr_index: 3 },
            VMCommand::Halt,
        ],
        &mut board,
    );
    assert_eq!(memory, Memory::from_raw_parts(vec![n(0), n(0), b(true)], 0, 0, 2, 0, 0));
    assert_eq!(board, testing_board());
}

#[test]
fn tests_pop_attr() {
    let mut board = testing_board();
    let memory = run(
        vec![
            VMCommand::PushConstant(Word::Numeric(42)),
            VMCommand::PushConstant(Word::Numeric(1)),
            VMCommand::StoreCardAttrByCardIndex { region_index: 0, attr_index: 3 },
            VMCommand::Halt,
        ],
        &mut board,
    );
    assert_eq!(memory, Memory::from_raw_parts(vec![n(0), n(0)], 0, 0, 3, 0, 0));
    let mut board_needed = testing_board();
    board_needed.regions[0].memory_region.cards[1].attrs[3] = Word::Numeric(42);
    assert_eq!(board, board_needed);
}

#[test]
fn add_one_card_by_index() {
    let mut board = initial_board();
    let memory = run(
        vec![
            VMCommand::PushConstant(Word::Numeric(1)),
            VMCommand::InstanceCardByTypeIndex { region_index: 0 },
            VMCommand::Halt,
        ],
        &mut board,
    );
    assert_eq!(memory, Memory::from_raw_parts(vec![n(0), n(0)], 0, 0, 2, 0, 0));
    let mut board_needed = initial_board();
    let _ = board_needed.generate_card_id();
    let added_card = type2().instantiate_card(1);
    board_needed.regions[0].memory_region.cards.push(added_card);
    assert_eq!(board, board_needed);
}

#[test]
fn add_one_card_by_id() {
    let mut board = initial_board();
    let memory = run(
        vec![
            VMCommand::PushConstant(Word::Numeric(2)),
            VMCommand::InstanceCardByTypeId { region_index: 0 },
            VMCommand::Halt,
        ],
        &mut board,
    );
    assert_eq!(memory, Memory::from_raw_parts(vec![n(0), n(0)], 0, 0, 2, 0, 0));
    let mut board_needed = initial_board();
    let _ = board_needed.generate_card_id();
    let added_card = type2().instantiate_card(1);
    board_needed.regions[0].memory_region.cards.push(added_card);
    assert_eq!(board, board_needed);
}

#[test]
fn add_one_card() {
    let mut board = initial_board();
    let memory = run(
        vec![
            VMCommand::CallCardAction,
            VMCommand::Halt,
            VMCommand::Function { n_locals: 0 },
            VMCommand::PushConstant(Word::Numeric(2)),
            VMCommand::InstanceCardByTypeId { region_index: 0 },
            VMCommand::PushConstant(Word::Numeric(5)),
            VMCommand::Return,
        ],
        &mut board,
    );
    assert_eq!(memory, Memory::from_raw_parts(vec![n(5)], 0, 0, 1, 0, 0));
    let mut board_needed = initial_board();
    let card = type2().instantiate_card(board_needed.generate_card_id());
    board_needed.regions[0].memory_region.cards.push(card);
    assert_eq!(board, board_needed);
}

#[test]
fn remove_one_card() {
    let mut board = testing_board();
    let memory = run(
        vec![VMCommand::PushConstant(Word::Numeric(0)), VMCommand::RemoveCardByIndex { region_index: 0 }, VMCommand::Halt],
        &mut board,
    );
    assert_eq!(memory, Memory::from_raw_parts(vec![n(0), n(0)], 0, 0, 2, 0, 0));
    let mut board_needed = testing_board();
    board_needed.regions[0].memory_region.cards.remove(0);
    assert_eq!(board, board_needed);
}

#[test]
fn store_region_attr_is_logged() {
    let instructions = vec![
        VMCommand::PushConstant(Word::Numeric(9)),
        VMCommand::StoreRegionAttr { region_index: 0, attr_index: 1 },
        VMCommand::LoadRegionAttr { region_index: 0, attr_index: 1 },
        VMCommand::Halt,
    ];
    let card_types = vec![type1(), type2()];
    let mut board = testing_board();
    let args = vec![];
    let mut vm = VM::init_vm(
        InstructionRom::from_raw_parts(&instructions),
        CardTypesRom::from_raw_parts(&card_types),
        &mut board,
        &args,
        0,
        0,
    );
    assert_eq!(vm.execute(10), Ok(SingleExecutionResult::Finished));
    match vm.stop_execution() {
        ExecutionResult::Finished(log) => {
            assert_eq!(
                log,
                vec![Event::RegionChange { region_index: 0, attr_index: 1, previous_value: n(4), new_value: n(9) }]
            );
        },
        _ => panic!("expected a finished run"),
    }
    assert_eq!(board.regions[0].memory_region.attrs[1], n(9));
}

#[test]
fn remove_card_by_id_keeps_the_cards_with_that_id() {
    let instructions =
        vec![VMCommand::PushConstant(Word::Numeric(3)), VMCommand::RemoveCardById, VMCommand::Halt];
    let card_types = vec![type1(), type2()];
    let mut board = testing_board();
    let args = vec![];
    let mut vm = VM::init_vm(
        InstructionRom::from_raw_parts(&instructions),
        CardTypesRom::from_raw_parts(&card_types),
        &mut board,
        &args,
        0,
        0,
    );
    assert_eq!(vm.execute(10), Ok(SingleExecutionResult::Finished));
    match vm.stop_execution() {
        ExecutionResult::Finished(log) => assert_eq!(log, vec![Event::RemoveCard { card_id: 3 }]),
        _ => panic!("expected a finished run"),
    }
    let cards = &board.regions[0].memory_region.cards;
    assert_eq!(cards.len(), 1);
    assert_eq!(cards[0].id(), 3);
}

#[test]
fn call_card_action_logs_its_start() {
    let instructions = vec![
        VMCommand::CallCardAction,
        VMCommand::Halt,
        VMCommand::Function { n_locals: 0 },
        VMCommand::ReturnVoid,
    ];
    let card_types = vec![type1(), type2()];
    let mut board = initial_board();
    let args = vec![];
    let mut vm = VM::init_vm(
        InstructionRom::from_raw_parts(&instructions),
        CardTypesRom::from_raw_parts(&card_types),
        &mut board,
        &args,
        0,
        0,
    );
    assert_eq!(vm.execute(10), Ok(SingleExecutionResult::Finished));
    match vm.stop_execution() {
        ExecutionResult::Finished(log) => assert_eq!(
            log,
            vec![Event::CardActionStarted { cardtype_index: 0, action_index: 0, args: vec![] }]
        ),
        _ => panic!("expected a finished run"),
    }
}

#[test]
fn boolean_card_type_is_a_type_mismatch() {
    let instructions = vec![
        VMCommand::PushConstant(Word::Boolean(true)),
        VMCommand::InstanceCardByTypeIndex { region_index: 0 },
        VMCommand::Halt,
    ];
    let card_types = vec![type1(), type2()];
    let mut board = initial_board();
    let args = vec![];
    let mut vm = VM::init_vm(
        InstructionRom::from_raw_parts(&instructions),
        CardTypesRom::from_raw_parts(&card_types),
        &mut board,
        &args,
        0,
        0,
    );
    let err = vm.execute(10).unwrap_err();
    assert_eq!(err.instruction, 2);
    assert_eq!(
        err.source,
        solcery_vm::vm::error::ErrorSource::MemoryError { source: solcery_vm::vm::memory::Error::TypeMismatch }
    );
}

#[test]
fn unfinished_board_run_resumes_where_it_stopped() {
    let instructions = vec![
        VMCommand::PushConstant(Word::Numeric(7)),
        VMCommand::PushConstant(Word::Numeric(5)),
        VMCommand::Sub,
        VMCommand::Halt,
    ];
    let card_types = vec![type1(), type2()];
    let mut board = initial_board();
    let args = vec![];
    let mut vm = VM::init_vm(
        InstructionRom::from_raw_parts(&instructions),
        CardTypesRom::from_raw_parts(&card_types),
        &mut board,
        &args,
        0,
        0,
    );
    assert_eq!(vm.execute(2), Ok(SingleExecutionResult::Unfinished));
    match vm.stop_execution() {
        ExecutionResult::Unfinished(log, sealed) => {
            assert!(log.is_empty());
            let mut board2 = initial_board();
            let mut vm2 = VM::resume_execution(
                InstructionRom::from_raw_parts(&instructions),
                CardTypesRom::from_raw_parts(&card_types),
                &mut board2,
                sealed,
            );
            assert_eq!(vm2.execute(10), Ok(SingleExecutionResult::Finished));
            let memory = VM::release_memory(vm2);
            assert_eq!(memory, Memory::from_raw_parts(vec![n(0), n(0), n(-2)], 0, 0, 3, 0, 0));
        },
        _ => panic!("expected an unfinished run"),
    }
}

#[test]
fn verification_board_refuses_regions_of_other_players() {
    let mut board = VerificationBoard::from_raw_parts(
        vec![OwnedMemoryRegion::new(0), OwnedMemoryRegion::new(7), OwnedMemoryRegion::new(3)],
        0,
        3,
        vec![],
    );
    assert_eq!(board.region_count(), 3);
    assert!(board.memory_region(0).is_ok());
    assert_eq!(board.memory_region(1).unwrap_err(), BoardError::AccessViolation { player_id: 3, region_index: 1 });
    assert!(board.memory_region(2).is_ok());
    assert_eq!(board.memory_region(3).unwrap_err(), BoardError::NoSuchRegion { index: 3 });
    board.push_player(7);
    assert_eq!(board.owner(), 7);
    assert!(board.memory_region(1).is_ok());
    assert_eq!(board.memory_region(2).unwrap_err(), BoardError::AccessViolation { player_id: 7, region_index: 2 });
    board.set_player(3);
    assert_eq!(board.owner(), 3);
}

#[test]
fn card_ids_are_handed_out_in_order() {
    let mut board = VerificationBoard::new(1);
    assert_eq!(board.generate_card_id(), 0);
    assert_eq!(board.generate_card_id(), 1);
    let mut player_board = PlayerBoard::new(1);
    assert_eq!(player_board.generate_card_id(), 0);
    assert_eq!(player_board.generate_card_id(), 1);
}

#[test]
fn player_board_refuses_missing_regions() {
    let mut board = PlayerBoard::from_raw_parts(vec![Some(MemoryRegion::new()), None], 0, 4);
    assert_eq!(board.owner(), 4);
    assert!(board.memory_region(0).is_ok());
    assert_eq!(board.memory_region(1).unwrap_err(), BoardError::AccessViolation { player_id: 4, region_index: 1 });
    assert_eq!(board.memory_region(2).unwrap_err(), BoardError::NoSuchRegion { index: 2 });
}

#[test]
fn card_type_keeps_at_most_sixteen_attributes() {
    let attrs: Vec<Word> = (0..20).map(n).collect();
    let card_type = CardType::from_raw_parts(9, attrs.clone(), attrs, vec![]);
    let card = card_type.instantiate_card(3);
    assert_eq!(card.attrs.len(), 16);
    assert_eq!(card.attr(15), n(15));
    assert_eq!(card_type.attr_by_index(0), n(0));
}

#[test]
fn card_of_an_unknown_type_has_no_type_attributes() {
    let mut board = VerificationBoard::from_raw_parts(
        vec![OwnedMemoryRegion::with_data(0, vec![solcery_vm::card::Card::from_raw_parts(1, 99, vec![])], vec![])],
        2,
        1,
        vec![],
    );
    let instructions = vec![
        VMCommand::PushConstant(Word::Numeric(0)),
        VMCommand::LoadCardTypeAttrByCardIndex { region_index: 0, attr_index: 0 },
        VMCommand::Halt,
    ];
    let card_types = vec![type1(), type2()];
    let args = vec![];
    let mut vm = VM::init_vm(
        InstructionRom::from_raw_parts(&instructions),
        CardTypesRom::from_raw_parts(&card_types),
        &mut board,
        &args,
        0,
        0,
    );
    let err = vm.execute(10).unwrap_err();
    assert_eq!(err.instruction, 1);
    assert_eq!(
        err.source,
        solcery_vm::vm::error::ErrorSource::MemoryError { source: solcery_vm::vm::memory::Error::NoSuchType }
    );
}

#[test]
fn card_types_table_refuses_missing_types() {
    let card_types = vec![type1(), type2()];
    let rom = CardTypesRom::from_raw_parts(&card_types);
    assert_eq!(rom.card_type_count(), 2);
    assert_eq!(rom.card_type_by_type_id(2).map(|t| t.id()), Some(2));
    assert!(rom.card_type_by_type_id(3).is_none());
    assert_eq!(rom.instance_card_by_type_id(2, 8).map(|c| (c.id(), c.card_type())), Ok((8, 2)));
    assert_eq!(
        rom.instance_card_by_type_id(5, 8).map(|c| c.id()),
        Err(solcery_vm::rom::Error::NoSuchTypeId(5))
    );
    assert_eq!(rom.instance_card_by_type_index(0, 4).map(|c| c.card_type()), Ok(1));
    assert_eq!(
        rom.instance_card_by_type_index(2, 4).map(|c| c.id()),
        Err(solcery_vm::rom::Error::TypeIndexOutOfBounds { index: 2, len: 2 })
    );
}

#[test]
fn cards_start_empty_and_keep_their_attributes() {
    let card = solcery_vm::card::Card::default();
    assert_eq!((card.id(), card.card_type(), card.attrs.len()), (0, 0, 0));
    let card_type = CardType::default();
    assert_eq!(card_type.id(), 0);
    let mut card = type2().instantiate_card(6);
    assert_eq!((card.id(), card.card_type()), (6, 2));
    assert_eq!(card.attr(1), n(4));
    card.set_attr(1, b(true));
    assert_eq!(card.attr(1), b(true));
    assert_eq!(card.attr(0), n(6));
    assert_eq!(type2().action_entry_point(0), EntryPoint::from_raw_parts(4, 0));
    assert_eq!(EntryPoint::default(), EntryPoint::from_raw_parts(0, 0));
    let region = MemoryRegion::new();
    assert!(region.cards.is_empty() && region.attrs.is_empty());
}
