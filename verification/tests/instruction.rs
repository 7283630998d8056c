use solcery_vm::board::verification_board::{OwnedMemoryRegion, VerificationBoard};
use solcery_vm::board::Board;
use solcery_vm::card::{CardType, EntryPoint};
use solcery_vm::error::VMError;
use solcery_vm::instruction::{fit_to_account, UnpackError, VMInstruction};
use solcery_vm::instruction_rom::{decode_program, Error as RomError, InstructionRom};
use solcery_vm::fight_log::LogEntry;
use solcery_vm::processor::{initial_cards, join_board_log, EntityType, PlacedCard};
use solcery_vm::rom::CardTypesRom;
use solcery_vm::ruleset::Ruleset;
use solcery_vm::vm::error::{Error as VmRunError, ErrorSource};
use solcery_vm::vm::memory::slice_u8_vec::InternalWord;
use solcery_vm::vm::memory::Error as MemoryError;
use solcery_vm::vmcommand::{CommandByteCode, VMCommand};
use solcery_vm::word::Word;

fn header(tag: u8, cardtype_index: u32, action_index: u32) -> Vec<u8> {
    let mut bytes = vec![tag];
    bytes.extend_from_slice(&cardtype_index.to_le_bytes());
    bytes.extend_from_slice(&action_index.to_le_bytes());
    bytes
}

#[test]
fn unpack_reads_indices_and_arguments() {
    let mut bytes = header(0, 3, 7);
    bytes.extend_from_slice(&2u32.to_le_bytes());
    bytes.push(0);
    bytes.extend_from_slice(&(-5i32).to_le_bytes());
    bytes.push(1);
    bytes.push(1);
    match VMInstruction::unpack(&bytes) {
        Ok(VMInstruction::ProcessAction { cardtype_index, action_index, args }) => {
            assert_eq!(cardtype_index, 3);
            assert_eq!(action_index, 7);
            assert_eq!(args, vec![Word::Numeric(-5), Word::Boolean(true)]);
        },
        other => panic!("unexpected {:?}", other.err()),
    }
}

#[test]
fn unpack_reads_no_arguments() {
    let mut bytes = header(0, 1, 2);
    bytes.extend_from_slice(&0u32.to_le_bytes());
    match VMInstruction::unpack(&bytes) {
        Ok(VMInstruction::ProcessAction { cardtype_index, action_index, args }) => {
            assert_eq!((cardtype_index, action_index), (1, 2));
            assert!(args.is_empty());
        },
        other => panic!("unexpected {:?}", other.err()),
    }
}

#[test]
fn unpack_refuses_empty_input() {
    assert!(matches!(VMInstruction::unpack(&[]), Err(UnpackError::Borsh(_))));
}

#[test]
fn unpack_refuses_unknown_tag() {
    let mut bytes = header(1, 0, 0);
    bytes.extend_from_slice(&0u32.to_le_bytes());
    assert!(matches!(VMInstruction::unpack(&bytes), Err(UnpackError::InvalidInstructionData)));
}

#[test]
fn unpack_refuses_short_data() {
    let bytes = vec![0, 1, 2, 3, 4, 5, 6, 7];
    assert!(matches!(VMInstruction::unpack(&bytes), Err(UnpackError::InvalidInstructionData)));
}

#[test]
fn unpack_refuses_missing_argument_count() {
    let bytes = header(0, 0, 0);
    assert!(matches!(VMInstruction::unpack(&bytes), Err(UnpackError::Borsh(_))));
}

#[test]
fn unpack_refuses_unknown_variant() {
    let mut bytes = header(0, 0, 0);
    bytes.extend_from_slice(&1u32.to_le_bytes());
    bytes.push(2);
    assert!(matches!(VMInstruction::unpack(&bytes), Err(UnpackError::UnexpectedVariant(2))));
}

#[test]
fn unpack_refuses_bad_boolean() {
    let mut bytes = header(0, 0, 0);
    bytes.extend_from_slice(&1u32.to_le_bytes());
    bytes.push(1);
    bytes.push(2);
    assert!(matches!(VMInstruction::unpack(&bytes), Err(UnpackError::Borsh(_))));
}

#[test]
fn unpack_refuses_truncated_number() {
    let mut bytes = header(0, 0, 0);
    bytes.extend_from_slice(&1u32.to_le_bytes());
    bytes.push(0);
    bytes.push(9);
    assert!(matches!(VMInstruction::unpack(&bytes), Err(UnpackError::Borsh(_))));
}

#[test]
fn unpack_refuses_missing_arguments() {
    let mut bytes = header(0, 0, 0);
    bytes.extend_from_slice(&3u32.to_le_bytes());
    bytes.push(1);
    bytes.push(0);
    assert!(matches!(VMInstruction::unpack(&bytes), Err(UnpackError::Borsh(_))));
}

#[test]
fn serialized_board_is_padded_to_its_account() {
    assert_eq!(fit_to_account(vec![1, 2, 3], 6), vec![1, 2, 3, 0, 0, 0]);
    assert_eq!(fit_to_account(vec![4], 1), vec![4]);
    assert_eq!(fit_to_account(vec![], 2), vec![0, 0]);
}

#[test]
fn error_codes_follow_the_variants() {
    assert_eq!(VMError::InstructionDataTooShort.code(), 0);
    assert_eq!(VMError::ComputationNotFinished.code(), 1);
}

#[test]
fn entity_types_and_names() {
    assert_eq!(EntityType::from_u8(1), EntityType::Card);
    assert_eq!(EntityType::from_u8(2), EntityType::Ruleset);
    assert_eq!(EntityType::from_u8(3), EntityType::Collection);
    assert_eq!(EntityType::from_u8(0), EntityType::Custom);
    assert_eq!(EntityType::from_u8(200), EntityType::Custom);
    assert_eq!(EntityType::Custom.get_name(), b"custom");
    assert_eq!(EntityType::Card.get_name(), b"card");
    assert_eq!(EntityType::Ruleset.get_name(), b"ruleset");
    assert_eq!(EntityType::Collection.get_name(), b"collection");
}

#[test]
fn words_survive_their_byte_layout() {
    for word in [Word::Boolean(false), Word::Boolean(true), Word::Numeric(0), Word::Numeric(1), Word::Numeric(i32::MIN), Word::Numeric(i32::MAX)] {
        let bytes = InternalWord::from(word);
        assert_eq!(Word::from_internal(bytes), word);
    }
    assert_eq!(InternalWord::from(Word::Boolean(true)), [0, 1, 0, 0, 0]);
    assert_eq!(InternalWord::from(Word::Numeric(-2)), [1, 0xfe, 0xff, 0xff, 0xff]);
}

#[test]
fn internal_bool_false() {
    assert_eq!(Word::from_internal([0, 0, 0, 0, 0]), Word::Boolean(false));
}

#[test]
fn internal_bool_true() {
    assert_eq!(Word::from_internal([0, 1, 0, 0, 0]), Word::Boolean(true));
}

#[test]
fn deck_is_dealt_in_order() {
    let ruleset = Ruleset {
        card_types: vec![[0u8; 32]],
        deck: vec![(0, vec![(5, 2), (6, 0), (7, 1)]), (3, vec![]), (1, vec![(5, 1)])],
        client_data: vec![],
    };
    let cards = initial_cards(&ruleset);
    assert_eq!(
        cards,
        vec![
            PlacedCard { id: 0, card_type: 5, place: 0 },
            PlacedCard { id: 1, card_type: 5, place: 0 },
            PlacedCard { id: 2, card_type: 7, place: 0 },
            PlacedCard { id: 3, card_type: 5, place: 1 },
        ]
    );
}

fn card_type() -> CardType {
    CardType::from_raw_parts(1, vec![Word::Numeric(1)], vec![Word::Numeric(0)], vec![EntryPoint::from_raw_parts(0, 0)])
}

#[test]
fn finished_action_is_processed() {
    let commands = vec![VMCommand::PushConstant(Word::Numeric(9)), VMCommand::StoreRegionAttr { region_index: 0, attr_index: 0 }, VMCommand::Halt];
    let types = vec![card_type()];
    let mut board = VerificationBoard::from_raw_parts(
        vec![OwnedMemoryRegion::with_data(0, vec![], vec![Word::Numeric(0)])],
        0,
        1,
        vec![],
    );
    let instruction = VMInstruction::ProcessAction { cardtype_index: 0, action_index: 0, args: vec![] };
    let r = instruction.process_on_board(
        InstructionRom::from_raw_parts(&commands),
        CardTypesRom::from_raw_parts(&types),
        &mut board,
    );
    assert_eq!(r, Ok(()));
    assert_eq!(board.regions[0].memory_region.attrs, vec![Word::Numeric(9)]);
}

#[test]
fn processing_keeps_owners_and_players() {
    let commands = vec![VMCommand::PushConstant(Word::Numeric(9)), VMCommand::StoreRegionAttr { region_index: 0, attr_index: 0 }, VMCommand::Halt];
    let types = vec![card_type()];
    let mut board = VerificationBoard::from_raw_parts(
        vec![
            OwnedMemoryRegion::with_data(0, vec![], vec![Word::Numeric(0)]),
            OwnedMemoryRegion::with_data(3, vec![], vec![Word::Numeric(5)]),
        ],
        0,
        1,
        vec![4, 2],
    );
    let instruction = VMInstruction::ProcessAction { cardtype_index: 0, action_index: 0, args: vec![] };
    let r = instruction.process_on_board(
        InstructionRom::from_raw_parts(&commands),
        CardTypesRom::from_raw_parts(&types),
        &mut board,
    );
    assert_eq!(r, Ok(()));
    let expected = VerificationBoard::from_raw_parts(
        vec![
            OwnedMemoryRegion::with_data(0, vec![], vec![Word::Numeric(9)]),
            OwnedMemoryRegion::with_data(3, vec![], vec![Word::Numeric(5)]),
        ],
        0,
        1,
        vec![4, 2],
    );
    assert_eq!(board, expected);
}

#[test]
fn failed_run_is_reported() {
    let commands = vec![VMCommand::PushConstant(Word::Boolean(true)), VMCommand::Add, VMCommand::Halt];
    let types = vec![card_type()];
    let mut board = VerificationBoard::new(1);
    let instruction = VMInstruction::ProcessAction { cardtype_index: 0, action_index: 0, args: vec![] };
    let r = instruction.try_process_on_board(
        InstructionRom::from_raw_parts(&commands),
        CardTypesRom::from_raw_parts(&types),
        &mut board,
    );
    assert_eq!(r, Err(VmRunError { instruction: 1, source: ErrorSource::MemoryError { source: MemoryError::TypeMismatch } }));
}

#[test]
fn checked_processing_reports_finished_and_unfinished_runs() {
    let types = vec![card_type()];
    let instruction = VMInstruction::ProcessAction { cardtype_index: 0, action_index: 0, args: vec![] };
    let finished = vec![VMCommand::Halt];
    let mut board = VerificationBoard::new(1);
    let r = instruction.try_process_on_board(
        InstructionRom::from_raw_parts(&finished),
        CardTypesRom::from_raw_parts(&types),
        &mut board,
    );
    assert_eq!(r, Ok(Ok(())));
    let endless = vec![VMCommand::Goto(0)];
    let r = instruction.try_process_on_board(
        InstructionRom::from_raw_parts(&endless),
        CardTypesRom::from_raw_parts(&types),
        &mut board,
    );
    assert_eq!(r, Ok(Err(VMError::ComputationNotFinished)));
}

#[test]
fn endless_action_is_not_finished() {
    let commands = vec![VMCommand::Goto(0)];
    let types = vec![card_type()];
    let mut board = VerificationBoard::new(1);
    let instruction = VMInstruction::ProcessAction { cardtype_index: 0, action_index: 0, args: vec![] };
    let r = instruction.process_on_board(
        InstructionRom::from_raw_parts(&commands),
        CardTypesRom::from_raw_parts(&types),
        &mut board,
    );
    assert_eq!(r, Err(VMError::ComputationNotFinished));
}

#[test]
fn iteration_skips_regions_of_other_players() {
    let mut board = VerificationBoard::from_raw_parts(
        vec![
            OwnedMemoryRegion::new(2),
            OwnedMemoryRegion::with_data(1, vec![], vec![Word::Numeric(1)]),
            OwnedMemoryRegion::new(5),
            OwnedMemoryRegion::with_data(0, vec![], vec![Word::Numeric(2)]),
        ],
        0,
        1,
        vec![],
    );
    let mut seen = vec![];
    {
        let mut iter = board.iter_mut();
        while let Some(region) = iter.next() {
            seen.push(region.attrs[0]);
            region.attrs[0] = Word::Boolean(true);
        }
        assert_eq!(iter.counter, 4);
        assert!(iter.next().is_none());
    }
    assert_eq!(seen, vec![Word::Numeric(1), Word::Numeric(2)]);
    assert_eq!(board.regions[1].memory_region.attrs, vec![Word::Boolean(true)]);
    assert_eq!(board.regions[3].memory_region.attrs, vec![Word::Boolean(true)]);
}

#[test]
fn iteration_changes_only_the_regions_it_hands_out() {
    let mut board = VerificationBoard::from_raw_parts(
        vec![
            OwnedMemoryRegion::with_data(1, vec![], vec![Word::Numeric(10)]),
            OwnedMemoryRegion::with_data(2, vec![], vec![Word::Numeric(20)]),
            OwnedMemoryRegion::with_data(1, vec![], vec![Word::Numeric(30)]),
        ],
        0,
        1,
        vec![],
    );
    let mut counters = vec![];
    {
        let mut iter = board.iter_mut();
        while let Some(region) = iter.next() {
            region.attrs[0] = Word::Numeric(0);
            counters.push(iter.counter);
        }
        assert!(iter.next().is_none());
    }
    assert_eq!(counters, vec![1, 3]);
    assert_eq!(board.regions[0].memory_region.attrs, vec![Word::Numeric(0)]);
    assert_eq!(board.regions[1].memory_region.attrs, vec![Word::Numeric(20)]);
    assert_eq!(board.regions[2].memory_region.attrs, vec![Word::Numeric(0)]);
}

#[test]
fn program_is_read_five_bytes_at_a_time() {
    let bytes = [1u8, 0, 0, 0, 0, 16, 0xfe, 0xff, 0xff, 0xff, 0, 0, 0, 0, 0];
    assert_eq!(
        decode_program(&bytes),
        Ok(vec![VMCommand::Add, VMCommand::PushConstant(Word::Numeric(-2)), VMCommand::Halt])
    );
    assert_eq!(decode_program(&[]), Ok(vec![]));
}

#[test]
fn program_of_partial_instruction_is_refused() {
    assert_eq!(decode_program(&[1, 0, 0, 0, 0, 1]), Err(RomError::WrongSize));
}

#[test]
fn program_with_unknown_opcode_is_refused() {
    assert_eq!(decode_program(&[1, 0, 0, 0, 0, 200, 0, 0, 0, 0]), Err(RomError::IllegalInstruction { index: 1 }));
}

#[test]
fn program_bytecode_round_trips() {
    let program = vec![
        VMCommand::PushConstant(Word::Boolean(true)),
        VMCommand::Call { address: 0x12_3456, n_args: 3 },
        VMCommand::LoadCardTypeAttrByCardIndex { region_index: 7, attr_index: 513 },
        VMCommand::Goto(u32::MAX),
        VMCommand::Halt,
    ];
    let mut bytes = vec![];
    for command in &program {
        bytes.extend_from_slice(&CommandByteCode::from(*command));
    }
    assert_eq!(decode_program(&bytes), Ok(program));
}

#[test]
fn board_parts_round_trip() {
    let board = VerificationBoard::from_raw_parts(vec![OwnedMemoryRegion::new(4)], 9, 2, vec![1, 3]);
    let (regions, card_index, player_id, owner_stack) = board.clone().into_raw_parts();
    assert_eq!(card_index, 9);
    assert_eq!(player_id, 2);
    assert_eq!(owner_stack, vec![1, 3]);
    assert_eq!(regions[0].owner(), 4);
    assert_eq!(VerificationBoard::from_raw_parts(regions, card_index, player_id, owner_stack), board);
}

#[test]
fn joining_logs_the_players_and_the_cards_in_place_zero() {
    let cards = [
        PlacedCard { id: 0, card_type: 5, place: 0 },
        PlacedCard { id: 1, card_type: 5, place: 2 },
        PlacedCard { id: 2, card_type: 7, place: 0 },
    ];
    assert_eq!(
        join_board_log(0, &cards),
        Some(vec![
            LogEntry { player_id: 1, action_type: 1, action_data: 2 },
            LogEntry { player_id: 2, action_type: 1, action_data: 2 },
            LogEntry { player_id: 1, action_type: 0, action_data: 0 },
            LogEntry { player_id: 1, action_type: 0, action_data: 2 },
        ])
    );
    assert_eq!(
        join_board_log(1, &[]),
        Some(vec![
            LogEntry { player_id: 2, action_type: 1, action_data: 2 },
            LogEntry { player_id: 3, action_type: 1, action_data: 2 },
        ])
    );
    assert_eq!(join_board_log(2, &cards), None);
}
