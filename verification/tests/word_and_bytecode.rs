use std::convert::TryFrom;

use solcery_vm::game_vm::VM as GameVm;
use solcery_vm::on_chain_types::game_state::GameState;
use solcery_vm::on_chain_types::instruction_rom::InstructionRom as GameInstructionRom;
use solcery_vm::on_chain_types::object_type::ObjectTypesRom;
use solcery_vm::on_chain_types::vmcommand::VMCommand as GameCommand;
use solcery_vm::vm::enums::SingleExecutionResult;
use solcery_vm::vm::memory::Memory;
use solcery_vm::vmcommand::{CommandByteCode, VMCommand};
use solcery_vm::word::{ConversionError, Word};

fn n(v: i32) -> Word {
    Word::Numeric(v)
}

fn b(v: bool) -> Word {
    Word::Boolean(v)
}

#[test]
fn words_convert_to_their_own_kind_only() {
    assert_eq!(i32::try_from(n(-4)), Ok(-4));
    assert_eq!(i32::try_from(b(true)), Err(ConversionError::WasBoolean));
    assert_eq!(bool::try_from(b(false)), Ok(false));
    assert_eq!(bool::try_from(n(1)), Err(ConversionError::WasNumeric));
    assert_eq!(usize::try_from(n(7)), Ok(7usize));
    assert_eq!(usize::try_from(n(-1)), Err(ConversionError::NegativeNumeric));
    assert_eq!(usize::try_from(b(true)), Err(ConversionError::WasBoolean));
    assert_eq!(u32::try_from(n(i32::MAX)), Ok(i32::MAX as u32));
    assert_eq!(u32::try_from(n(-3)), Err(ConversionError::NegativeNumeric));
    assert_eq!(Word::from(5), n(5));
    assert_eq!(Word::from(true), b(true));
    assert_eq!(Word::default(), n(0));
    assert_eq!(n(12).unwrap_numeric(), 12);
}

#[test]
fn board_bytecode_round_trips() {
    let commands = [
        VMCommand::Halt,
        VMCommand::PushConstant(n(-123456)),
        VMCommand::PushConstant(b(false)),
        VMCommand::LoadRegionAttr { region_index: 300, attr_index: 2 },
        VMCommand::Call { address: 0xff_ffff, n_args: 255 },
        VMCommand::PushCardCount { region_index: 70000 },
        VMCommand::RemoveCardById,
    ];
    for command in commands {
        let bytes = CommandByteCode::from(command);
        assert_eq!(VMCommand::try_from(bytes), Ok(command));
    }
    assert_eq!(CommandByteCode::from(VMCommand::Call { address: 0x01_0203, n_args: 4 }), [29, 3, 2, 1, 4]);
    assert_eq!(CommandByteCode::from(VMCommand::PushConstant(n(1))), [16, 1, 0, 0, 0]);
}

#[test]
fn illegal_board_bytecode_is_refused() {
    assert_eq!(VMCommand::try_from([200, 0, 0, 0, 0]), Err("Illegal instruction"));
    assert_eq!(VMCommand::try_from([17, 2, 0, 0, 0]), Err("PushConstant argument corrupted."));
    assert_eq!(VMCommand::default(), VMCommand::Halt);
}

#[test]
fn game_bytecode_round_trips() {
    let commands = [
        GameCommand::Halt,
        GameCommand::PushConstant(n(i32::MIN)),
        GameCommand::PushConstant(b(true)),
        GameCommand::LoadGameStateAttr { index: 9 },
        GameCommand::StoreObjectAttr { attr_index: 65536 },
        GameCommand::Call { address: 17, n_args: 2 },
        GameCommand::RemoveObjectById,
    ];
    for command in commands {
        let bytes = <[u8; 5]>::from(command);
        assert_eq!(GameCommand::try_from(bytes), Ok(command));
    }
}

#[test]
fn call_then_return_restores_the_caller() {
    let mut mem = Memory::from_raw_parts(vec![n(7), n(1), n(2)], 0, 0, 9, 0, 1);
    mem.call(20, 2).unwrap();
    mem.function(1).unwrap();
    mem.push_external(b(true)).unwrap();
    mem.fn_return().unwrap();
    assert_eq!(mem, Memory::from_raw_parts(vec![n(7), b(true)], 0, 0, 10, 0, 1));
}

#[test]
fn stored_local_is_loaded_back() {
    let mut mem = Memory::from_raw_parts(vec![n(0), n(0), n(42)], 0, 0, 0, 0, 2);
    mem.pop_local(1).unwrap();
    mem.push_local(1).unwrap();
    assert_eq!(mem, Memory::from_raw_parts(vec![n(0), n(42), n(42)], 0, 0, 2, 0, 2));
}

#[test]
fn stored_game_attribute_is_loaded_back() {
    let instructions = vec![
        GameCommand::PushConstant(n(8)),
        GameCommand::StoreGameStateAttr { index: 1 },
        GameCommand::LoadGameStateAttr { index: 1 },
        GameCommand::Halt,
    ];
    let object_types = vec![];
    let mut game_state = GameState::from_raw_parts(vec![], vec![n(0), n(0)], 0);
    let args = vec![];
    let mut vm = GameVm::init_vm(
        GameInstructionRom::from_raw_parts(&instructions),
        ObjectTypesRom::from_raw_parts(&object_types),
        &mut game_state,
        &args,
        0,
        0,
    );
    assert_eq!(vm.execute(10), Ok(SingleExecutionResult::Finished));
    let memory = GameVm::release_memory(vm);
    assert_eq!(memory, Memory::from_raw_parts(vec![n(0), n(0), n(8)], 0, 0, 3, 0, 0));
    assert_eq!(game_state, GameState::from_raw_parts(vec![], vec![n(0), n(8)], 0));
}
