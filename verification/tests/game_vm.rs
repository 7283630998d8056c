use solcery_vm::card::EntryPoint;
use solcery_vm::game_vm::VM;
use solcery_vm::on_chain_types::game_state::GameState;
use solcery_vm::on_chain_types::instruction_rom::InstructionRom;
use solcery_vm::on_chain_types::object_type::{ObjectType, ObjectTypesRom};
use solcery_vm::on_chain_types::vmcommand::VMCommand;
use solcery_vm::vm::enums::SingleExecutionResult;
use solcery_vm::vm::memory::Memory;
use solcery_vm::word::Word;

fn n(v: i32) -> Word {
    Word::Numeric(v)
}

fn b(v: bool) -> Word {
    Word::Boolean(v)
}

fn type1() -> ObjectType {
    let type1_attrs = vec![n(10), n(5), b(true), b(false)];
    let type1_init_attrs = vec![n(5), n(5), b(false), b(false)];
    ObjectType::from_raw_parts(1, type1_attrs, type1_init_attrs, vec![EntryPoint::from_raw_parts(2, 0)])
}

fn type2() -> ObjectType {
    let type2_attrs = vec![n(20), n(5), b(true), b(true)];
    let type2_init_attrs = vec![n(6), n(4), b(false), b(false)];
    ObjectType::from_raw_parts(2, type2_attrs, type2_init_attrs, vec![EntryPoint::from_raw_parts(4, 0)])
}

fn testing_game_state() -> GameState {
    let type1 = type1();
    let type2 = type2();

    let game_state_attrs = vec![n(3), n(4), n(5), b(false), b(false), b(true)];

    let mut object1 = type1.instantiate_object(1);
    let mut object2 = type2.instantiate_object(2);

    object1.attrs[0] = Word::Numeric(4);
    object2.attrs[3] = Word::Boolean(true);

    let object3 = type1.instantiate_object(3);
    let object4 = type2.instantiate_object(4);

    GameState::from_raw_parts(vec![object1, object2, object3, object4], game_state_attrs, 5)
}

fn initial_game_state() -> GameState {
    let object1 = type1().instantiate_object(1);
    let game_state_attrs = vec![n(0), n(0), n(0), b(false), b(false), b(false)];
    GameState::from_raw_parts(vec![object1], game_state_attrs, 1)
}

#[test]
fn vm_init_empty_memory_vm() {
    let instructions = vec![VMCommand::PushConstant(Word::Numeric(2)), VMCommand::PushObjectType, VMCommand::Halt];
    let instructions = InstructionRom::from_raw_parts(&instructions);

    let object_types = vec![type1(), type2()];
    let object_types = ObjectTypesRom::from_raw_parts(&object_types);

    let mut game_state = testing_game_state();

    let args = vec![];
    let vm = VM::init_vm(instructions, object_types, &mut game_state, &args, 0, 0);
    let memory = VM::release_memory(vm);
    let needed_memory = Memory::from_raw_parts(vec![n(0), n(0)], 0, 0, 0, 0, 0);

    assert_eq!(memory, needed_memory);
}

#[test]
fn vm_push_type() {
    let instructions = vec![VMCommand::PushConstant(Word::Numeric(2)), VMCommand::PushObjectType, VMCommand::Halt];
    let instructions = InstructionRom::from_raw_parts(&instructions);

    let object_types = vec![type1(), type2()];
    let object_types = ObjectTypesRom::from_raw_parts(&object_types);

    let mut game_state = testing_game_state();

    let args = vec![];
    let mut vm = VM::init_vm(instructions, object_types, &mut game_state, &args, 0, 0);

    vm.execute(10).unwrap();
    assert!(vm.is_halted());

    let memory = VM::release_memory(vm);
    let needed_memory = Memory::from_raw_parts(vec![n(0), n(0), n(1)], 0, 0, 2, 0, 0);

    assert_eq!(memory, needed_memory);

    let game_state_needed = testing_game_state();

    assert_eq!(game_state, game_state_needed);
}

#[test]
fn push_object_count() {
    let instructions = vec![
        VMCommand::PushConstant(Word::Numeric(2)),
        VMCommand::PushObjectCountWithObjectType,
        VMCommand::Halt,
    ];
    let instructions = InstructionRom::from_raw_parts(&instructions);

    let object_types = vec![type1(), type2()];
    let object_types = ObjectTypesRom::from_raw_parts(&object_types);

    let mut game_state = testing_game_state();

    let args = vec![];
    let mut vm = VM::init_vm(instructions, object_types, &mut game_state, &args, 0, 0);

    vm.execute(10).unwrap();

    assert!(vm.is_halted());

    let memory = VM::release_memory(vm);
    let needed_memory = Memory::from_raw_parts(vec![n(0), n(0), n(2)], 0, 0, 2, 0, 0);

    assert_eq!(memory, needed_memory);

    let game_state_needed = testing_game_state();

    assert_eq!(game_state, game_state_needed);
}

#[test]
fn vm_push_type_attr_by_type_index() {
    let instructions = vec![
        VMCommand::PushConstant(Word::Numeric(1)),
        VMCommand::LoadObjectTypeAttrByTypeIndex { attr_index: 3 },
        VMCommand::Halt,
    ];
    let instructions = InstructionRom::from_raw_parts(&instructions);

    let object_types = vec![type1(), type2()];
    let object_types = ObjectTypesRom::from_raw_parts(&object_types);

    let mut game_state = testing_game_state();

    let args = vec![];
    let mut vm = VM::init_vm(instructions, object_types, &mut game_state, &args, 0, 0);

    vm.execute(10).unwrap();

    assert!(vm.is_halted());

    let memory = VM::release_memory(vm);
    let needed_memory = Memory::from_raw_parts(vec![n(0), n(0), b(true)], 0, 0, 2, 0, 0);

    assert_eq!(memory, needed_memory);

    let game_state_needed = testing_game_state();

    assert_eq!(game_state, game_state_needed);
}

#[test]
fn push_type_attr_by_object_index() {
    let instructions = vec![
        VMCommand::PushConstant(Word::Numeric(1)),
        VMCommand::LoadObjectTypeAttrByObjectIndex { attr_index: 3 },
        VMCommand::Halt,
    ];
    let instructions = InstructionRom::from_raw_parts(&instructions);

    let object_types = vec![type1(), type2()];
    let object_types = ObjectTypesRom::from_raw_parts(&object_types);

    let mut game_state = testing_game_state();

    let args = vec![];
    let mut vm = VM::init_vm(instructions, object_types, &mut game_state, &args, 0, 0);

    vm.execute(10).unwrap();

    assert!(vm.is_halted());

    let memory = VM::release_memory(vm);
    let needed_memory = Memory::from_raw_parts(vec![n(0), n(0), b(true)], 0, 0, 2, 0, 0);

    assert_eq!(memory, needed_memory);

    let game_state_needed = testing_game_state();

    assert_eq!(game_state, game_state_needed);
}

#[test]
fn vm_push_attr() {
    let instructions = vec![
        VMCommand::PushConstant(Word::Numeric(1)),
        VMCommand::LoadObjectAttr { attr_index: 3 },
        VMCommand::Halt,
    ];
    let instructions = InstructionRom::from_raw_parts(&instructions);

    let object_types = vec![type1(), type2()];
    let object_types = ObjectTypesRom::from_raw_parts(&object_types);

    let mut game_state = testing_game_state();

    let args = vec![];
    let mut vm = VM::init_vm(instructions, object_types, &mut game_state, &args, 0, 0);

    vm.execute(10).unwrap();

    assert!(vm.is_halted());

    let memory = VM::release_memory(vm);
    let needed_memory = Memory::from_raw_parts(vec![n(0), n(0), b(true)], 0, 0, 2, 0, 0);

    assert_eq!(memory, needed_memory);

    let game_state_needed = testing_game_state();

    assert_eq!(game_state, game_state_needed);
}

#[test]
fn vm_pop_attr() {
    let instructions = vec![
        VMCommand::PushConstant(Word::Numeric(42)),
        VMCommand::PushConstant(Word::Numeric(1)),
        VMCommand::StoreObjectAttr { attr_index: 3 },
        VMCommand::Halt,
    ];
    let instructions = InstructionRom::from_raw_parts(&instructions);

    let object_types = vec![type1(), type2()];
    let object_types = ObjectTypesRom::from_raw_parts(&object_types);

    let mut game_state = testing_game_state();

    let args = vec![];
    let mut vm = VM::init_vm(instructions, object_types, &mut game_state, &args, 0, 0);

    vm.execute(10).unwrap();

    assert!(vm.is_halted());

    let memory = VM::release_memory(vm);
    let needed_memory = Memory::from_raw_parts(vec![n(0), n(0)], 0, 0, 3, 0, 0);

    assert_eq!(memory, needed_memory);

    let mut game_state_needed = testing_game_state();
    game_state_needed.objects[1].attrs[3] = Word::Numeric(42);

    assert_eq!(game_state, game_state_needed);
}

#[test]
fn add_one_object_by_index() {
    let instructions = vec![
        VMCommand::PushConstant(Word::Numeric(1)),
        VMCommand::InstanceObjectByTypeIndex,
        VMCommand::Halt,
    ];
    let instructions = InstructionRom::from_raw_parts(&instructions);

    let object_types = vec![type1(), type2()];
    let object_types = ObjectTypesRom::from_raw_parts(&object_types);

    let mut game_state = initial_game_state();

    let args = vec![];
    let mut vm = VM::init_vm(instructions, object_types, &mut game_state, &args, 0, 0);

    vm.execute(10).unwrap();

    assert!(vm.is_halted());

    let memory = VM::release_memory(vm);
    let needed_memory = Memory::from_raw_parts(vec![n(0), n(0)], 0, 0, 2, 0, 0);

    assert_eq!(memory, needed_memory);

    let mut game_state_needed = initial_game_state();
    let _ = game_state_needed.generate_object_id();
    let added_object = type2().instantiate_object(1);
    game_state_needed.objects.push(added_object);

    assert_eq!(game_state, game_state_needed);
}

#[test]
fn add_one_object_by_id() {
    let instructions = vec![
        VMCommand::PushConstant(Word::Numeric(2)),
        VMCommand::InstanceObjectByTypeId,
        VMCommand::Halt,
    ];
    let instructions = InstructionRom::from_raw_parts(&instructions);

    let object_types = vec![type1(), type2()];
    let object_types = ObjectTypesRom::from_raw_parts(&object_types);

    let mut game_state = initial_game_state();

    let args = vec![];
    let mut vm = VM::init_vm(instructions, object_types, &mut game_state, &args, 0, 0);

    vm.execute(10).unwrap();

    assert!(vm.is_halted());

    let memory = VM::release_memory(vm);
    let needed_memory = Memory::from_raw_parts(vec![n(0), n(0)], 0, 0, 2, 0, 0);

    assert_eq!(memory, needed_memory);

    let mut game_state_needed = initial_game_state();
    let _ = game_state_needed.generate_object_id();
    let added_object = type2().instantiate_object(1);
    game_state_needed.objects.push(added_object);

    assert_eq!(game_state, game_state_needed);
}

#[test]
fn add_one_object() {
    let instructions = vec![
        VMCommand::CallObjectAction,
        VMCommand::Halt,
        VMCommand::Function { n_locals: 0 },
        VMCommand::PushConstant(Word::Numeric(2)),
        VMCommand::InstanceObjectByTypeId,
        VMCommand::PushConstant(Word::Numeric(5)),
        VMCommand::Return,
    ];
    let instructions = InstructionRom::from_raw_parts(&instructions);

    let object_types = vec![type1(), type2()];
    let object_types = ObjectTypesRom::from_raw_parts(&object_types);

    let mut game_state = initial_game_state();

    let args = vec![];
    let mut vm = VM::init_vm(instructions, object_types, &mut game_state, &args, 0, 0);

    vm.execute(10).unwrap();

    assert!(vm.is_halted());

    let memory = VM::release_memory(vm);
    let needed_memory = Memory::from_raw_parts(vec![n(5)], 0, 0, 1, 0, 0);

    assert_eq!(memory, needed_memory);

    let mut game_state_needed = initial_game_state();
    let object = type2().instantiate_object(game_state_needed.generate_object_id());
    game_state_needed.objects.push(object);

    assert_eq!(game_state, game_state_needed);
}

#[test]
fn remove_one_object() {
    let instructions = vec![
        VMCommand::PushConstant(Word::Numeric(0)),
        VMCommand::RemoveObjectByIndex,
        VMCommand::Halt,
    ];
    let instructions = InstructionRom::from_raw_parts(&instructions);

    let object_types = vec![type1(), type2()];
    let object_types = ObjectTypesRom::from_raw_parts(&object_types);

    let mut game_state = testing_game_state();

    let args = vec![];
    let mut vm = VM::init_vm(instructions, object_types, &mut game_state, &args, 0, 0);

    vm.execute(10).unwrap();

    assert!(vm.is_halted());

    let memory = VM::release_memory(vm);
    let needed_memory = Memory::from_raw_parts(vec![n(0), n(0)], 0, 0, 2, 0, 0);

    assert_eq!(memory, needed_memory);

    let mut game_state_needed = testing_game_state();
    game_state_needed.objects.remove(0);

    assert_eq!(game_state, game_state_needed);
}

#[test]
fn unfinished_run_resumes_where_it_stopped() {
    let instructions = vec![
        VMCommand::PushConstant(Word::Numeric(7)),
        VMCommand::PushConstant(Word::Numeric(5)),
        VMCommand::Sub,
        VMCommand::Halt,
    ];
    let object_types = vec![type1(), type2()];
    let mut game_state = initial_game_state();
    let args = vec![];
    let mut vm = VM::init_vm(
        InstructionRom::from_raw_parts(&instructions),
        ObjectTypesRom::from_raw_parts(&object_types),
        &mut game_state,
        &args,
        0,
        0,
    );
    assert_eq!(vm.execute(2), Ok(SingleExecutionResult::Unfinished));
    match vm.stop_execution() {
        solcery_vm::game_vm::enums::ExecutionResult::Unfinished(log, sealed) => {
            assert!(log.is_empty());
            let mut game_state2 = initial_game_state();
            let mut vm2 = VM::resume_execution(
                InstructionRom::from_raw_parts(&instructions),
                ObjectTypesRom::from_raw_parts(&object_types),
                &mut game_state2,
                sealed,
            );
            assert_eq!(vm2.execute(10), Ok(SingleExecutionResult::Finished));
            let memory = VM::release_memory(vm2);
            assert_eq!(memory, Memory::from_raw_parts(vec![n(0), n(0), n(-2)], 0, 0, 3, 0, 0));
        },
        _ => panic!("expected an unfinished run"),
    }
}
