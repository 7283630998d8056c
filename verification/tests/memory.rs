use solcery_vm::vm::memory::{Error, Memory};
use solcery_vm::word::Word;

fn n(v: i32) -> Word {
    Word::Numeric(v)
}

fn b(v: bool) -> Word {
    Word::Boolean(v)
}

fn flat(stack: Vec<Word>) -> Memory {
    Memory::from_raw_parts(stack, 0, 0, 0, 0, 0)
}

fn check_ok(stack: Vec<Word>, op: fn(&mut Memory) -> Result<(), Error>, expected: Vec<Word>) {
    let mut mem = flat(stack);
    op(&mut mem).unwrap();
    assert_eq!(mem, Memory::from_raw_parts(expected, 0, 0, 1, 0, 0));
}

fn check_err(stack: Vec<Word>, op: fn(&mut Memory) -> Result<(), Error>, expected: Error) {
    let mut mem = flat(stack);
    assert_eq!(op(&mut mem).unwrap_err(), expected);
}

#[test]
fn tests_push_external_data() {
    let mut mem = Memory::from_raw_parts(vec![], 0, 0, 0, 0, 0);
    mem.push_external(Word::Numeric(0)).unwrap();

    let mem_expected = Memory::from_raw_parts(vec![n(0)], 0, 0, 1, 0, 0);

    assert_eq!(mem, mem_expected);
}

#[test]
fn tests_pop_external_data() {
    let mut mem = Memory::from_raw_parts(vec![n(2), n(6)], 0, 0, 0, 0, 0);

    assert_eq!(mem.pop_external(), Ok(Word::Numeric(6)));
    assert_eq!(mem.pop_external(), Ok(Word::Numeric(2)));
    assert_eq!(mem.pop_external(), Err(Error::NotEnoughValues));

    let mem_expected = Memory::from_raw_parts(vec![], 0, 0, 2, 0, 0);

    assert_eq!(mem, mem_expected);
}

#[test]
fn tests_pop_external_no_inc() {
    let mut mem = Memory::from_raw_parts(vec![n(2), n(6)], 0, 0, 0, 0, 0);

    assert_eq!(mem.pop_external_no_pc_inc(), Ok(Word::Numeric(6)));
    assert_eq!(mem.pop_external_no_pc_inc(), Ok(Word::Numeric(2)));
    assert_eq!(mem.pop_external_no_pc_inc(), Err(Error::NotEnoughValues));

    let mem_expected = Memory::from_raw_parts(vec![], 0, 0, 0, 0, 0);

    assert_eq!(mem, mem_expected);
}

#[test]
fn tests_push_local_data() {
    let mut mem = Memory::from_raw_parts(vec![n(2), n(6), n(8)], 1, 0, 0, 0, 2);

    mem.push_local(0).unwrap();
    mem.push_local(1).unwrap();

    let mem_expected = Memory::from_raw_parts(vec![n(2), n(6), n(8), n(6), n(8)], 1, 0, 2, 0, 2);

    assert_eq!(mem, mem_expected);
}

#[test]
fn tests_pop_local_data() {
    let mut mem = Memory::from_raw_parts(vec![n(2), n(6), n(8), n(16)], 0, 0, 0, 0, 2);

    mem.pop_local(0).unwrap();
    mem.pop_local(1).unwrap();

    let mem_expected = Memory::from_raw_parts(vec![n(16), n(8)], 0, 0, 2, 0, 2);

    assert_eq!(mem, mem_expected);
}

#[test]
fn tests_push_argument_data() {
    let mut mem = Memory::from_raw_parts(vec![n(2), n(6), n(8)], 0, 0, 0, 3, 0);

    mem.push_argument(1).unwrap();
    mem.push_argument(2).unwrap();

    let mem_expected = Memory::from_raw_parts(vec![n(2), n(6), n(8), n(6), n(8)], 0, 0, 2, 3, 0);

    assert_eq!(mem, mem_expected);
}

#[test]
fn tests_pop_argument_data() {
    let mut mem = Memory::from_raw_parts(vec![n(2), n(6), n(8), n(16)], 0, 0, 0, 2, 0);

    mem.pop_argument(0).unwrap();
    mem.pop_argument(1).unwrap();

    let mem_expected = Memory::from_raw_parts(vec![n(16), n(8)], 0, 0, 2, 2, 0);

    assert_eq!(mem, mem_expected);
}

#[test]
fn tests_call() {
    let mut mem = Memory::from_raw_parts(vec![n(2), b(true)], 0, 1, 4, 0, 0);

    mem.call(16, 2).unwrap();

    let mem_expected =
        Memory::from_raw_parts(vec![n(2), b(true), n(5), n(0), n(1), n(0), n(0)], 7, 0, 16, 2, 0);

    assert_eq!(mem, mem_expected);
}

#[test]
fn tests_call_no_args() {
    let mut mem = Memory::from_raw_parts(vec![], 0, 0, 4, 0, 0);

    mem.call(16, 0).unwrap();

    let mem_expected = Memory::from_raw_parts(vec![n(5), n(0), n(0), n(0), n(0)], 5, 0, 16, 0, 0);

    assert_eq!(mem, mem_expected);
}

#[test]
fn tests_fn_return() {
    let mut mem = Memory::from_raw_parts(
        vec![
            // locals of the previous stack frame
            n(1),
            n(1),
            n(1),
            // arguments
            n(2),
            b(true),
            // return address, then the saved lcl, arg, n_args and n_locals
            n(5),
            n(0),
            n(0),
            n(0),
            n(3),
            // locals
            n(3),
            n(4),
            n(5),
            n(6),
            // return value of the function
            b(false),
        ],
        10,
        3,
        16,
        2,
        4,
    );

    mem.fn_return().unwrap();

    let mem_expected = Memory::from_raw_parts(vec![n(1), n(1), n(1), b(false)], 0, 0, 5, 0, 3);

    assert_eq!(mem, mem_expected);
}

#[test]
fn tests_function() {
    let mut mem = Memory::from_raw_parts(vec![n(2), b(true)], 2, 0, 16, 0, 0);

    mem.function(3).unwrap();

    let mem_expected = Memory::from_raw_parts(vec![n(2), b(true), n(0), n(0), n(0)], 2, 0, 17, 0, 3);

    assert_eq!(mem, mem_expected);
}

#[test]
fn tests_conditional_jump_successful() {
    let mut mem = Memory::from_raw_parts(vec![b(true)], 0, 0, 0, 0, 0);

    mem.ifjmp(10).unwrap();

    let mem_expected = Memory::from_raw_parts(vec![], 0, 0, 10, 0, 0);

    assert_eq!(mem, mem_expected);
}

#[test]
fn tests_conditional_jump_unsuccessful() {
    let mut mem = Memory::from_raw_parts(vec![b(false)], 0, 0, 0, 0, 0);

    mem.ifjmp(10).unwrap();

    let mem_expected = Memory::from_raw_parts(vec![], 0, 0, 1, 0, 0);

    assert_eq!(mem, mem_expected);
}

#[test]
fn tests_type_mismatch() {
    let mut mem = Memory::from_raw_parts(vec![n(1)], 0, 0, 0, 0, 0);
    assert_eq!(mem.ifjmp(10), Err(Error::TypeMismatch));
}

#[test]
fn tests_empty_stack() {
    let mut mem = Memory::from_raw_parts(Vec::<Word>::new(), 0, 0, 0, 0, 0);
    assert_eq!(mem.ifjmp(10), Err(Error::NotEnoughValues));
}

#[test]
fn memory_push_external_data() {
    let mut mem = Memory::from_raw_parts(vec![], 0, 0, 0, 0, 0);
    mem.push_external(Word::Numeric(0)).unwrap();

    let mem_expected = Memory::from_raw_parts(vec![n(0)], 0, 0, 1, 0, 0);

    assert_eq!(mem, mem_expected);
}

#[test]
fn memory_pop_external_data() {
    let mut mem = Memory::from_raw_parts(vec![n(2), n(6)], 0, 0, 0, 0, 0);

    assert_eq!(mem.pop_external(), Ok(Word::Numeric(6)));
    assert_eq!(mem.pop_external(), Ok(Word::Numeric(2)));
    assert_eq!(mem.pop_external(), Err(Error::NotEnoughValues));

    let mem_expected = Memory::from_raw_parts(vec![], 0, 0, 2, 0, 0);

    assert_eq!(mem, mem_expected);
}

#[test]
fn memory_pop_external_no_inc() {
    let mut mem = Memory::from_raw_parts(vec![n(2), n(6)], 0, 0, 0, 0, 0);

    assert_eq!(mem.pop_external_no_pc_inc(), Ok(Word::Numeric(6)));
    assert_eq!(mem.pop_external_no_pc_inc(), Ok(Word::Numeric(2)));
    assert_eq!(mem.pop_external_no_pc_inc(), Err(Error::NotEnoughValues));

    let mem_expected = Memory::from_raw_parts(vec![], 0, 0, 0, 0, 0);

    assert_eq!(mem, mem_expected);
}

#[test]
fn memory_push_local_data() {
    let mut mem = Memory::from_raw_parts(vec![n(2), n(6), n(8)], 1, 0, 0, 0, 2);

    mem.push_local(0).unwrap();
    mem.push_local(1).unwrap();

    let mem_expected = Memory::from_raw_parts(vec![n(2), n(6), n(8), n(6), n(8)], 1, 0, 2, 0, 2);

    assert_eq!(mem, mem_expected);
}

#[test]
fn memory_pop_local_data() {
    let mut mem = Memory::from_raw_parts(vec![n(2), n(6), n(8), n(16)], 0, 0, 0, 0, 2);

    mem.pop_local(0).unwrap();
    mem.pop_local(1).unwrap();

    let mem_expected = Memory::from_raw_parts(vec![n(16), n(8)], 0, 0, 2, 0, 2);

    assert_eq!(mem, mem_expected);
}

#[test]
fn memory_push_argument_data() {
    let mut mem = Memory::from_raw_parts(vec![n(2), n(6), n(8)], 0, 0, 0, 3, 0);

    mem.push_argument(1).unwrap();
    mem.push_argument(2).unwrap();

    let mem_expected = Memory::from_raw_parts(vec![n(2), n(6), n(8), n(6), n(8)], 0, 0, 2, 3, 0);

    assert_eq!(mem, mem_expected);
}

#[test]
fn memory_pop_argument_data() {
    let mut mem = Memory::from_raw_parts(vec![n(2), n(6), n(8), n(16)], 0, 0, 0, 2, 0);

    mem.pop_argument(0).unwrap();
    mem.pop_argument(1).unwrap();

    let mem_expected = Memory::from_raw_parts(vec![n(16), n(8)], 0, 0, 2, 2, 0);

    assert_eq!(mem, mem_expected);
}

#[test]
fn memory_call() {
    let mut mem = Memory::from_raw_parts(vec![n(2), b(true)], 0, 1, 4, 0, 0);

    mem.call(16, 2).unwrap();

    let mem_expected =
        Memory::from_raw_parts(vec![n(2), b(true), n(5), n(0), n(1), n(0), n(0)], 7, 0, 16, 2, 0);

    assert_eq!(mem, mem_expected);
}

#[test]
fn memory_call_no_args() {
    let mut mem = Memory::from_raw_parts(vec![], 0, 0, 4, 0, 0);

    mem.call(16, 0).unwrap();

    let mem_expected = Memory::from_raw_parts(vec![n(5), n(0), n(0), n(0), n(0)], 5, 0, 16, 0, 0);

    assert_eq!(mem, mem_expected);
}

#[test]
fn memory_fn_return() {
    let mut mem = Memory::from_raw_parts(
        vec![
            // locals of the previous stack frame
            n(1),
            n(1),
            n(1),
            // arguments
            n(2),
            b(true),
            // return address, then the saved lcl, arg, n_args and n_locals
            n(5),
            n(0),
            n(0),
            n(0),
            n(3),
            // locals
            n(3),
            n(4),
            n(5),
            n(6),
            // return value of the function
            b(false),
        ],
        10,
        3,
        16,
        2,
        4,
    );

    mem.fn_return().unwrap();

    let mem_expected = Memory::from_raw_parts(vec![n(1), n(1), n(1), b(false)], 0, 0, 5, 0, 3);

    assert_eq!(mem, mem_expected);
}

#[test]
fn memory_function() {
    let mut mem = Memory::from_raw_parts(vec![n(2), b(true)], 2, 0, 16, 0, 0);

    mem.function(3).unwrap();

    let mem_expected = Memory::from_raw_parts(vec![n(2), b(true), n(0), n(0), n(0)], 2, 0, 17, 0, 3);

    assert_eq!(mem, mem_expected);
}

#[test]
fn memory_conditional_jump_successful() {
    let mut mem = Memory::from_raw_parts(vec![b(true)], 0, 0, 0, 0, 0);

    mem.ifjmp(10).unwrap();

    let mem_expected = Memory::from_raw_parts(vec![], 0, 0, 10, 0, 0);

    assert_eq!(mem, mem_expected);
}

#[test]
fn memory_conditional_jump_unsuccessful() {
    let mut mem = Memory::from_raw_parts(vec![b(false)], 0, 0, 0, 0, 0);

    mem.ifjmp(10).unwrap();

    let mem_expected = Memory::from_raw_parts(vec![], 0, 0, 1, 0, 0);

    assert_eq!(mem, mem_expected);
}

#[test]
fn memory_type_mismatch() {
    let mut mem = Memory::from_raw_parts(vec![n(1)], 0, 0, 0, 0, 0);
    assert_eq!(mem.ifjmp(10), Err(Error::TypeMismatch));
}

#[test]
fn memory_empty_stack() {
    let mut mem = Memory::from_raw_parts(Vec::<Word>::new(), 0, 0, 0, 0, 0);
    assert_eq!(mem.ifjmp(10), Err(Error::NotEnoughValues));
}

#[test]
fn add_numbers() {
    check_ok(vec![n(1), n(2)], Memory::add, vec![n(3)]);
}

#[test]
fn sub_numbers() {
    check_ok(vec![n(1), n(2)], Memory::sub, vec![n(1)]);
}

#[test]
fn mul_numbers() {
    check_ok(vec![n(4), n(2)], Memory::mul, vec![n(8)]);
}

#[test]
fn div_no_remainder() {
    check_ok(vec![n(2), n(6)], Memory::div, vec![n(3)]);
}

#[test]
fn div_remainder() {
    check_ok(vec![n(2), n(7)], Memory::div, vec![n(3)]);
}

#[test]
fn rem_zero() {
    check_ok(vec![n(2), n(6)], Memory::rem, vec![n(0)]);
}

#[test]
fn rem_nonzero() {
    check_ok(vec![n(3), n(7)], Memory::rem, vec![n(1)]);
}

#[test]
fn neg_top() {
    check_ok(vec![n(1), n(2)], Memory::neg, vec![n(1), n(-2)]);
}

#[test]
fn inc_top() {
    check_ok(vec![n(1)], Memory::inc, vec![n(2)]);
}

#[test]
fn dec_top() {
    check_ok(vec![n(1)], Memory::dec, vec![n(0)]);
}

#[test]
fn abs_positive() {
    check_ok(vec![n(1)], Memory::abs, vec![n(1)]);
}

#[test]
fn abs_negative() {
    check_ok(vec![n(-1)], Memory::abs, vec![n(1)]);
}

#[test]
fn not_eq() {
    check_ok(vec![n(5), n(4)], Memory::equal, vec![b(false)]);
}

#[test]
fn equal_numbers() {
    check_ok(vec![n(4), n(4)], Memory::equal, vec![b(true)]);
}

#[test]
fn gt_equal() {
    check_ok(vec![n(4), n(4)], Memory::gt, vec![b(false)]);
}

#[test]
fn gt_smaller() {
    check_ok(vec![n(5), n(4)], Memory::gt, vec![b(false)]);
}

#[test]
fn gt_bigger() {
    check_ok(vec![n(4), n(5)], Memory::gt, vec![b(true)]);
}

#[test]
fn lt_equal() {
    check_ok(vec![n(4), n(4)], Memory::lt, vec![b(false)]);
}

#[test]
fn lt_smaller() {
    check_ok(vec![n(5), n(4)], Memory::lt, vec![b(true)]);
}

#[test]
fn lt_bigger() {
    check_ok(vec![n(4), n(5)], Memory::lt, vec![b(false)]);
}

#[test]
fn and_true_true() {
    check_ok(vec![b(true), b(true)], Memory::and, vec![b(true)]);
}

#[test]
fn and_false_true() {
    check_ok(vec![b(false), b(true)], Memory::and, vec![b(false)]);
}

#[test]
fn and_false_false() {
    check_ok(vec![b(false), b(false)], Memory::and, vec![b(false)]);
}

#[test]
fn or_true_true() {
    check_ok(vec![b(true), b(true)], Memory::or, vec![b(true)]);
}

#[test]
fn or_false_true() {
    check_ok(vec![b(false), b(true)], Memory::or, vec![b(true)]);
}

#[test]
fn or_false_false() {
    check_ok(vec![b(false), b(false)], Memory::or, vec![b(false)]);
}

#[test]
fn not_true() {
    check_ok(vec![b(true)], Memory::not, vec![b(false)]);
}

#[test]
fn not_false() {
    check_ok(vec![b(false)], Memory::not, vec![b(true)]);
}

#[test]
fn div_rounds_toward_zero() {
    check_ok(vec![n(2), n(-7)], Memory::div, vec![n(-3)]);
}

#[test]
fn rem_takes_sign_of_dividend() {
    check_ok(vec![n(2), n(-7)], Memory::rem, vec![n(-1)]);
}

#[test]
fn add_type_mismatch() {
    check_err(vec![n(1), b(true)], Memory::add, Error::TypeMismatch);
}

#[test]
fn sub_type_mismatch() {
    check_err(vec![n(1), b(true)], Memory::sub, Error::TypeMismatch);
}

#[test]
fn mul_type_mismatch() {
    check_err(vec![n(1), b(true)], Memory::mul, Error::TypeMismatch);
}

#[test]
fn div_type_mismatch() {
    check_err(vec![n(1), b(true)], Memory::div, Error::TypeMismatch);
}

#[test]
fn rem_type_mismatch() {
    check_err(vec![n(1), b(true)], Memory::rem, Error::TypeMismatch);
}

#[test]
fn neg_type_mismatch() {
    check_err(vec![n(1), b(true)], Memory::neg, Error::TypeMismatch);
}

#[test]
fn inc_type_mismatch() {
    check_err(vec![n(1), b(true)], Memory::inc, Error::TypeMismatch);
}

#[test]
fn dec_type_mismatch() {
    check_err(vec![n(1), b(true)], Memory::dec, Error::TypeMismatch);
}

#[test]
fn abs_type_mismatch() {
    check_err(vec![n(1), b(true)], Memory::abs, Error::TypeMismatch);
}

#[test]
fn equal_type_mismatch() {
    check_err(vec![n(1), b(true)], Memory::equal, Error::TypeMismatch);
}

#[test]
fn gt_type_mismatch() {
    check_err(vec![n(1), b(true)], Memory::gt, Error::TypeMismatch);
}

#[test]
fn lt_type_mismatch() {
    check_err(vec![n(1), b(true)], Memory::lt, Error::TypeMismatch);
}

#[test]
fn and_type_mismatch() {
    check_err(vec![n(1), b(true)], Memory::and, Error::TypeMismatch);
}

#[test]
fn or_type_mismatch() {
    check_err(vec![n(1), b(true)], Memory::or, Error::TypeMismatch);
}

#[test]
fn not_type_mismatch() {
    check_err(vec![n(1)], Memory::not, Error::TypeMismatch);
}

#[test]
fn add_not_enough_values() {
    check_err(vec![n(1)], Memory::add, Error::NotEnoughValues);
}

#[test]
fn sub_not_enough_values() {
    check_err(vec![n(1)], Memory::sub, Error::NotEnoughValues);
}

#[test]
fn mul_not_enough_values() {
    check_err(vec![n(1)], Memory::mul, Error::NotEnoughValues);
}

#[test]
fn div_not_enough_values() {
    check_err(vec![n(1)], Memory::div, Error::NotEnoughValues);
}

#[test]
fn rem_not_enough_values() {
    check_err(vec![n(1)], Memory::rem, Error::NotEnoughValues);
}

#[test]
fn neg_not_enough_values() {
    check_err(vec![], Memory::neg, Error::NotEnoughValues);
}

#[test]
fn inc_not_enough_values() {
    check_err(vec![], Memory::inc, Error::NotEnoughValues);
}

#[test]
fn dec_not_enough_values() {
    check_err(vec![], Memory::dec, Error::NotEnoughValues);
}

#[test]
fn abs_not_enough_values() {
    check_err(vec![], Memory::abs, Error::NotEnoughValues);
}

#[test]
fn equal_not_enough_values() {
    check_err(vec![n(1)], Memory::equal, Error::NotEnoughValues);
}

#[test]
fn gt_not_enough_values() {
    check_err(vec![n(1)], Memory::gt, Error::NotEnoughValues);
}

#[test]
fn lt_not_enough_values() {
    check_err(vec![n(1)], Memory::lt, Error::NotEnoughValues);
}

#[test]
fn and_not_enough_values() {
    check_err(vec![b(true)], Memory::and, Error::NotEnoughValues);
}

#[test]
fn or_not_enough_values() {
    check_err(vec![b(true)], Memory::or, Error::NotEnoughValues);
}

#[test]
fn not_not_enough_values() {
    check_err(vec![], Memory::not, Error::NotEnoughValues);
}

#[test]
fn init_memory_puts_the_indices_after_the_arguments() {
    let mem = Memory::init_memory(&[n(5), b(true)], 3, 4);
    assert_eq!(mem, Memory::from_raw_parts(vec![n(5), b(true), n(3), n(4)], 0, 0, 0, 0, 0));
    assert_eq!(mem.pc(), 0);
}

#[test]
fn jmp_moves_the_program_counter() {
    let mut mem = flat(vec![n(1)]);
    assert_eq!(mem.jmp(12), Ok(()));
    assert_eq!(mem, Memory::from_raw_parts(vec![n(1)], 0, 0, 12, 0, 0));
}

#[test]
fn variables_out_of_the_frame_are_refused() {
    let mut mem = Memory::from_raw_parts(vec![n(2), n(6), n(8)], 0, 0, 0, 1, 2);
    assert_eq!(mem.push_local(2), Err(Error::LocalVarOutOfBounds));
    assert_eq!(mem.pop_local(5), Err(Error::LocalVarOutOfBounds));
    assert_eq!(mem.push_argument(1), Err(Error::ArgumentOutOfBounds));
    assert_eq!(mem.pop_argument(1), Err(Error::ArgumentOutOfBounds));
    assert_eq!(mem, Memory::from_raw_parts(vec![n(2), n(6), n(8)], 0, 0, 0, 1, 2));
}

#[test]
fn return_with_a_negative_saved_register_is_refused() {
    let mut mem = Memory::from_raw_parts(vec![n(-1), n(0), n(0), n(0), n(0), n(7)], 5, 0, 3, 0, 0);
    assert_eq!(mem.fn_return(), Err(Error::NegativeUnsignedValue));
    assert_eq!(mem, Memory::from_raw_parts(vec![n(-1), n(0), n(0), n(0), n(0), n(7)], 5, 0, 3, 0, 0));
}

#[test]
fn return_with_a_boolean_saved_register_is_refused() {
    let mut mem = Memory::from_raw_parts(vec![n(1), b(true), n(0), n(0), n(0)], 5, 0, 3, 0, 0);
    assert_eq!(mem.return_void(), Err(Error::TypeMismatch));
}

#[test]
fn return_void_restores_the_caller() {
    let mut mem = Memory::from_raw_parts(vec![n(9), n(4), n(5), n(0), n(0), n(1), n(0), n(33)], 7, 1, 20, 1, 1);
    assert_eq!(mem.return_void(), Ok(()));
    assert_eq!(mem, Memory::from_raw_parts(vec![n(9)], 0, 0, 5, 1, 0));
}

#[test]
fn args_are_the_arguments_of_the_frame() {
    let mem = Memory::from_raw_parts(vec![n(1), n(2), b(false), n(9), n(0), n(0), n(0), n(0)], 8, 1, 0, 2, 0);
    assert_eq!(mem.args(), vec![n(2), b(false)]);
}

#[test]
fn args_after_call_are_the_words_below_the_frame() {
    let mut mem = Memory::from_raw_parts(vec![n(7), n(8), b(false), n(9)], 0, 0, 3, 0, 0);
    mem.call(20, 3).unwrap();
    assert_eq!(mem.args(), vec![n(8), b(false), n(9)]);

    let mut mem = Memory::from_raw_parts(vec![n(7)], 0, 0, 3, 0, 0);
    mem.call(20, 0).unwrap();
    assert_eq!(mem.args(), vec![]);
}
