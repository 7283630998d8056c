//! The VM's working memory: one stack of words that holds the caller frames,
//! the arguments and local variables of the running function and its
//! operands, plus the registers that describe the current frame.

pub mod slice_u8_vec;

use vstd::prelude::*;
use crate::word::{ConversionError, Word, spec_word_to_usize};

verus! {

/// What a [`Memory`] holds, as plain mathematical values.
pub struct MemoryView {
    pub stack: Seq<Word>,
    pub lcl: usize,
    pub arg: usize,
    pub pc: usize,
    pub n_args: usize,
    pub n_locals: usize,
}

/// The stack and the registers of the running function.
///
/// `lcl` is where the local variables of the current function start,
/// `arg` is where its arguments start, and everything above
/// `lcl + n_locals` is the operand stack of the current function.
#[derive(Debug, PartialEq, Eq)]
pub struct Memory {
    stack: Vec<Word>,
    lcl: usize,
    arg: usize,
    pc: usize,
    n_args: usize,
    n_locals: usize,
}

impl View for Memory {
    type V = MemoryView;

    closed spec fn view(&self) -> MemoryView {
        MemoryView {
            stack: self.stack@,
            lcl: self.lcl,
            arg: self.arg,
            pc: self.pc,
            n_args: self.n_args,
            n_locals: self.n_locals,
        }
    }
}

impl Memory {
    /// A memory's stack holds at most `usize::MAX` words.
    pub proof fn lemma_stack_len_fits(&self)
        ensures
            self@.stack.len() <= usize::MAX,
    {
        assert(self.stack.len() == self.stack@.len());
    }
}

/// Why a memory operation was refused.
#[derive(Clone, Copy, Debug, PartialEq, Eq, Structural)]
pub enum Error {
    Halt,
    NotEnoughValues,
    TypeMismatch,
    NegativeUnsignedValue,
    LocalVarOutOfBounds,
    ArgumentOutOfBounds,
    NoSuchType,
    AccessViolation,
    NoSuchRegion,
}

/// The memory error that a failed word conversion stands for.
pub open spec fn spec_error_from_conversion(err: ConversionError) -> Error {
    match err {
        ConversionError::WasNumeric => Error::TypeMismatch,
        ConversionError::WasBoolean => Error::TypeMismatch,
        ConversionError::NegativeNumeric => Error::NegativeUnsignedValue,
    }
}

impl From<ConversionError> for Error {
    fn from(err: ConversionError) -> (r: Self) {
        match err {
            ConversionError::WasNumeric => Error::TypeMismatch,
            ConversionError::WasBoolean => Error::TypeMismatch,
            ConversionError::NegativeNumeric => Error::NegativeUnsignedValue,
        }
    }
}

impl vstd::std_specs::convert::FromSpecImpl<ConversionError> for Error {
    open spec fn obeys_from_spec() -> bool {
        true
    }

    open spec fn from_spec(err: ConversionError) -> Self {
        spec_error_from_conversion(err)
    }
}

/// The operations that take two numbers from the stack.
#[derive(Clone, Copy, Debug, PartialEq, Eq, Structural)]
pub enum NumOp {
    Add,
    Sub,
    Mul,
    Div,
    Rem,
    Equal,
    Gt,
    Lt,
}

/// The operations that take one number from the stack.
#[derive(Clone, Copy, Debug, PartialEq, Eq, Structural)]
pub enum UnaryOp {
    Neg,
    Inc,
    Dec,
    Abs,
}

/// The operations that take two booleans from the stack.
#[derive(Clone, Copy, Debug, PartialEq, Eq, Structural)]
pub enum BoolOp {
    And,
    Or,
}

/// Quotient of `x` by `y`, rounded towards zero.
pub open spec fn trunc_div(x: i32, y: i32) -> int {
    if x >= 0 {
        x as int / y as int
    } else {
        -((-x) / (y as int))
    }
}

/// Remainder of `x` by `y`, with the sign of `x`.
pub open spec fn trunc_rem(x: i32, y: i32) -> int {
    if x >= 0 {
        x as int % y as int
    } else {
        -((-x) % (y as int))
    }
}

/// Whether `op` applied to `x` (the top of the stack) and `y` stays within `i32`.
pub open spec fn num_op_defined(op: NumOp, x: i32, y: i32) -> bool {
    match op {
        NumOp::Add => i32::MIN <= x + y <= i32::MAX,
        NumOp::Sub => i32::MIN <= x - y <= i32::MAX,
        NumOp::Mul => i32::MIN <= x * y <= i32::MAX,
        NumOp::Div => y != 0 && !(x == i32::MIN && y == -1),
        NumOp::Rem => y != 0 && !(x == i32::MIN && y == -1),
        _ => true,
    }
}

/// The word that `op` leaves on the stack, `x` being the value that was on top.
pub open spec fn num_op_value(op: NumOp, x: i32, y: i32) -> Word {
    match op {
        NumOp::Add => Word::Numeric((x + y) as i32),
        NumOp::Sub => Word::Numeric((x - y) as i32),
        NumOp::Mul => Word::Numeric((x * y) as i32),
        NumOp::Div => Word::Numeric(trunc_div(x, y) as i32),
        NumOp::Rem => Word::Numeric(trunc_rem(x, y) as i32),
        NumOp::Equal => Word::Boolean(x == y),
        NumOp::Gt => Word::Boolean(x > y),
        NumOp::Lt => Word::Boolean(x < y),
    }
}

/// Whether the unary `op` stays within `i32` on `x`.
pub open spec fn unary_op_defined(op: UnaryOp, x: i32) -> bool {
    match op {
        UnaryOp::Neg => x != i32::MIN,
        UnaryOp::Inc => x != i32::MAX,
        UnaryOp::Dec => x != i32::MIN,
        UnaryOp::Abs => x != i32::MIN,
    }
}

/// The number that the unary `op` leaves on the stack.
pub open spec fn unary_op_value(op: UnaryOp, x: i32) -> i32 {
    match op {
        UnaryOp::Neg => (-x) as i32,
        UnaryOp::Inc => (x + 1) as i32,
        UnaryOp::Dec => (x - 1) as i32,
        UnaryOp::Abs => if x < 0 {
            (-x) as i32
        } else {
            x
        },
    }
}

/// The boolean that `op` leaves on the stack.
pub open spec fn bool_op_value(op: BoolOp, x: bool, y: bool) -> bool {
    match op {
        BoolOp::And => x && y,
        BoolOp::Or => x || y,
    }
}

/// The first stack position above the locals of the current function.
pub open spec fn frame_top(m: MemoryView) -> int {
    m.lcl + m.n_locals
}

/// Whether the operand stack of the current function holds at least `k` values.
pub open spec fn has_operands(m: MemoryView, k: int) -> bool {
    frame_top(m) + k <= m.stack.len()
}

/// The value on top of the stack.
pub open spec fn top(m: MemoryView) -> Word {
    m.stack.last()
}

/// The value just below the top of the stack.
pub open spec fn second(m: MemoryView) -> Word {
    m.stack[m.stack.len() - 2]
}

/// `m` with `k` values taken off the stack.
pub open spec fn dropped(m: MemoryView, k: int) -> MemoryView {
    MemoryView { stack: m.stack.take(m.stack.len() - k), ..m }
}

/// `m` with one more value pushed.
pub open spec fn pushed(m: MemoryView, w: Word) -> MemoryView {
    MemoryView { stack: m.stack.push(w), ..m }
}

/// `m` with the program counter moved to the next instruction.
pub open spec fn advanced(m: MemoryView) -> MemoryView {
    MemoryView { pc: (m.pc + 1) as usize, ..m }
}

// ---- binary numeric operations ----

/// Result of a binary numeric operation on `m`.
pub open spec fn spec_num_binary(m: MemoryView, op: NumOp) -> (MemoryView, Result<(), Error>) {
    if has_operands(m, 2) {
        let rest = dropped(m, 2);
        match (top(m), second(m)) {
            (Word::Numeric(x), Word::Numeric(y)) => (
                advanced(pushed(rest, num_op_value(op, x, y))),
                Ok(()),
            ),
            _ => (rest, Err(Error::TypeMismatch)),
        }
    } else {
        (m, Err(Error::NotEnoughValues))
    }
}

/// Whether a binary numeric operation on `m` overflows.
pub open spec fn num_binary_panics(m: MemoryView, op: NumOp) -> bool {
    ||| frame_top(m) + 2 > usize::MAX
    ||| has_operands(m, 2) && match (top(m), second(m)) {
        (Word::Numeric(x), Word::Numeric(y)) => !num_op_defined(op, x, y) || m.pc == usize::MAX,
        _ => false,
    }
}

// ---- unary numeric operations ----

/// Result of a unary numeric operation on `m`.
pub open spec fn spec_num_unary(m: MemoryView, op: UnaryOp) -> (MemoryView, Result<(), Error>) {
    if has_operands(m, 1) {
        let rest = dropped(m, 1);
        match top(m) {
            Word::Numeric(x) => (
                advanced(pushed(rest, Word::Numeric(unary_op_value(op, x)))),
                Ok(()),
            ),
            Word::Boolean(_) => (rest, Err(Error::TypeMismatch)),
        }
    } else {
        (m, Err(Error::NotEnoughValues))
    }
}

/// Whether a unary numeric operation on `m` overflows.
pub open spec fn num_unary_panics(m: MemoryView, op: UnaryOp) -> bool {
    ||| frame_top(m) + 1 > usize::MAX
    ||| has_operands(m, 1) && match top(m) {
        Word::Numeric(x) => !unary_op_defined(op, x) || m.pc == usize::MAX,
        _ => false,
    }
}

// ---- boolean operations ----

/// Result of a binary boolean operation on `m`.
pub open spec fn spec_bool_binary(m: MemoryView, op: BoolOp) -> (MemoryView, Result<(), Error>) {
    if has_operands(m, 2) {
        let rest = dropped(m, 2);
        match (top(m), second(m)) {
            (Word::Boolean(x), Word::Boolean(y)) => (
                advanced(pushed(rest, Word::Boolean(bool_op_value(op, x, y)))),
                Ok(()),
            ),
            _ => (rest, Err(Error::TypeMismatch)),
        }
    } else {
        (m, Err(Error::NotEnoughValues))
    }
}

/// Whether a binary boolean operation on `m` overflows.
pub open spec fn bool_binary_panics(m: MemoryView) -> bool {
    ||| frame_top(m) + 2 > usize::MAX
    ||| has_operands(m, 2) && top(m) is Boolean && second(m) is Boolean && m.pc == usize::MAX
}

/// Result of `not` on `m`.
pub open spec fn spec_not(m: MemoryView) -> (MemoryView, Result<(), Error>) {
    if has_operands(m, 1) {
        let rest = dropped(m, 1);
        match top(m) {
            Word::Boolean(x) => (advanced(pushed(rest, Word::Boolean(!x))), Ok(())),
            Word::Numeric(_) => (rest, Err(Error::TypeMismatch)),
        }
    } else {
        (m, Err(Error::NotEnoughValues))
    }
}

/// Whether `not` on `m` overflows.
pub open spec fn not_panics(m: MemoryView) -> bool {
    ||| frame_top(m) + 1 > usize::MAX
    ||| has_operands(m, 1) && top(m) is Boolean && m.pc == usize::MAX
}

// ---- jumps ----

/// Result of a conditional jump to `address` on `m`.
pub open spec fn spec_ifjmp(m: MemoryView, address: usize) -> (MemoryView, Result<(), Error>) {
    if has_operands(m, 1) {
        let rest = dropped(m, 1);
        match top(m) {
            Word::Boolean(true) => (MemoryView { pc: address, ..rest }, Ok(())),
            Word::Boolean(false) => (advanced(rest), Ok(())),
            Word::Numeric(_) => (rest, Err(Error::TypeMismatch)),
        }
    } else {
        (m, Err(Error::NotEnoughValues))
    }
}

/// Whether a conditional jump on `m` overflows.
pub open spec fn ifjmp_panics(m: MemoryView) -> bool {
    ||| frame_top(m) + 1 > usize::MAX
    ||| has_operands(m, 1) && top(m) == Word::Boolean(false) && m.pc == usize::MAX
}

// ---- variables ----

/// Which frame segment a variable access goes to.
pub open spec fn var_base(m: MemoryView, local: bool) -> int {
    if local {
        m.lcl as int
    } else {
        m.arg as int
    }
}

/// How many variables of the kind there are in the current frame.
pub open spec fn var_count(m: MemoryView, local: bool) -> int {
    if local {
        m.n_locals as int
    } else {
        m.n_args as int
    }
}

/// The error for an out-of-bounds variable of the kind.
pub open spec fn var_error(local: bool) -> Error {
    if local {
        Error::LocalVarOutOfBounds
    } else {
        Error::ArgumentOutOfBounds
    }
}

/// Result of pushing the `index`-th local (or argument) on `m`.
pub open spec fn spec_push_variable(m: MemoryView, local: bool, index: usize) -> (MemoryView, Result<(), Error>) {
    if index < var_count(m, local) {
        (advanced(pushed(m, m.stack[var_base(m, local) + index])), Ok(()))
    } else {
        (m, Err(var_error(local)))
    }
}

/// Whether pushing the `index`-th local (or argument) on `m` panics.
pub open spec fn push_variable_panics(m: MemoryView, local: bool, index: usize) -> bool {
    index < var_count(m, local) && (var_base(m, local) + index >= m.stack.len() || m.pc
        == usize::MAX)
}

/// Result of popping the top value into the `index`-th local (or argument) on `m`.
pub open spec fn spec_pop_variable(m: MemoryView, local: bool, index: usize) -> (MemoryView, Result<(), Error>) {
    if index < var_count(m, local) {
        if has_operands(m, 1) {
            let rest = dropped(m, 1);
            (
                advanced(
                    MemoryView {
                        stack: rest.stack.update(var_base(m, local) + index, top(m)),
                        ..rest
                    },
                ),
                Ok(()),
            )
        } else {
            (m, Err(Error::NotEnoughValues))
        }
    } else {
        (m, Err(var_error(local)))
    }
}

/// Whether popping into the `index`-th local (or argument) on `m` panics.
pub open spec fn pop_variable_panics(m: MemoryView, local: bool, index: usize) -> bool {
    index < var_count(m, local) && (frame_top(m) + 1 > usize::MAX || (has_operands(m, 1) && (
    var_base(m, local) + index >= m.stack.len() - 1 || m.pc == usize::MAX)))
}

// ---- external data ----

/// Result of popping the top value on `m`, moving on to the next instruction.
pub open spec fn spec_pop_external(m: MemoryView) -> (MemoryView, Result<Word, Error>) {
    if has_operands(m, 1) {
        (advanced(dropped(m, 1)), Ok(top(m)))
    } else {
        (m, Err(Error::NotEnoughValues))
    }
}

/// Whether popping the top value on `m` panics.
pub open spec fn pop_external_panics(m: MemoryView) -> bool {
    frame_top(m) + 1 > usize::MAX || (has_operands(m, 1) && m.pc == usize::MAX)
}

/// Result of popping the top value on `m`, staying on the same instruction.
pub open spec fn spec_pop_no_inc(m: MemoryView) -> (MemoryView, Result<Word, Error>) {
    if has_operands(m, 1) {
        (dropped(m, 1), Ok(top(m)))
    } else {
        (m, Err(Error::NotEnoughValues))
    }
}

// ---- calls ----

/// Memory right after a call of the function at `address` with `n_args` arguments.
pub open spec fn spec_call(m: MemoryView, address: usize, n_args: usize) -> MemoryView {
    let len = m.stack.len();
    MemoryView {
        stack: m.stack + seq![
            Word::Numeric((m.pc + 1) as usize as i32),
            Word::Numeric(m.lcl as i32),
            Word::Numeric(m.arg as i32),
            Word::Numeric(m.n_args as i32),
            Word::Numeric(m.n_locals as i32),
        ],
        lcl: (len + 5) as usize,
        arg: (len - n_args) as usize,
        n_args,
        pc: address,
        n_locals: m.n_locals,
    }
}

/// Whether a call on `m` panics.
pub open spec fn call_panics(m: MemoryView, n_args: usize) -> bool {
    m.pc == usize::MAX || n_args > m.stack.len() || m.stack.len() + 5 > usize::MAX
}

/// Memory right after the function prologue that reserves `n_locals` locals.
pub open spec fn spec_function(m: MemoryView, n_locals: usize) -> MemoryView {
    MemoryView {
        stack: m.stack + Seq::new(n_locals as nat, |i: int| Word::Numeric(0)),
        n_locals,
        pc: (m.pc + 1) as usize,
        ..m
    }
}

/// The caller's registers saved below the locals of the current frame, in the
/// order return address, `lcl`, `arg`, `n_args`, `n_locals`.
pub open spec fn spec_saved_frame(m: MemoryView) -> Result<(usize, usize, usize, usize, usize), ConversionError> {
    let f = m.lcl as int;
    match spec_word_to_usize(m.stack[f - 5]) {
        Err(e) => Err(e),
        Ok(ret) => match spec_word_to_usize(m.stack[f - 4]) {
            Err(e) => Err(e),
            Ok(lcl) => match spec_word_to_usize(m.stack[f - 3]) {
                Err(e) => Err(e),
                Ok(arg) => match spec_word_to_usize(m.stack[f - 2]) {
                    Err(e) => Err(e),
                    Ok(n_args) => match spec_word_to_usize(m.stack[f - 1]) {
                        Err(e) => Err(e),
                        Ok(n_locals) => Ok((ret, lcl, arg, n_args, n_locals)),
                    },
                },
            },
        },
    }
}

/// `s` cut down to `len` values, when it is longer.
pub open spec fn truncated(s: Seq<Word>, len: usize) -> Seq<Word> {
    if len <= s.len() {
        s.take(len as int)
    } else {
        s
    }
}

/// Memory with the caller's registers restored from `saved` and the stack cut at the arguments.
pub open spec fn restored(m: MemoryView, saved: (usize, usize, usize, usize, usize), stack: Seq<Word>) -> MemoryView {
    MemoryView {
        stack,
        pc: saved.0,
        lcl: saved.1,
        arg: saved.2,
        n_args: saved.3,
        n_locals: saved.4,
    }
}

/// Result of returning a value from the current function.
pub open spec fn spec_fn_return(m: MemoryView) -> (MemoryView, Result<(), Error>) {
    if has_operands(m, 1) {
        match spec_saved_frame(m) {
            Err(e) => (m, Err(spec_error_from_conversion(e))),
            Ok(saved) => (
                restored(m, saved, truncated(m.stack.drop_last(), m.arg).push(top(m))),
                Ok(()),
            ),
        }
    } else {
        (m, Err(Error::NotEnoughValues))
    }
}

/// Whether returning a value on `m` panics.
pub open spec fn fn_return_panics(m: MemoryView) -> bool {
    frame_top(m) + 1 > usize::MAX || (has_operands(m, 1) && m.lcl < 5)
}

/// Result of returning from a function without a value.
pub open spec fn spec_return_void(m: MemoryView) -> (MemoryView, Result<(), Error>) {
    match spec_saved_frame(m) {
        Err(e) => (m, Err(spec_error_from_conversion(e))),
        Ok(saved) => (restored(m, saved, truncated(m.stack, m.arg)), Ok(())),
    }
}

/// Whether returning without a value on `m` panics.
pub open spec fn return_void_panics(m: MemoryView) -> bool {
    m.lcl < 5 || m.lcl > m.stack.len()
}

/// The arguments of the current function.
pub open spec fn spec_args(m: MemoryView) -> Seq<Word> {
    m.stack.subrange(m.arg as int, m.arg + m.n_args)
}

/// Whether reading the arguments on `m` panics.
pub open spec fn args_panics(m: MemoryView) -> bool {
    m.arg + m.n_args > m.stack.len()
}

/// The memory a VM starts with: the action's arguments, then the index of the
/// object and of the action that run.
pub open spec fn spec_init_memory(args: Seq<Word>, card_index: u32, action_index: u32) -> MemoryView {
    MemoryView {
        stack: args + seq![Word::Numeric(card_index as i32), Word::Numeric(action_index as i32)],
        lcl: 0,
        arg: 0,
        pc: 0,
        n_args: 0,
        n_locals: 0,
    }
}

impl Memory {
    /// The memory for running an action: `args`, then `card_index` and `action_index`.
    pub fn init_memory(args: &[Word], card_index: u32, action_index: u32) -> (r: Self)
        ensures
            r@ == spec_init_memory(args@, card_index, action_index),
    {
        let mut stack: Vec<Word> = Vec::new();
        let mut i: usize = 0;
        while i < args.len()
            invariant
                i <= args.len(),
                stack@ == args@.take(i as int),
            decreases args.len() - i,
        {
            stack.push(args[i]);
            i = i + 1;
            proof {
                assert(args@.take(i as int) == args@.take((i - 1) as int).push(args@[i - 1]));
            }
        }
        proof {
            assert(args@.take(args.len() as int) == args@);
        }
        stack.push(Word::Numeric(card_index as i32));
        stack.push(Word::Numeric(action_index as i32));
        let r = Self { stack, lcl: 0, arg: 0, pc: 0, n_args: 0, n_locals: 0 };
        assert(r@.stack == args@ + seq![Word::Numeric(card_index as i32), Word::Numeric(action_index as i32)]);
        r
    }

    /// The address of the current instruction.
    pub fn pc(&self) -> (r: usize)
        ensures
            r == self@.pc,
    {
        self.pc
    }

    /// Jumps to `address`.
    pub fn jmp(&mut self, address: usize) -> (r: Result<(), Error>)
        ensures
            final(self)@ == (MemoryView { pc: address, ..old(self)@ }),
            r == Ok::<(), Error>(()),
    {
        self.pc = address;
        Ok(())
    }

    /// Pops a boolean and jumps to `address` when it is true; otherwise moves on.
    pub fn ifjmp(&mut self, address: usize) -> (r: Result<(), Error>)
        requires
            !ifjmp_panics(old(self)@),
        ensures
            (final(self)@, r) == spec_ifjmp(old(self)@, address),
    {
        if self.lcl + self.n_locals < self.stack.len() {
            let value = self.stack.pop();
            match value {
                Some(Word::Boolean(val)) => {
                    if val {
                        self.pc = address;
                    } else {
                        self.pc += 1;
                    }
                    Ok(())
                },
                _ => Err(Error::TypeMismatch),
            }
        } else {
            Err(Error::NotEnoughValues)
        }
    }

    fn num_binary(&mut self, op: NumOp) -> (r: Result<(), Error>)
        requires
            !num_binary_panics(old(self)@, op),
        ensures
            (final(self)@, r) == spec_num_binary(old(self)@, op),
    {
        if self.lcl + self.n_locals + 2 <= self.stack.len() {
            let ghost m0 = self@;
            let first_word = self.stack.pop();
            let second_word = self.stack.pop();
            proof {
                assert(self.stack@ =~= m0.stack.take(m0.stack.len() - 2));
            }
            match (first_word, second_word) {
                (Some(Word::Numeric(x)), Some(Word::Numeric(y))) => {
                    let value = match op {
                        NumOp::Add => Word::Numeric(x + y),
                        NumOp::Sub => Word::Numeric(x - y),
                        NumOp::Mul => Word::Numeric(x * y),
                        NumOp::Div => Word::Numeric(x / y),
                        NumOp::Rem => Word::Numeric(x % y),
                        NumOp::Equal => Word::Boolean(x == y),
                        NumOp::Gt => Word::Boolean(x > y),
                        NumOp::Lt => Word::Boolean(x < y),
                    };
                    self.stack.push(value);
                    self.pc += 1;
                    Ok(())
                },
                _ => Err(Error::TypeMismatch),
            }
        } else {
            Err(Error::NotEnoughValues)
        }
    }

    fn num_unary(&mut self, op: UnaryOp) -> (r: Result<(), Error>)
        requires
            !num_unary_panics(old(self)@, op),
        ensures
            (final(self)@, r) == spec_num_unary(old(self)@, op),
    {
        if self.lcl + self.n_locals < self.stack.len() {
            let value = self.stack.pop();
            match value {
                Some(Word::Numeric(x)) => {
                    let result = match op {
                        UnaryOp::Neg => -x,
                        UnaryOp::Inc => x + 1,
                        UnaryOp::Dec => x - 1,
                        UnaryOp::Abs => if x < 0 {
                            -x
                        } else {
                            x
                        },
                    };
                    self.stack.push(Word::Numeric(result));
                    self.pc += 1;
                    Ok(())
                },
                _ => Err(Error::TypeMismatch),
            }
        } else {
            Err(Error::NotEnoughValues)
        }
    }

    fn bool_binary(&mut self, op: BoolOp) -> (r: Result<(), Error>)
        requires
            !bool_binary_panics(old(self)@),
        ensures
            (final(self)@, r) == spec_bool_binary(old(self)@, op),
    {
        if self.lcl + self.n_locals + 2 <= self.stack.len() {
            let ghost m0 = self@;
            let first_word = self.stack.pop();
            let second_word = self.stack.pop();
            proof {
                assert(self.stack@ =~= m0.stack.take(m0.stack.len() - 2));
            }
            match (first_word, second_word) {
                (Some(Word::Boolean(x)), Some(Word::Boolean(y))) => {
                    let value = match op {
                        BoolOp::And => x && y,
                        BoolOp::Or => x || y,
                    };
                    self.stack.push(Word::Boolean(value));
                    self.pc += 1;
                    Ok(())
                },
                _ => Err(Error::TypeMismatch),
            }
        } else {
            Err(Error::NotEnoughValues)
        }
    }

    /// Pops `x` then `y` and pushes `x + y`.
    pub fn add(&mut self) -> (r: Result<(), Error>)
        requires
            !num_binary_panics(old(self)@, NumOp::Add),
        ensures
            (final(self)@, r) == spec_num_binary(old(self)@, NumOp::Add),
    {
        self.num_binary(NumOp::Add)
    }

    /// Pops `x` then `y` and pushes `x - y`.
    pub fn sub(&mut self) -> (r: Result<(), Error>)
        requires
            !num_binary_panics(old(self)@, NumOp::Sub),
        ensures
            (final(self)@, r) == spec_num_binary(old(self)@, NumOp::Sub),
    {
        self.num_binary(NumOp::Sub)
    }

    /// Pops `x` then `y` and pushes `x * y`.
    pub fn mul(&mut self) -> (r: Result<(), Error>)
        requires
            !num_binary_panics(old(self)@, NumOp::Mul),
        ensures
            (final(self)@, r) == spec_num_binary(old(self)@, NumOp::Mul),
    {
        self.num_binary(NumOp::Mul)
    }

    /// Pops `x` then `y` and pushes `x / y`, rounded towards zero.
    pub fn div(&mut self) -> (r: Result<(), Error>)
        requires
            !num_binary_panics(old(self)@, NumOp::Div),
        ensures
            (final(self)@, r) == spec_num_binary(old(self)@, NumOp::Div),
    {
        self.num_binary(NumOp::Div)
    }

    /// Pops `x` then `y` and pushes `x % y`.
    pub fn rem(&mut self) -> (r: Result<(), Error>)
        requires
            !num_binary_panics(old(self)@, NumOp::Rem),
        ensures
            (final(self)@, r) == spec_num_binary(old(self)@, NumOp::Rem),
    {
        self.num_binary(NumOp::Rem)
    }

    /// Pops `x` then `y` and pushes whether `x == y`.
    pub fn equal(&mut self) -> (r: Result<(), Error>)
        requires
            !num_binary_panics(old(self)@, NumOp::Equal),
        ensures
            (final(self)@, r) == spec_num_binary(old(self)@, NumOp::Equal),
    {
        self.num_binary(NumOp::Equal)
    }

    /// Pops `x` then `y` and pushes whether `x > y`.
    pub fn gt(&mut self) -> (r: Result<(), Error>)
        requires
            !num_binary_panics(old(self)@, NumOp::Gt),
        ensures
            (final(self)@, r) == spec_num_binary(old(self)@, NumOp::Gt),
    {
        self.num_binary(NumOp::Gt)
    }

    /// Pops `x` then `y` and pushes whether `x < y`.
    pub fn lt(&mut self) -> (r: Result<(), Error>)
        requires
            !num_binary_panics(old(self)@, NumOp::Lt),
        ensures
            (final(self)@, r) == spec_num_binary(old(self)@, NumOp::Lt),
    {
        self.num_binary(NumOp::Lt)
    }

    /// Replaces the top number by its negation.
    pub fn neg(&mut self) -> (r: Result<(), Error>)
        requires
            !num_unary_panics(old(self)@, UnaryOp::Neg),
        ensures
            (final(self)@, r) == spec_num_unary(old(self)@, UnaryOp::Neg),
    {
        self.num_unary(UnaryOp::Neg)
    }

    /// Adds one to the top number.
    pub fn inc(&mut self) -> (r: Result<(), Error>)
        requires
            !num_unary_panics(old(self)@, UnaryOp::Inc),
        ensures
            (final(self)@, r) == spec_num_unary(old(self)@, UnaryOp::Inc),
    {
        self.num_unary(UnaryOp::Inc)
    }

    /// Subtracts one from the top number.
    pub fn dec(&mut self) -> (r: Result<(), Error>)
        requires
            !num_unary_panics(old(self)@, UnaryOp::Dec),
        ensures
            (final(self)@, r) == spec_num_unary(old(self)@, UnaryOp::Dec),
    {
        self.num_unary(UnaryOp::Dec)
    }

    /// Replaces the top number by its absolute value.
    pub fn abs(&mut self) -> (r: Result<(), Error>)
        requires
            !num_unary_panics(old(self)@, UnaryOp::Abs),
        ensures
            (final(self)@, r) == spec_num_unary(old(self)@, UnaryOp::Abs),
    {
        self.num_unary(UnaryOp::Abs)
    }

    /// Pops `x` then `y` and pushes `x && y`.
    pub fn and(&mut self) -> (r: Result<(), Error>)
        requires
            !bool_binary_panics(old(self)@),
        ensures
            (final(self)@, r) == spec_bool_binary(old(self)@, BoolOp::And),
    {
        self.bool_binary(BoolOp::And)
    }

    /// Pops `x` then `y` and pushes `x || y`.
    pub fn or(&mut self) -> (r: Result<(), Error>)
        requires
            !bool_binary_panics(old(self)@),
        ensures
            (final(self)@, r) == spec_bool_binary(old(self)@, BoolOp::Or),
    {
        self.bool_binary(BoolOp::Or)
    }

    fn push_variable(&mut self, local: bool, index: usize) -> (r: Result<(), Error>)
        requires
            !push_variable_panics(old(self)@, local, index),
        ensures
            (final(self)@, r) == spec_push_variable(old(self)@, local, index),
    {
        let (count, base) = if local {
            (self.n_locals, self.lcl)
        } else {
            (self.n_args, self.arg)
        };
        if index < count {
            let len = self.stack.len();
            assert(base + index < len);
            let value = self.stack[base + index];
            self.stack.push(value);
            self.pc += 1;
            Ok(())
        } else {
            Err(if local { Error::LocalVarOutOfBounds } else { Error::ArgumentOutOfBounds })
        }
    }

    fn pop_variable(&mut self, local: bool, index: usize) -> (r: Result<(), Error>)
        requires
            !pop_variable_panics(old(self)@, local, index),
        ensures
            (final(self)@, r) == spec_pop_variable(old(self)@, local, index),
    {
        let (count, base) = if local {
            (self.n_locals, self.lcl)
        } else {
            (self.n_args, self.arg)
        };
        if index < count {
            if self.lcl + self.n_locals < self.stack.len() {
                let ghost m0 = self@;
                match self.stack.pop() {
                    Some(value) => {
                        proof {
                            assert(self.stack@ =~= m0.stack.take(m0.stack.len() - 1));
                        }
                        self.stack.set(base + index, value);
                        self.pc += 1;
                        Ok(())
                    },
                    None => Err(Error::NotEnoughValues),
                }
            } else {
                Err(Error::NotEnoughValues)
            }
        } else {
            Err(if local { Error::LocalVarOutOfBounds } else { Error::ArgumentOutOfBounds })
        }
    }

    /// Pushes the `index`-th local variable of the current function.
    pub fn push_local(&mut self, index: usize) -> (r: Result<(), Error>)
        requires
            !push_variable_panics(old(self)@, true, index),
        ensures
            (final(self)@, r) == spec_push_variable(old(self)@, true, index),
    {
        self.push_variable(true, index)
    }

    /// Pushes the `index`-th argument of the current function.
    pub fn push_argument(&mut self, index: usize) -> (r: Result<(), Error>)
        requires
            !push_variable_panics(old(self)@, false, index),
        ensures
            (final(self)@, r) == spec_push_variable(old(self)@, false, index),
    {
        self.push_variable(false, index)
    }

    /// Pops the top value into the `index`-th local variable of the current function.
    pub fn pop_local(&mut self, index: usize) -> (r: Result<(), Error>)
        requires
            !pop_variable_panics(old(self)@, true, index),
        ensures
            (final(self)@, r) == spec_pop_variable(old(self)@, true, index),
    {
        self.pop_variable(true, index)
    }

    /// Pops the top value into the `index`-th argument of the current function.
    pub fn pop_argument(&mut self, index: usize) -> (r: Result<(), Error>)
        requires
            !pop_variable_panics(old(self)@, false, index),
        ensures
            (final(self)@, r) == spec_pop_variable(old(self)@, false, index),
    {
        self.pop_variable(false, index)
    }

    /// Pushes a value that comes from outside the stack and moves on.
    pub fn push_external(&mut self, value: Word) -> (r: Result<(), Error>)
        requires
            old(self)@.pc < usize::MAX,
        ensures
            final(self)@ == advanced(pushed(old(self)@, value)),
            r == Ok::<(), Error>(()),
    {
        self.stack.push(value);
        self.pc += 1;
        Ok(())
    }

    /// Pops the top value for use outside the stack and moves on.
    pub fn pop_external(&mut self) -> (r: Result<Word, Error>)
        requires
            !pop_external_panics(old(self)@),
        ensures
            (final(self)@, r) == spec_pop_external(old(self)@),
    {
        if self.lcl + self.n_locals < self.stack.len() {
            let ghost m0 = self@;
            match self.stack.pop() {
                Some(value) => {
                    proof {
                        assert(self.stack@ =~= m0.stack.take(m0.stack.len() - 1));
                    }
                    self.pc += 1;
                    Ok(value)
                },
                None => Err(Error::NotEnoughValues),
            }
        } else {
            Err(Error::NotEnoughValues)
        }
    }

    /// Pops the top value for use outside the stack, staying on the same instruction.
    pub fn pop_external_no_pc_inc(&mut self) -> (r: Result<Word, Error>)
        requires
            frame_top(old(self)@) + 1 <= usize::MAX,
        ensures
            (final(self)@, r) == spec_pop_no_inc(old(self)@),
    {
        if self.lcl + self.n_locals < self.stack.len() {
            let ghost m0 = self@;
            let r = match self.stack.pop() {
                Some(value) => Ok(value),
                None => Err(Error::NotEnoughValues),
            };
            proof {
                assert(self.stack@ =~= m0.stack.take(m0.stack.len() - 1));
            }
            r
        } else {
            Err(Error::NotEnoughValues)
        }
    }

    /// Replaces the top boolean by its negation.
    pub fn not(&mut self) -> (r: Result<(), Error>)
        requires
            !not_panics(old(self)@),
        ensures
            (final(self)@, r) == spec_not(old(self)@),
    {
        if self.lcl + self.n_locals < self.stack.len() {
            let ghost m0 = self@;
            let value = self.stack.pop();
            proof {
                assert(self.stack@ =~= m0.stack.take(m0.stack.len() - 1));
            }
            match value {
                Some(Word::Boolean(x)) => {
                    self.stack.push(Word::Boolean(!x));
                    self.pc += 1;
                    Ok(())
                },
                _ => Err(Error::TypeMismatch),
            }
        } else {
            Err(Error::NotEnoughValues)
        }
    }

    /// Calls the function at `address`, whose `n_args` arguments are the top
    /// values of the stack: saves the caller's registers on the stack and
    /// starts a new frame.
    pub fn call(&mut self, address: usize, n_args: usize) -> (r: Result<(), Error>)
        requires
            !call_panics(old(self)@, n_args),
        ensures
            final(self)@ == spec_call(old(self)@, address, n_args),
            r == Ok::<(), Error>(()),
    {
        let ghost m0 = self@;
        let return_address = self.pc + 1;
        self.stack.push(Word::Numeric(return_address as i32));
        self.stack.push(Word::Numeric(self.lcl as i32));
        self.stack.push(Word::Numeric(self.arg as i32));
        self.stack.push(Word::Numeric(self.n_args as i32));
        self.stack.push(Word::Numeric(self.n_locals as i32));
        self.lcl = self.stack.len();
        self.arg = self.stack.len() - n_args - 5;
        self.n_args = n_args;
        self.pc = address;
        proof {
            assert(self.stack@ =~= spec_call(m0, address, n_args).stack);
        }
        Ok(())
    }

    /// The prologue of a function: reserves `n_locals` local variables set to zero.
    pub fn function(&mut self, n_locals: usize) -> (r: Result<(), Error>)
        requires
            old(self)@.pc < usize::MAX,
        ensures
            final(self)@ == spec_function(old(self)@, n_locals),
            r == Ok::<(), Error>(()),
    {
        let ghost m0 = self@;
        self.n_locals = n_locals;
        let mut i: usize = 0;
        while i < n_locals
            invariant
                i <= n_locals,
                self.stack@ =~= m0.stack + Seq::new(i as nat, |j: int| Word::Numeric(0)),
                self.pc == m0.pc,
                self.lcl == m0.lcl,
                self.arg == m0.arg,
                self.n_args == m0.n_args,
                self.n_locals == n_locals,
            decreases n_locals - i,
        {
            self.stack.push(Word::Numeric(0));
            i = i + 1;
        }
        self.pc += 1;
        Ok(())
    }

    fn saved_frame(&self) -> (r: Result<(usize, usize, usize, usize, usize), Error>)
        requires
            5 <= self@.lcl <= self@.stack.len(),
        ensures
            r == match spec_saved_frame(self@) {
                Ok(saved) => Ok(saved),
                Err(e) => Err(spec_error_from_conversion(e)),
            },
    {
        let frame = self.lcl;
        let return_address = match usize::try_from(self.stack[frame - 5]) {
            Ok(v) => v,
            Err(e) => return Err(Error::from(e)),
        };
        let previous_lcl = match usize::try_from(self.stack[frame - 4]) {
            Ok(v) => v,
            Err(e) => return Err(Error::from(e)),
        };
        let previous_arg = match usize::try_from(self.stack[frame - 3]) {
            Ok(v) => v,
            Err(e) => return Err(Error::from(e)),
        };
        let previous_n_args = match usize::try_from(self.stack[frame - 2]) {
            Ok(v) => v,
            Err(e) => return Err(Error::from(e)),
        };
        let previous_n_locals = match usize::try_from(self.stack[frame - 1]) {
            Ok(v) => v,
            Err(e) => return Err(Error::from(e)),
        };
        Ok((return_address, previous_lcl, previous_arg, previous_n_args, previous_n_locals))
    }

    /// Returns from the current function with the value on top of the stack:
    /// drops the frame, pushes the value and restores the caller's registers.
    pub fn fn_return(&mut self) -> (r: Result<(), Error>)
        requires
            !fn_return_panics(old(self)@),
        ensures
            (final(self)@, r) == spec_fn_return(old(self)@),
    {
        if self.lcl + self.n_locals < self.stack.len() {
            let saved = self.saved_frame();
            match saved {
                Err(e) => Err(e),
                Ok((return_address, previous_lcl, previous_arg, previous_n_args, previous_n_locals)) => {
                    let ghost m0 = self@;
                    let return_value = match self.stack.pop() {
                        Some(v) => v,
                        None => return Err(Error::NotEnoughValues),
                    };
                    proof {
                        assert(self.stack@ =~= m0.stack.drop_last());
                    }
                    self.stack.truncate(self.arg);
                    self.stack.push(return_value);
                    self.lcl = previous_lcl;
                    self.arg = previous_arg;
                    self.n_args = previous_n_args;
                    self.n_locals = previous_n_locals;
                    self.pc = return_address;
                    Ok(())
                },
            }
        } else {
            Err(Error::NotEnoughValues)
        }
    }

    /// Returns from the current function without a value: drops the frame and
    /// restores the caller's registers.
    pub fn return_void(&mut self) -> (r: Result<(), Error>)
        requires
            !return_void_panics(old(self)@),
        ensures
            (final(self)@, r) == spec_return_void(old(self)@),
    {
        let saved = self.saved_frame();
        match saved {
            Err(e) => Err(e),
            Ok((return_address, previous_lcl, previous_arg, previous_n_args, previous_n_locals)) => {
                self.stack.truncate(self.arg);
                self.lcl = previous_lcl;
                self.arg = previous_arg;
                self.n_args = previous_n_args;
                self.n_locals = previous_n_locals;
                self.pc = return_address;
                Ok(())
            },
        }
    }

    /// A copy of the arguments of the current function.
    pub fn args(&self) -> (r: Vec<Word>)
        requires
            !args_panics(self@),
        ensures
            r@ == spec_args(self@),
    {
        let mut out: Vec<Word> = Vec::new();
        let mut i: usize = self.arg;
        let len = self.stack.len();
        assert(self.arg + self.n_args <= len);
        let end = self.arg + self.n_args;
        while i < end
            invariant
                self.arg <= i <= end,
                end == self.arg + self.n_args,
                end <= self.stack@.len(),
                out@ =~= self.stack@.subrange(self.arg as int, i as int),
            decreases end - i,
        {
            out.push(self.stack[i]);
            i = i + 1;
        }
        out
    }

    /// Builds a memory from its parts, as they are.
    pub fn from_raw_parts(
        stack: Vec<Word>,
        lcl: usize,
        arg: usize,
        pc: usize,
        n_args: usize,
        n_locals: usize,
    ) -> (r: Self)
        ensures
            r@ == (MemoryView { stack: stack@, lcl, arg, pc, n_args, n_locals }),
    {
        Self { stack, lcl, arg, pc, n_args, n_locals }
    }
}

/// A value pushed from outside is the value popped right after it: the stack
/// and the registers come back as they were, two instructions further on.
pub proof fn lemma_push_then_pop(m: MemoryView, value: Word)
    requires
        frame_top(m) <= m.stack.len(),
        m.stack.len() < usize::MAX,
        m.pc + 2 <= usize::MAX,
    ensures
        !pop_external_panics(advanced(pushed(m, value))),
        spec_pop_external(advanced(pushed(m, value))) == (
            MemoryView { pc: (m.pc + 2) as usize, ..m },
            Ok::<Word, Error>(value),
        ),
{
    let p = advanced(pushed(m, value));
    assert(p.stack.take(p.stack.len() - 1) =~= m.stack);
}

/// Calling a function, running its prologue, pushing a value and returning it
/// resumes the caller: the arguments are replaced by the returned value, and
/// the caller's registers come back, with the program counter on the
/// instruction after the call.
pub proof fn lemma_call_then_return(
    m: MemoryView,
    address: usize,
    n_args: usize,
    n_locals: usize,
    value: Word,
)
    requires
        n_args <= m.stack.len(),
        m.stack.len() + n_locals + 6 <= usize::MAX,
        m.pc + 1 <= i32::MAX,
        m.lcl <= i32::MAX,
        m.arg <= i32::MAX,
        m.n_args <= i32::MAX,
        m.n_locals <= i32::MAX,
        address + 2 <= usize::MAX,
    ensures
        ({
            let called = spec_call(m, address, n_args);
            let entered = spec_function(called, n_locals);
            let ready = advanced(pushed(entered, value));
            &&& !call_panics(m, n_args)
            &&& entered.pc < usize::MAX
            &&& !fn_return_panics(ready)
            &&& spec_fn_return(ready) == (
                MemoryView {
                    stack: m.stack.take(m.stack.len() - n_args).push(value),
                    pc: (m.pc + 1) as usize,
                    lcl: m.lcl,
                    arg: m.arg,
                    n_args: m.n_args,
                    n_locals: m.n_locals,
                },
                Ok::<(), Error>(()),
            )
        }),
{
    let len = m.stack.len();
    let called = spec_call(m, address, n_args);
    let entered = spec_function(called, n_locals);
    let ready = advanced(pushed(entered, value));
    assert(ready.lcl == len + 5);
    assert(ready.stack[len + 5 - 5] == Word::Numeric((m.pc + 1) as usize as i32));
    assert(ready.stack[len + 5 - 4] == Word::Numeric(m.lcl as i32));
    assert(ready.stack[len + 5 - 3] == Word::Numeric(m.arg as i32));
    assert(ready.stack[len + 5 - 2] == Word::Numeric(m.n_args as i32));
    assert(ready.stack[len + 5 - 1] == Word::Numeric(m.n_locals as i32));
    assert(spec_saved_frame(ready) == Ok::<(usize, usize, usize, usize, usize), ConversionError>(
        ((m.pc + 1) as usize, m.lcl, m.arg, m.n_args, m.n_locals),
    ));
    assert(truncated(ready.stack.drop_last(), ready.arg) =~= m.stack.take(len - n_args));
}

/// A value stored from the top of the stack into a local (or an argument)
/// is the value that loading that variable pushes back.
pub proof fn lemma_store_then_load_variable(m: MemoryView, local: bool, index: usize)
    requires
        !pop_variable_panics(m, local, index),
        spec_pop_variable(m, local, index).1 is Ok,
        m.pc + 2 <= usize::MAX,
    ensures
        ({
            let stored = spec_pop_variable(m, local, index).0;
            &&& !push_variable_panics(stored, local, index)
            &&& spec_push_variable(stored, local, index) == (advanced(pushed(stored, top(m))), Ok::<(), Error>(()))
        }),
{
}

/// Right after a call with `n_args` arguments, on any stack that a memory can
/// hold with at least `n_args` words on it, the arguments of the running
/// function are the `n_args` words that were on top of the caller's stack,
/// just below the new frame, and they can be read.
pub proof fn lemma_call_then_args(m: MemoryView, address: usize, n_args: usize)
    requires
        m.stack.len() <= usize::MAX,
        n_args <= m.stack.len(),
    ensures
        !args_panics(spec_call(m, address, n_args)),
        spec_args(spec_call(m, address, n_args)) == m.stack.subrange(m.stack.len() - n_args, m.stack.len() as int),
{
    let c = spec_call(m, address, n_args);
    assert(spec_args(c) =~= m.stack.subrange(m.stack.len() - n_args, m.stack.len() as int));
}


/// `m` with its top two values replaced by `w`, and the program counter on
/// the next instruction.
pub open spec fn replaced_top_two(m: MemoryView, w: Word) -> MemoryView {
    MemoryView { stack: m.stack.take(m.stack.len() - 2).push(w), pc: (m.pc + 1) as usize, ..m }
}

/// The boolean operations on two booleans `x` (on top) and `y` (below it):
/// `And` leaves `x && y`, which is false as soon as one of them is false;
/// `Or` leaves `x || y`, which is true as soon as one of them is true; both
/// take the two values off and move on to the next instruction.
pub proof fn lemma_bool_ops_meaning(m: MemoryView, x: bool, y: bool)
    requires
        has_operands(m, 2),
        top(m) == Word::Boolean(x),
        second(m) == Word::Boolean(y),
    ensures
        spec_bool_binary(m, BoolOp::And) == (replaced_top_two(m, Word::Boolean(x && y)), Ok::<(), Error>(())),
        spec_bool_binary(m, BoolOp::Or) == (replaced_top_two(m, Word::Boolean(x || y)), Ok::<(), Error>(())),
        !x || !y ==> spec_bool_binary(m, BoolOp::And).0.stack.last() == Word::Boolean(false),
        x && y ==> spec_bool_binary(m, BoolOp::And).0.stack.last() == Word::Boolean(true),
        x || y ==> spec_bool_binary(m, BoolOp::Or).0.stack.last() == Word::Boolean(true),
        !x && !y ==> spec_bool_binary(m, BoolOp::Or).0.stack.last() == Word::Boolean(false),
{
}

/// `Not` on a boolean `x` on top leaves `!x` in its place.
pub proof fn lemma_not_meaning(m: MemoryView, x: bool)
    requires
        has_operands(m, 1),
        top(m) == Word::Boolean(x),
    ensures
        spec_not(m) == (
            MemoryView { stack: m.stack.take(m.stack.len() - 1).push(Word::Boolean(!x)), pc: (m.pc + 1) as usize, ..m },
            Ok::<(), Error>(()),
        ),
{
}

/// The numeric operations on two numbers `x` (on top) and `y` (below it):
/// the sum `x + y`, the difference `x - y`, the product `x * y`, and the
/// comparisons `x == y`, `x > y`, `x < y`, each taking the two values off and
/// leaving its result, where the result fits in an `i32`.
pub proof fn lemma_num_ops_meaning(m: MemoryView, x: i32, y: i32)
    requires
        has_operands(m, 2),
        top(m) == Word::Numeric(x),
        second(m) == Word::Numeric(y),
    ensures
        i32::MIN <= x + y <= i32::MAX ==> spec_num_binary(m, NumOp::Add) == (
            replaced_top_two(m, Word::Numeric((x + y) as i32)),
            Ok::<(), Error>(()),
        ),
        i32::MIN <= x - y <= i32::MAX ==> spec_num_binary(m, NumOp::Sub) == (
            replaced_top_two(m, Word::Numeric((x - y) as i32)),
            Ok::<(), Error>(()),
        ),
        i32::MIN <= x * y <= i32::MAX ==> spec_num_binary(m, NumOp::Mul) == (
            replaced_top_two(m, Word::Numeric((x * y) as i32)),
            Ok::<(), Error>(()),
        ),
        spec_num_binary(m, NumOp::Equal) == (replaced_top_two(m, Word::Boolean(x == y)), Ok::<(), Error>(())),
        spec_num_binary(m, NumOp::Gt) == (replaced_top_two(m, Word::Boolean(x > y)), Ok::<(), Error>(())),
        spec_num_binary(m, NumOp::Lt) == (replaced_top_two(m, Word::Boolean(x < y)), Ok::<(), Error>(())),
{
}

/// Division and remainder of `x` (on top) by `y` (below it), for `y != 0`:
/// the quotient `q` and remainder `r` they leave satisfy `q * y + r == x`,
/// the remainder is smaller than `y` in size and never has the opposite
/// sign of `x` (the quotient is rounded towards zero).
pub proof fn lemma_div_rem_meaning(m: MemoryView, x: i32, y: i32)
    requires
        has_operands(m, 2),
        top(m) == Word::Numeric(x),
        second(m) == Word::Numeric(y),
        y != 0,
        !(x == i32::MIN && y == -1),
    ensures
        ({
            let d = spec_num_binary(m, NumOp::Div);
            let e = spec_num_binary(m, NumOp::Rem);
            &&& d.1 == Ok::<(), Error>(())
            &&& e.1 == Ok::<(), Error>(())
            &&& d.0.stack.len() == m.stack.len() - 1
            &&& e.0.stack.len() == m.stack.len() - 1
            &&& d.0.stack.last() matches Word::Numeric(q) && e.0.stack.last() matches Word::Numeric(r) && q * y + r
                == x && (if r >= 0 { r as int } else { -r }) < (if y >= 0 { y as int } else { -y }) && (x >= 0 ==> r
                >= 0) && (x <= 0 ==> r <= 0)
        }),
{
    lemma_trunc_div_rem(x, y);
}

/// Rounding towards zero: `trunc_div(x, y) * y + trunc_rem(x, y) == x`, with
/// the remainder smaller than `y` in size and of the sign of `x`, and both
/// fit in an `i32` outside the one overflowing case.
proof fn lemma_trunc_div_rem(x: i32, y: i32)
    requires
        y != 0,
        !(x == i32::MIN && y == -1),
    ensures
        trunc_div(x, y) * y + trunc_rem(x, y) == x,
        (if trunc_rem(x, y) >= 0 { trunc_rem(x, y) } else { -trunc_rem(x, y) }) < (if y >= 0 { y as int } else { -y }),
        x >= 0 ==> trunc_rem(x, y) >= 0,
        x <= 0 ==> trunc_rem(x, y) <= 0,
        i32::MIN <= trunc_div(x, y) <= i32::MAX,
        i32::MIN <= trunc_rem(x, y) <= i32::MAX,
{
    let a: int = if x >= 0 { x as int } else { -(x as int) };
    let b: int = y as int;
    let q: int = a / b;
    let r: int = a % b;
    let bb: int = if b >= 0 { b } else { -b };
    assert(a == b * q + r && 0 <= r < bb) by (nonlinear_arith)
        requires
            b != 0,
            a >= 0,
            q == a / b,
            r == a % b,
            bb == if b >= 0 { b } else { -b },
    ;
    assert((if q >= 0 { q } else { -q }) <= a) by (nonlinear_arith)
        requires
            a == b * q + r,
            0 <= r < bb,
            bb == if b >= 0 { b } else { -b },
            bb >= 1,
            a >= 0,
    ;
    assert(a == 0 ==> r == 0) by (nonlinear_arith)
        requires
            a == b * q + r,
            0 <= r < bb,
            bb == if b >= 0 { b } else { -b },
            bb >= 1,
    ;
    assert((if q >= 0 { q } else { -q }) == a && a > 0 ==> r == 0 && bb == 1) by (nonlinear_arith)
        requires
            a == b * q + r,
            0 <= r < bb,
            bb == if b >= 0 { b } else { -b },
            bb >= 1,
    ;
    assert(q * b == b * q) by (nonlinear_arith);
    assert((-q) * b == -(b * q)) by (nonlinear_arith);
    if x >= 0 {
        assert(trunc_div(x, y) == q);
        assert(trunc_rem(x, y) == r);
    } else {
        assert(trunc_div(x, y) == -q);
        assert(trunc_rem(x, y) == -r);
        if q == -a {
            assert(b == -1) by (nonlinear_arith)
                requires
                    a == b * q + r,
                    r == 0,
                    q == -a,
                    a > 0,
            ;
        }
    }
}

/// The numeric operations on one number `x` on top: `Neg` leaves `-x`,
/// `Inc` leaves `x + 1`, `Dec` leaves `x - 1`, and `Abs` leaves `x` when it
/// is not negative and `-x` when it is, where the result fits in an `i32`.
pub proof fn lemma_unary_ops_meaning(m: MemoryView, x: i32)
    requires
        has_operands(m, 1),
        top(m) == Word::Numeric(x),
    ensures
        ({
            let replaced = |w: Word|
                MemoryView { stack: m.stack.take(m.stack.len() - 1).push(w), pc: (m.pc + 1) as usize, ..m };
            &&& x != i32::MIN ==> spec_num_unary(m, UnaryOp::Neg) == (replaced(Word::Numeric(-x as i32)), Ok::<(), Error>(()))
            &&& x != i32::MAX ==> spec_num_unary(m, UnaryOp::Inc) == (replaced(Word::Numeric((x + 1) as i32)), Ok::<(), Error>(()))
            &&& x != i32::MIN ==> spec_num_unary(m, UnaryOp::Dec) == (replaced(Word::Numeric((x - 1) as i32)), Ok::<(), Error>(()))
            &&& x >= 0 ==> spec_num_unary(m, UnaryOp::Abs) == (replaced(Word::Numeric(x)), Ok::<(), Error>(()))
            &&& i32::MIN < x < 0 ==> spec_num_unary(m, UnaryOp::Abs) == (replaced(Word::Numeric(-x as i32)), Ok::<(), Error>(()))
        }),
{
}


/// A conditional jump takes the boolean on top off the stack, and goes to
/// `address` when it is true and to the next instruction when it is false.
pub proof fn lemma_ifjmp_meaning(m: MemoryView, address: usize, x: bool)
    requires
        has_operands(m, 1),
        top(m) == Word::Boolean(x),
    ensures
        spec_ifjmp(m, address).1 == Ok::<(), Error>(()),
        spec_ifjmp(m, address).0.stack == m.stack.take(m.stack.len() - 1),
        x ==> spec_ifjmp(m, address).0.pc == address,
        !x ==> spec_ifjmp(m, address).0.pc == m.pc + 1 || m.pc == usize::MAX,
{
}

} // verus!
