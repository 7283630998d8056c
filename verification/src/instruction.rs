//! The instruction a transaction carries, read from its bytes, and the run
//! of a card action that it asks for.
//!
//! An instruction is a one-byte tag (`0` for the only instruction there is),
//! then, in the layout of `borsh`, the index of the card type, the index of
//! the action and the arguments: a little-endian `u32` count, then each
//! argument as a variant byte (`0` for a number, `1` for a boolean) followed
//! by the number (four little-endian bytes) or the boolean (one byte, `0` or
//! `1`).

use vstd::prelude::*;
use borsh::BorshDeserialize;
use crate::board::Board;
use crate::board::verification_board::VerificationBoard;
use crate::byte_order::u32_from_le;
use crate::error::VMError;
use crate::instruction_rom::InstructionRom;
use crate::rom::CardTypesRom;
use crate::vm::VM;
use crate::vm::enums::SingleExecutionResult;
use crate::vm::memory::spec_init_memory;
use crate::vm::step::{VmState, run_panics, spec_run};
use crate::word::Word;

verus! {

#[verifier::external_type_specification]
#[verifier::external_body]
pub struct ExIoError(std::io::Error);

/// `<u8 as BorshDeserialize>::deserialize`: takes the first byte off `buf`;
/// an empty `buf` is an error.
#[verifier::external_body]
fn borsh_u8(buf: &mut &[u8]) -> (r: Result<u8, std::io::Error>)
    ensures
        old(buf)@.len() >= 1 ==> r == Ok::<u8, std::io::Error>(old(buf)@[0]) && final(buf)@ == old(buf)@.skip(1),
        old(buf)@.len() < 1 ==> r is Err,
{
    u8::deserialize(buf)
}

/// `<u32 as BorshDeserialize>::deserialize`: takes four little-endian bytes
/// off `buf`; fewer than four bytes is an error.
#[verifier::external_body]
fn borsh_u32(buf: &mut &[u8]) -> (r: Result<u32, std::io::Error>)
    ensures
        old(buf)@.len() >= 4 ==> r == Ok::<u32, std::io::Error>(
            u32_from_le(old(buf)@[0], old(buf)@[1], old(buf)@[2], old(buf)@[3]),
        ) && final(buf)@ == old(buf)@.skip(4),
        old(buf)@.len() < 4 ==> r is Err,
{
    u32::deserialize(buf)
}

/// `<i32 as BorshDeserialize>::deserialize`: takes four little-endian bytes
/// (two's complement) off `buf`; fewer than four bytes is an error.
#[verifier::external_body]
fn borsh_i32(buf: &mut &[u8]) -> (r: Result<i32, std::io::Error>)
    ensures
        old(buf)@.len() >= 4 ==> r == Ok::<i32, std::io::Error>(
            u32_from_le(old(buf)@[0], old(buf)@[1], old(buf)@[2], old(buf)@[3]) as i32,
        ) && final(buf)@ == old(buf)@.skip(4),
        old(buf)@.len() < 4 ==> r is Err,
{
    i32::deserialize(buf)
}

/// `<bool as BorshDeserialize>::deserialize`: takes one byte off `buf`,
/// which must be `0` (false) or `1` (true); anything else, or an empty
/// `buf`, is an error.
#[verifier::external_body]
fn borsh_bool(buf: &mut &[u8]) -> (r: Result<bool, std::io::Error>)
    ensures
        old(buf)@.len() >= 1 && old(buf)@[0] <= 1 ==> r == Ok::<bool, std::io::Error>(old(buf)@[0] == 1)
            && final(buf)@ == old(buf)@.skip(1),
        old(buf)@.len() < 1 || old(buf)@[0] > 1 ==> r is Err,
{
    bool::deserialize(buf)
}

/// How many instructions the run of one action may take.
pub const MAX_NUM_OF_VM_INSTRUCTION: usize = 1_000;

/// What a transaction asks the program to do.
pub enum VMInstruction {
    /// Run action `action_index` of the card type at `cardtype_index` with
    /// `args`. Accounts expected: the signer performing the move, the card
    /// types, the instruction ROM, and the (writable) board.
    ProcessAction { cardtype_index: u32, action_index: u32, args: Vec<Word> },
}

/// Why the bytes of an instruction could not be read.
#[derive(Debug)]
pub enum UnpackError {
    /// The tag is unknown, or fewer than eight bytes follow it.
    InvalidInstructionData,
    /// `borsh` could not read a value: the bytes ran out, or a boolean was
    /// neither `0` nor `1`.
    Borsh(std::io::Error),
    /// An argument starts with a variant byte other than `0` and `1`.
    UnexpectedVariant(u8),
}

/// What reading bytes gives, as plain values.
pub enum Parsed<T> {
    /// The value, and the bytes after it.
    Value(T, Seq<u8>),
    /// `borsh` refused the bytes.
    BorshError,
    /// An argument with this variant byte.
    UnexpectedVariant(u8),
}

/// An argument read from the front of `b`.
pub open spec fn parse_word(b: Seq<u8>) -> Parsed<Word> {
    if b.len() < 1 {
        Parsed::BorshError
    } else if b[0] == 0 {
        if b.len() < 5 {
            Parsed::BorshError
        } else {
            Parsed::Value(Word::Numeric(u32_from_le(b[1], b[2], b[3], b[4]) as i32), b.skip(5))
        }
    } else if b[0] == 1 {
        if b.len() < 2 || b[1] > 1 {
            Parsed::BorshError
        } else {
            Parsed::Value(Word::Boolean(b[1] == 1), b.skip(2))
        }
    } else {
        Parsed::UnexpectedVariant(b[0])
    }
}

/// `n` arguments read one after another from the front of `b`.
pub open spec fn parse_words(b: Seq<u8>, n: nat) -> Parsed<Seq<Word>>
    decreases n,
{
    if n == 0 {
        Parsed::Value(Seq::empty(), b)
    } else {
        match parse_words(b, (n - 1) as nat) {
            Parsed::Value(ws, rest) => match parse_word(rest) {
                Parsed::Value(w, rest2) => Parsed::Value(ws.push(w), rest2),
                Parsed::BorshError => Parsed::BorshError,
                Parsed::UnexpectedVariant(v) => Parsed::UnexpectedVariant(v),
            },
            Parsed::BorshError => Parsed::BorshError,
            Parsed::UnexpectedVariant(v) => Parsed::UnexpectedVariant(v),
        }
    }
}

/// The argument list read from the front of `b`: its count, then the arguments.
pub open spec fn parse_args(b: Seq<u8>) -> Parsed<Seq<Word>> {
    if b.len() < 4 {
        Parsed::BorshError
    } else {
        parse_words(b.skip(4), u32_from_le(b[0], b[1], b[2], b[3]) as nat)
    }
}

/// What an instruction's bytes say, as plain values.
pub enum UnpackedView {
    ProcessAction { cardtype_index: u32, action_index: u32, args: Seq<Word> },
    InvalidInstructionData,
    BorshError,
    UnexpectedVariant(u8),
}

/// What `input` says: the tag must be `0` and at least eight bytes must
/// follow it; then come the two indices and the arguments. Bytes after the
/// arguments are not looked at.
pub open spec fn spec_unpack(input: Seq<u8>) -> UnpackedView {
    if input.len() < 1 {
        UnpackedView::BorshError
    } else {
        let data = input.skip(1);
        if data.len() < 8 || input[0] != 0 {
            UnpackedView::InvalidInstructionData
        } else {
            match parse_args(data.skip(8)) {
                Parsed::Value(args, _) => UnpackedView::ProcessAction {
                    cardtype_index: u32_from_le(data[0], data[1], data[2], data[3]),
                    action_index: u32_from_le(data[4], data[5], data[6], data[7]),
                    args,
                },
                Parsed::BorshError => UnpackedView::BorshError,
                Parsed::UnexpectedVariant(v) => UnpackedView::UnexpectedVariant(v),
            }
        }
    }
}

/// Reads one argument from the front of `data`.
fn read_word(data: &mut &[u8]) -> (r: Result<Word, UnpackError>)
    ensures
        match parse_word(old(data)@) {
            Parsed::Value(w, rest) => r matches Ok(x) && x == w && final(data)@ == rest,
            Parsed::BorshError => r matches Err(UnpackError::Borsh(_)),
            Parsed::UnexpectedVariant(v) => r matches Err(UnpackError::UnexpectedVariant(x)) && x == v,
        },
{
    let variant = match borsh_u8(data) {
        Ok(v) => v,
        Err(e) => return Err(UnpackError::Borsh(e)),
    };
    if variant == 0 {
        match borsh_i32(data) {
            Ok(i) => Ok(Word::Numeric(i)),
            Err(e) => Err(UnpackError::Borsh(e)),
        }
    } else if variant == 1 {
        match borsh_bool(data) {
            Ok(b) => Ok(Word::Boolean(b)),
            Err(e) => Err(UnpackError::Borsh(e)),
        }
    } else {
        Err(UnpackError::UnexpectedVariant(variant))
    }
}

/// Reads the argument list from the front of `data`.
fn read_args(data: &mut &[u8]) -> (r: Result<Vec<Word>, UnpackError>)
    ensures
        match parse_args(old(data)@) {
            Parsed::Value(ws, rest) => r matches Ok(x) && x@ == ws && final(data)@ == rest,
            Parsed::BorshError => r matches Err(UnpackError::Borsh(_)),
            Parsed::UnexpectedVariant(v) => r matches Err(UnpackError::UnexpectedVariant(x)) && x == v,
        },
{
    let ghost b = old(data)@;
    let len = match borsh_u32(data) {
        Ok(n) => n,
        Err(e) => return Err(UnpackError::Borsh(e)),
    };
    let ghost start = data@;
    let mut args: Vec<Word> = Vec::new();
    let mut i: u32 = 0;
    while i < len
        invariant
            i <= len,
            b == old(data)@,
            b.len() >= 4,
            start == b.skip(4),
            len == u32_from_le(b[0], b[1], b[2], b[3]),
            parse_words(start, i as nat) == Parsed::Value(args@, data@),
        decreases len - i,
    {
        let word = match read_word(data) {
            Ok(w) => w,
            Err(e) => {
                proof {
                    lemma_parse_words_stops(start, (i + 1) as nat, len as nat);
                }
                return Err(e);
            },
        };
        args.push(word);
        i = i + 1;
    }
    Ok(args)
}

/// Once reading the first `k` arguments fails, reading more fails the same way.
proof fn lemma_parse_words_stops(b: Seq<u8>, k: nat, n: nat)
    requires
        k <= n,
        !(parse_words(b, k) is Value),
    ensures
        parse_words(b, n) == parse_words(b, k),
    decreases n - k,
{
    if k < n {
        lemma_parse_words_stops(b, k, (n - 1) as nat);
    }
}

impl VMInstruction {
    /// Reads an instruction from its bytes; see [`spec_unpack`].
    pub fn unpack(input: &[u8]) -> (r: Result<Self, UnpackError>)
        ensures
            match spec_unpack(input@) {
                UnpackedView::ProcessAction { cardtype_index, action_index, args } => r matches Ok(
                    VMInstruction::ProcessAction { cardtype_index: c, action_index: a, args: x },
                ) && c == cardtype_index && a == action_index && x@ == args,
                UnpackedView::InvalidInstructionData => r matches Err(UnpackError::InvalidInstructionData),
                UnpackedView::BorshError => r matches Err(UnpackError::Borsh(_)),
                UnpackedView::UnexpectedVariant(v) => r matches Err(UnpackError::UnexpectedVariant(x)) && x == v,
            },
    {
        let mut data = input;
        let tag = match borsh_u8(&mut data) {
            Ok(t) => t,
            Err(e) => return Err(UnpackError::Borsh(e)),
        };
        if data.len() >= 8 {
            if tag == 0 {
                let ghost d = data@;
                let cardtype_index = match borsh_u32(&mut data) {
                    Ok(v) => v,
                    Err(e) => return Err(UnpackError::Borsh(e)),
                };
                let action_index = match borsh_u32(&mut data) {
                    Ok(v) => v,
                    Err(e) => return Err(UnpackError::Borsh(e)),
                };
                proof {
                    assert(data@ =~= d.skip(8));
                }
                let args = match read_args(&mut data) {
                    Ok(a) => a,
                    Err(e) => return Err(e),
                };
                Ok(Self::ProcessAction { cardtype_index, action_index, args })
            } else {
                Err(UnpackError::InvalidInstructionData)
            }
        } else {
            Err(UnpackError::InvalidInstructionData)
        }
    }

    /// The state a run of the action starts from, on `board`.
    pub open spec fn start_state(&self, board: &VerificationBoard) -> VmState {
        match self {
            VMInstruction::ProcessAction { cardtype_index, action_index, args } => VmState {
                memory: spec_init_memory(args@, *cardtype_index, *action_index),
                board: board.board_view(),
                log: Seq::empty(),
            },
        }
    }

    /// Runs the action on `board` for at most [`MAX_NUM_OF_VM_INSTRUCTION`]
    /// instructions: `Ok(Ok(()))` when it finishes,
    /// `Ok(Err(VMError::ComputationNotFinished))` when it is still running
    /// then, and `Err` with the VM's error when the run fails.
    pub fn try_process_on_board(
        &self,
        instructions: InstructionRom,
        card_types: CardTypesRom,
        board: &mut VerificationBoard,
    ) -> (r: Result<Result<(), VMError>, crate::vm::error::Error>)
        requires
            !run_panics(instructions@, card_types@, self.start_state(old(board)), MAX_NUM_OF_VM_INSTRUCTION as nat),
        ensures
            ({
                let run = spec_run(instructions@, card_types@, self.start_state(old(board)), MAX_NUM_OF_VM_INSTRUCTION as nat);
                &&& final(board).board_view() == run.0.board
                &&& final(board)@.owner_stack == old(board)@.owner_stack
                &&& final(board)@.player_id == old(board)@.player_id
                &&& final(board)@.regions.len() == old(board)@.regions.len()
                &&& forall|i: int|
                    0 <= i < old(board)@.regions.len() ==> #[trigger] final(board)@.regions[i].owner_id
                        == old(board)@.regions[i].owner_id
                &&& r == match run.1 {
                    Ok(SingleExecutionResult::Finished) => Ok::<Result<(), VMError>, crate::vm::error::Error>(Ok(())),
                    Ok(SingleExecutionResult::Unfinished) => Ok(Err(VMError::ComputationNotFinished)),
                    Err(e) => Err(e),
                }
            }),
    {
        match self {
            VMInstruction::ProcessAction { cardtype_index, action_index, args } => {
                let mut vm = VM::init_vm(instructions, card_types, board, args.as_slice(), *cardtype_index, *action_index);
                let result = match vm.execute(MAX_NUM_OF_VM_INSTRUCTION) {
                    Ok(SingleExecutionResult::Finished) => Ok(Ok(())),
                    Ok(SingleExecutionResult::Unfinished) => Ok(Err(VMError::ComputationNotFinished)),
                    Err(e) => Err(e),
                };
                proof {
                    assert(board.setup() == old(board).setup());
                    assert(board.setup().owners.len() == board@.regions.len());
                    assert(old(board).setup().owners.len() == old(board)@.regions.len());
                    assert(board@.owner_stack == board.setup().owner_stack);
                    assert(board@.player_id == board.setup().player_id);
                    assert forall|i: int| 0 <= i < old(board)@.regions.len() implies #[trigger] board@.regions[i].owner_id
                        == old(board)@.regions[i].owner_id by {
                        assert(board.setup().owners[i] == old(board).setup().owners[i]);
                    }
                }
                result
            },
        }
    }

    /// Runs the action on `board` for at most [`MAX_NUM_OF_VM_INSTRUCTION`]
    /// instructions: success when it finishes, and
    /// [`VMError::ComputationNotFinished`] when it is still running then.
    /// A run that fails is not handled, and is left out; see
    /// [`VMInstruction::try_process_on_board`] for one that reports it.
    pub fn process_on_board(
        &self,
        instructions: InstructionRom,
        card_types: CardTypesRom,
        board: &mut VerificationBoard,
    ) -> (r: Result<(), VMError>)
        requires
            !run_panics(instructions@, card_types@, self.start_state(old(board)), MAX_NUM_OF_VM_INSTRUCTION as nat),
            spec_run(instructions@, card_types@, self.start_state(old(board)), MAX_NUM_OF_VM_INSTRUCTION as nat).1 is Ok,
        ensures
            ({
                let run = spec_run(instructions@, card_types@, self.start_state(old(board)), MAX_NUM_OF_VM_INSTRUCTION as nat);
                &&& final(board).board_view() == run.0.board
                &&& final(board)@.owner_stack == old(board)@.owner_stack
                &&& final(board)@.player_id == old(board)@.player_id
                &&& final(board)@.regions.len() == old(board)@.regions.len()
                &&& forall|i: int|
                    0 <= i < old(board)@.regions.len() ==> #[trigger] final(board)@.regions[i].owner_id
                        == old(board)@.regions[i].owner_id
                &&& run.1 == Ok::<SingleExecutionResult, crate::vm::error::Error>(SingleExecutionResult::Finished) ==> r == Ok::<(), VMError>(())
                &&& run.1 == Ok::<SingleExecutionResult, crate::vm::error::Error>(SingleExecutionResult::Unfinished) ==> r == Err::<(), VMError>(VMError::ComputationNotFinished)
            }),
    {
        match self.try_process_on_board(instructions, card_types, board) {
            Ok(result) => result,
            // Unreachable: the caller rules out a failing run.
            Err(_) => Err(VMError::ComputationNotFinished),
        }
    }
}

/// The serialized board, followed by zeros up to the size of its account,
/// which must hold it.
pub fn fit_to_account(serialized: Vec<u8>, account_len: usize) -> (r: Vec<u8>)
    requires
        serialized@.len() <= account_len,
    ensures
        r@ == serialized@ + Seq::new((account_len - serialized@.len()) as nat, |i: int| 0u8),
{
    let ghost start = serialized@;
    let mut out = serialized;
    while out.len() < account_len
        invariant
            start.len() <= out@.len() <= account_len,
            out@ == start + Seq::new((out@.len() - start.len()) as nat, |i: int| 0u8),
        decreases account_len - out@.len(),
    {
        out.push(0u8);
        proof {
            assert(out@ =~= start + Seq::new((out@.len() - start.len()) as nat, |i: int| 0u8));
        }
    }
    out
}


/// The four `borsh` bytes of a 32-bit number, least significant first.
pub open spec fn u32_bytes(x: u32) -> Seq<u8> {
    seq![(x % 256) as u8, ((x / 256) % 256) as u8, ((x / 65536) % 256) as u8, (x / 16777216) as u8]
}

/// The `borsh` bytes of an argument: variant byte `0` and the number's four
/// bytes, or variant byte `1` and `1` for true, `0` for false.
pub open spec fn word_bytes(w: Word) -> Seq<u8> {
    match w {
        Word::Numeric(v) => seq![0u8] + u32_bytes(v as u32),
        Word::Boolean(b) => seq![1u8, if b { 1u8 } else { 0u8 }],
    }
}

/// The `borsh` bytes of arguments written one after another.
pub open spec fn words_bytes(ws: Seq<Word>) -> Seq<u8>
    decreases ws.len(),
{
    if ws.len() == 0 {
        Seq::empty()
    } else {
        words_bytes(ws.drop_last()) + word_bytes(ws.last())
    }
}

/// The bytes of an instruction that runs action `action_index` of card type
/// `cardtype_index` with arguments `args`: tag `0`, the two indices, the
/// number of arguments, then the arguments, all as `borsh` writes them.
pub open spec fn instruction_bytes(cardtype_index: u32, action_index: u32, args: Seq<Word>) -> Seq<u8> {
    seq![0u8] + u32_bytes(cardtype_index) + u32_bytes(action_index) + u32_bytes(args.len() as u32) + words_bytes(args)
}

/// Reading back the four bytes of `x` gives `x`.
proof fn lemma_u32_bytes(x: u32)
    ensures
        u32_from_le(u32_bytes(x)[0], u32_bytes(x)[1], u32_bytes(x)[2], u32_bytes(x)[3]) == x,
{
    assert(((x % 256) as u8 as u32) | ((((x / 256) % 256) as u8 as u32) << 8u32) | ((((x / 65536) % 256) as u8
        as u32) << 16u32) | (((x / 16777216) as u8 as u32) << 24u32) == x) by (bit_vector);
}

/// An argument is read back from its `borsh` bytes, whatever follows them.
pub proof fn lemma_parse_word_bytes(w: Word, tail: Seq<u8>)
    ensures
        parse_word(word_bytes(w) + tail) == Parsed::Value(w, tail),
{
    let b = word_bytes(w) + tail;
    match w {
        Word::Numeric(v) => {
            lemma_u32_bytes(v as u32);
            crate::byte_order::lemma_i32_bits_roundtrip(v);
            assert(b.skip(5) =~= tail);
        },
        Word::Boolean(x) => {
            assert(b.skip(2) =~= tail);
        },
    }
}

/// Arguments are read back, in order, from their `borsh` bytes, whatever
/// follows them.
pub proof fn lemma_parse_words_bytes(ws: Seq<Word>, tail: Seq<u8>)
    ensures
        parse_words(words_bytes(ws) + tail, ws.len()) == Parsed::Value(ws, tail),
    decreases ws.len(),
{
    if ws.len() > 0 {
        let init = ws.drop_last();
        let w = ws.last();
        lemma_parse_words_bytes(init, word_bytes(w) + tail);
        assert(words_bytes(ws) + tail =~= words_bytes(init) + (word_bytes(w) + tail));
        assert(parse_words(words_bytes(ws) + tail, (ws.len() - 1) as nat) == Parsed::Value(init, word_bytes(w) + tail));
        lemma_parse_word_bytes(w, tail);
        assert(init.push(w) =~= ws);
    } else {
        assert(words_bytes(ws) + tail =~= tail);
        assert(ws =~= Seq::<Word>::empty());
    }
}

/// Unpacking the bytes of an instruction, as `borsh` writes it, gives back
/// the instruction: its card type, its action and each of its arguments,
/// whatever bytes follow.
pub proof fn lemma_unpack_instruction_bytes(cardtype_index: u32, action_index: u32, args: Seq<Word>, tail: Seq<u8>)
    requires
        args.len() <= u32::MAX,
    ensures
        spec_unpack(instruction_bytes(cardtype_index, action_index, args) + tail) == (UnpackedView::ProcessAction {
            cardtype_index,
            action_index,
            args,
        }),
{
    let input = instruction_bytes(cardtype_index, action_index, args) + tail;
    let data = input.skip(1);
    let n = args.len() as u32;
    lemma_u32_bytes(cardtype_index);
    lemma_u32_bytes(action_index);
    lemma_u32_bytes(n);
    lemma_parse_words_bytes(args, tail);
    assert(data =~= u32_bytes(cardtype_index) + u32_bytes(action_index) + u32_bytes(n) + words_bytes(args) + tail);
    assert(data.skip(8) =~= u32_bytes(n) + words_bytes(args) + tail);
    assert(data.skip(8).skip(4) =~= words_bytes(args) + tail);
}

} // verus!
