//! The read-only program of a VM that runs on a board.

use vstd::prelude::*;
use crate::vmcommand::{CommandByteCode, VMCommand, spec_decode, spec_encode, lemma_decode_encode};

verus! {

/// The instructions of the program, in order.
#[derive(Debug, PartialEq, Eq)]
pub struct InstructionRom<'a> {
    instructions: &'a [VMCommand],
}

impl<'a> View for InstructionRom<'a> {
    type V = Seq<VMCommand>;

    closed spec fn view(&self) -> Seq<VMCommand> {
        self.instructions@
    }
}

impl<'a> InstructionRom<'a> {
    /// The instruction at address `pc`.
    pub fn fetch_instruction(&self, pc: usize) -> (r: VMCommand)
        requires
            pc < self@.len(),
        ensures
            r == self@[pc as int],
    {
        self.instructions[pc]
    }

    /// The program made of the given instructions.
    pub fn from_raw_parts(instructions: &'a [VMCommand]) -> (r: Self)
        ensures
            r@ == instructions@,
    {
        Self { instructions }
    }
}

/// Why bytes could not be read as a program.
#[derive(Debug, Clone, Copy, PartialEq, Eq, Structural)]
pub enum Error {
    /// The bytes are not a whole number of five-byte instructions.
    WrongSize,
    /// The instruction at this position has no meaning.
    IllegalInstruction { index: usize },
}

/// The `k`-th five-byte instruction of `bytes`.
pub open spec fn chunk(bytes: Seq<u8>, k: int) -> CommandByteCode {
    [bytes[5 * k], bytes[5 * k + 1], bytes[5 * k + 2], bytes[5 * k + 3], bytes[5 * k + 4]]
}

/// The first `n` instructions of `bytes`, or the position of the first of
/// them that has no meaning.
pub open spec fn decode_chunks(bytes: Seq<u8>, n: nat) -> Result<Seq<VMCommand>, usize>
    decreases n,
{
    if n == 0 {
        Ok(Seq::empty())
    } else {
        match decode_chunks(bytes, (n - 1) as nat) {
            Ok(cs) => match spec_decode(chunk(bytes, n - 1)) {
                Ok(c) => Ok(cs.push(c)),
                Err(_) => Err((n - 1) as usize),
            },
            Err(k) => Err(k),
        }
    }
}

/// The program that `bytes` hold: five bytes per instruction, each read as
/// [`VMCommand::from_bytecode`] reads it.
pub open spec fn spec_decode_program(bytes: Seq<u8>) -> Result<Seq<VMCommand>, Error> {
    if bytes.len() % 5 != 0 {
        Err(Error::WrongSize)
    } else {
        match decode_chunks(bytes, (bytes.len() / 5) as nat) {
            Ok(cs) => Ok(cs),
            Err(k) => Err(Error::IllegalInstruction { index: k }),
        }
    }
}

/// Reads a program from its bytecode; see [`spec_decode_program`].
pub fn decode_program(bytes: &[u8]) -> (r: Result<Vec<VMCommand>, Error>)
    ensures
        match spec_decode_program(bytes@) {
            Ok(cs) => r matches Ok(v) && v@ == cs,
            Err(e) => r == Err::<Vec<VMCommand>, Error>(e),
        },
{
    if bytes.len() % 5 != 0 {
        return Err(Error::WrongSize);
    }
    let len = bytes.len();
    let n = len / 5;
    let mut commands: Vec<VMCommand> = Vec::new();
    let mut k: usize = 0;
    while k < n
        invariant
            k <= n,
            len == bytes@.len(),
            n == bytes@.len() / 5,
            bytes@.len() % 5 == 0,
            decode_chunks(bytes@, k as nat) == Ok::<Seq<VMCommand>, usize>(commands@),
        decreases n - k,
    {
        proof {
            assert(5 * k + 5 <= len) by (nonlinear_arith)
                requires
                    k < n,
                    n == len / 5,
                    len % 5 == 0,
            ;
        }
        let i = 5 * k;
        let word: CommandByteCode = [bytes[i], bytes[i + 1], bytes[i + 2], bytes[i + 3], bytes[i + 4]];
        proof {
            assert(word == chunk(bytes@, k as int));
        }
        match VMCommand::from_bytecode(word) {
            Ok(c) => commands.push(c),
            Err(_) => {
                proof {
                    lemma_decode_chunks_stops(bytes@, (k + 1) as nat, n as nat);
                }
                return Err(Error::IllegalInstruction { index: k });
            },
        }
        k = k + 1;
    }
    Ok(commands)
}

/// Once one of the first `k` instructions has no meaning, the first of them
/// stays the answer however many more are read.
proof fn lemma_decode_chunks_stops(bytes: Seq<u8>, k: nat, n: nat)
    requires
        k <= n,
        decode_chunks(bytes, k) is Err,
    ensures
        decode_chunks(bytes, n) == decode_chunks(bytes, k),
    decreases n - k,
{
    if k < n {
        lemma_decode_chunks_stops(bytes, k, (n - 1) as nat);
    }
}

/// The bytecode of a program: the bytecode of each instruction, in order.
pub open spec fn encode_program(cs: Seq<VMCommand>) -> Seq<u8>
    decreases cs.len(),
{
    if cs.len() == 0 {
        Seq::empty()
    } else {
        encode_program(cs.drop_last()) + spec_encode(cs.last())@
    }
}

/// The bytecode of a program has five bytes per instruction, and the `k`-th
/// five are the bytecode of the `k`-th instruction.
proof fn lemma_encode_program_chunks(cs: Seq<VMCommand>)
    ensures
        encode_program(cs).len() == 5 * cs.len(),
        forall|k: int| 0 <= k < cs.len() ==> #[trigger] chunk(encode_program(cs), k) == spec_encode(cs[k]),
    decreases cs.len(),
{
    if cs.len() > 0 {
        let init = cs.drop_last();
        lemma_encode_program_chunks(init);
        let e = encode_program(cs);
        assert forall|k: int| 0 <= k < cs.len() implies #[trigger] chunk(e, k) == spec_encode(cs[k]) by {
            if k < cs.len() - 1 {
                assert(chunk(encode_program(init), k) == spec_encode(init[k]));
                assert(chunk(e, k) =~= chunk(encode_program(init), k));
            } else {
                assert(chunk(e, k) =~= spec_encode(cs.last()));
            }
        }
    }
}

/// Reading back the bytecode of a program gives the program, when no call
/// in it has an address past 24 bits (a call keeps three bytes of address).
pub proof fn lemma_decode_encoded_program(cs: Seq<VMCommand>)
    requires
        forall|k: int| 0 <= k < cs.len() ==> (#[trigger] cs[k] matches VMCommand::Call { address, .. } ==> address
            < 0x100_0000),
    ensures
        spec_decode_program(encode_program(cs)) == Ok::<Seq<VMCommand>, Error>(cs),
{
    let e = encode_program(cs);
    lemma_encode_program_chunks(cs);
    assert((5 * cs.len()) % 5 == 0) by (nonlinear_arith);
    assert((5 * cs.len()) / 5 == cs.len()) by (nonlinear_arith);
    lemma_decode_prefix(cs, cs.len());
    assert(cs.take(cs.len() as int) =~= cs);
}

/// Decoding the first `n` instructions of a program's bytecode gives its
/// first `n` instructions.
proof fn lemma_decode_prefix(cs: Seq<VMCommand>, n: nat)
    requires
        n <= cs.len(),
        forall|k: int| 0 <= k < cs.len() ==> (#[trigger] cs[k] matches VMCommand::Call { address, .. } ==> address
            < 0x100_0000),
        forall|k: int| 0 <= k < cs.len() ==> #[trigger] chunk(encode_program(cs), k) == spec_encode(cs[k]),
    ensures
        decode_chunks(encode_program(cs), n) == Ok::<Seq<VMCommand>, usize>(cs.take(n as int)),
    decreases n,
{
    if n == 0 {
        assert(cs.take(0) =~= Seq::<VMCommand>::empty());
    } else {
        lemma_decode_prefix(cs, (n - 1) as nat);
        let k = n - 1;
        assert(chunk(encode_program(cs), k) == spec_encode(cs[k]));
        lemma_decode_encode(cs[k]);
        assert(cs.take(k).push(cs[k]) =~= cs.take(n as int));
    }
}

} // verus!
