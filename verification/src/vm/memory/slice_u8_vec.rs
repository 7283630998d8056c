//! The five-byte layout of a word kept in a raw byte buffer: a kind byte
//! (`0` for a boolean, `1` for a number), then the boolean as one byte
//! followed by three zeros, or the number as four little-endian bytes.

use vstd::prelude::*;
use crate::byte_order::{le_bytes_u32, u32_from_le, u32_of_le, u32_to_le, lemma_i32_bits_roundtrip, lemma_u32_le_roundtrip};
use crate::word::Word;

verus! {

/// A word as five raw bytes.
pub type InternalWord = [u8; 5];

/// The bytes a word is kept as.
pub open spec fn spec_encode_word(word: Word) -> Seq<u8> {
    match word {
        Word::Boolean(false) => seq![0u8, 0u8, 0u8, 0u8, 0u8],
        Word::Boolean(true) => seq![0u8, 1u8, 0u8, 0u8, 0u8],
        Word::Numeric(v) => seq![1u8] + le_bytes_u32(v as u32),
    }
}

/// Whether five bytes hold a word: a boolean byte of `0` or `1`, or a number.
pub open spec fn is_word_bytes(b: Seq<u8>) -> bool {
    b.len() == 5 && ((b[0] == 0 && b[1] <= 1) || b[0] == 1)
}

/// The word five bytes hold; the three bytes after a boolean are not read.
pub open spec fn spec_decode_word(b: Seq<u8>) -> Word {
    if b[0] == 0 {
        Word::Boolean(b[1] == 1)
    } else {
        Word::Numeric(u32_from_le(b[1], b[2], b[3], b[4]) as i32)
    }
}

impl Word {
    /// The word kept in `word`, which must hold one; anything else means the
    /// memory is corrupted.
    pub fn from_internal(word: InternalWord) -> (r: Word)
        requires
            is_word_bytes(word@),
        ensures
            r == spec_decode_word(word@),
    {
        let descriminant = word[0];
        if descriminant == 0 {
            Word::Boolean(word[1] == 1)
        } else {
            Word::Numeric(u32_of_le(word[1], word[2], word[3], word[4]) as i32)
        }
    }
}

impl From<Word> for InternalWord {
    fn from(word: Word) -> (r: Self) {
        match word {
            Word::Boolean(false) => [0, 0, 0, 0, 0],
            Word::Boolean(true) => [0, 1, 0, 0, 0],
            Word::Numeric(val) => {
                let b = u32_to_le(val as u32);
                [1, b[0], b[1], b[2], b[3]]
            },
        }
    }
}

impl vstd::std_specs::convert::FromSpecImpl<Word> for InternalWord {
    open spec fn obeys_from_spec() -> bool {
        true
    }

    open spec fn from_spec(word: Word) -> Self {
        match word {
            Word::Boolean(false) => [0u8, 0u8, 0u8, 0u8, 0u8],
            Word::Boolean(true) => [0u8, 1u8, 0u8, 0u8, 0u8],
            Word::Numeric(val) => {
                let b = le_bytes_u32(val as u32);
                [1u8, b[0], b[1], b[2], b[3]]
            },
        }
    }
}

/// Every word is kept as bytes that hold a word, and reading them back
/// gives the same word.
pub proof fn lemma_word_bytes_roundtrip(word: Word)
    ensures
        <InternalWord as vstd::std_specs::convert::FromSpec<Word>>::from_spec(word)@ == spec_encode_word(word),
        is_word_bytes(spec_encode_word(word)),
        spec_decode_word(spec_encode_word(word)) == word,
{
    let b = <InternalWord as vstd::std_specs::convert::FromSpec<Word>>::from_spec(word);
    assert(b@ =~= spec_encode_word(word));
    if let Word::Numeric(v) = word {
        lemma_u32_le_roundtrip(v as u32);
        lemma_i32_bits_roundtrip(v);
    }
}

} // verus!
