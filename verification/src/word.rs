//! A single cell of the VM's stack: either a signed number or a boolean.

use vstd::prelude::*;

verus! {

/// One stack cell holds either a number or a logical value.  Operations check
/// that the value has the expected kind, so `1 + true` is rejected.
#[derive(Clone, Copy, Debug, PartialEq, Eq, Structural)]
pub enum Word {
    Numeric(i32),
    Boolean(bool),
}

/// Why a [`Word`] could not be converted into a plain Rust value.
#[derive(Clone, Copy, Debug, PartialEq, Eq, Structural)]
pub enum ConversionError {
    WasNumeric,
    WasBoolean,
    NegativeNumeric,
}

/// The number held by a word, as a signed 32-bit value.
pub open spec fn spec_word_to_i32(w: Word) -> Result<i32, ConversionError> {
    match w {
        Word::Numeric(v) => Ok(v),
        Word::Boolean(_) => Err(ConversionError::WasBoolean),
    }
}

/// The logical value held by a word.
pub open spec fn spec_word_to_bool(w: Word) -> Result<bool, ConversionError> {
    match w {
        Word::Numeric(_) => Err(ConversionError::WasNumeric),
        Word::Boolean(b) => Ok(b),
    }
}

/// The number held by a word, when it is not negative, as an index.
pub open spec fn spec_word_to_usize(w: Word) -> Result<usize, ConversionError> {
    match w {
        Word::Numeric(v) => if v >= 0 {
            Ok(v as usize)
        } else {
            Err(ConversionError::NegativeNumeric)
        },
        Word::Boolean(_) => Err(ConversionError::WasBoolean),
    }
}

/// The number held by a word, when it is not negative, as an unsigned 32-bit value.
pub open spec fn spec_word_to_u32(w: Word) -> Result<u32, ConversionError> {
    match w {
        Word::Numeric(v) => if v >= 0 {
            Ok(v as u32)
        } else {
            Err(ConversionError::NegativeNumeric)
        },
        Word::Boolean(_) => Err(ConversionError::WasBoolean),
    }
}

impl Word {
    /// The number inside a numeric word; a boolean word is a caller error.
    pub fn unwrap_numeric(self) -> (r: i32)
        requires
            self is Numeric,
        ensures
            r == self->Numeric_0,
    {
        match self {
            Word::Numeric(i) => i,
            Word::Boolean(_) => i32::MIN,
        }
    }
}

impl TryFrom<Word> for i32 {
    type Error = ConversionError;

    fn try_from(value: Word) -> (r: Result<i32, ConversionError>) {
        match value {
            Word::Numeric(val) => Ok(val),
            Word::Boolean(_) => Err(ConversionError::WasBoolean),
        }
    }
}

impl vstd::std_specs::convert::TryFromSpecImpl<Word> for i32 {
    open spec fn obeys_try_from_spec() -> bool {
        true
    }

    open spec fn try_from_spec(value: Word) -> Result<i32, ConversionError> {
        spec_word_to_i32(value)
    }
}

impl TryFrom<Word> for bool {
    type Error = ConversionError;

    fn try_from(value: Word) -> (r: Result<bool, ConversionError>) {
        match value {
            Word::Numeric(_) => Err(ConversionError::WasNumeric),
            Word::Boolean(val) => Ok(val),
        }
    }
}

impl vstd::std_specs::convert::TryFromSpecImpl<Word> for bool {
    open spec fn obeys_try_from_spec() -> bool {
        true
    }

    open spec fn try_from_spec(value: Word) -> Result<bool, ConversionError> {
        spec_word_to_bool(value)
    }
}

impl TryFrom<Word> for usize {
    type Error = ConversionError;

    fn try_from(value: Word) -> (r: Result<usize, ConversionError>) {
        match value {
            Word::Numeric(val) => {
                if val >= 0 {
                    Ok(val as usize)
                } else {
                    Err(ConversionError::NegativeNumeric)
                }
            },
            Word::Boolean(_) => Err(ConversionError::WasBoolean),
        }
    }
}

impl vstd::std_specs::convert::TryFromSpecImpl<Word> for usize {
    open spec fn obeys_try_from_spec() -> bool {
        true
    }

    open spec fn try_from_spec(value: Word) -> Result<usize, ConversionError> {
        spec_word_to_usize(value)
    }
}

impl TryFrom<Word> for u32 {
    type Error = ConversionError;

    fn try_from(value: Word) -> (r: Result<u32, ConversionError>) {
        match value {
            Word::Numeric(val) => {
                if val >= 0 {
                    Ok(val as u32)
                } else {
                    Err(ConversionError::NegativeNumeric)
                }
            },
            Word::Boolean(_) => Err(ConversionError::WasBoolean),
        }
    }
}

impl vstd::std_specs::convert::TryFromSpecImpl<Word> for u32 {
    open spec fn obeys_try_from_spec() -> bool {
        true
    }

    open spec fn try_from_spec(value: Word) -> Result<u32, ConversionError> {
        spec_word_to_u32(value)
    }
}

impl Default for Word {
    fn default() -> (r: Self)
        ensures
            r == Word::Numeric(0),
    {
        Word::Numeric(0)
    }
}

impl From<i32> for Word {
    fn from(val: i32) -> (r: Self) {
        Word::Numeric(val)
    }
}

impl vstd::std_specs::convert::FromSpecImpl<i32> for Word {
    open spec fn obeys_from_spec() -> bool {
        true
    }

    open spec fn from_spec(val: i32) -> Self {
        Word::Numeric(val)
    }
}

impl From<bool> for Word {
    fn from(val: bool) -> (r: Self) {
        Word::Boolean(val)
    }
}

impl vstd::std_specs::convert::FromSpecImpl<bool> for Word {
    open spec fn obeys_from_spec() -> bool {
        true
    }

    open spec fn from_spec(val: bool) -> Self {
        Word::Boolean(val)
    }
}

/// A fresh vector holding the same words as `words`.
pub(crate) fn copy_words(words: &Vec<Word>) -> (r: Vec<Word>)
    ensures
        r@ == words@,
{
    let mut out: Vec<Word> = Vec::new();
    let mut i: usize = 0;
    while i < words.len()
        invariant
            i <= words@.len(),
            out@ == words@.take(i as int),
        decreases words@.len() - i,
    {
        out.push(words[i]);
        i = i + 1;
        proof {
            assert(words@.take(i as int) == words@.take((i - 1) as int).push(words@[i - 1]));
        }
    }
    proof {
        assert(words@.take(words@.len() as int) == words@);
    }
    out
}

/// A number or a boolean put into a word comes back out as itself, and
/// asking a word for the other kind of value is refused.
pub proof fn lemma_word_roundtrip(v: i32, b: bool)
    ensures
        spec_word_to_i32(Word::Numeric(v)) == Ok::<i32, ConversionError>(v),
        spec_word_to_bool(Word::Boolean(b)) == Ok::<bool, ConversionError>(b),
        spec_word_to_i32(Word::Boolean(b)) == Err::<i32, ConversionError>(ConversionError::WasBoolean),
        spec_word_to_bool(Word::Numeric(v)) == Err::<bool, ConversionError>(ConversionError::WasNumeric),
        v >= 0 ==> spec_word_to_usize(Word::Numeric(v)) == Ok::<usize, ConversionError>(v as usize)
            && spec_word_to_u32(Word::Numeric(v)) == Ok::<u32, ConversionError>(v as u32),
        v < 0 ==> spec_word_to_usize(Word::Numeric(v)) == Err::<usize, ConversionError>(ConversionError::NegativeNumeric),
        v < 0 ==> spec_word_to_u32(Word::Numeric(v)) == Err::<u32, ConversionError>(ConversionError::NegativeNumeric),
        v >= 0 ==> (spec_word_to_usize(Word::Numeric(v)) matches Ok(n) && n == v),
        v >= 0 ==> (spec_word_to_u32(Word::Numeric(v)) matches Ok(n) && n == v),
        spec_word_to_usize(Word::Boolean(b)) == Err::<usize, ConversionError>(ConversionError::WasBoolean),
        spec_word_to_u32(Word::Boolean(b)) == Err::<u32, ConversionError>(ConversionError::WasBoolean),
{
}

} // verus!
