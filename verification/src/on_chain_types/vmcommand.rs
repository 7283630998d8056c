//! Instructions of the VM that runs on a game state, and their bytecode.

use vstd::prelude::*;
use crate::byte_order::{lemma_le_bytes_u32_value, lemma_u32_from_le_value, le_bytes_u16, le_bytes_u32, u16_from_le, u32_from_le, u16_to_le, u32_to_le, u16_of_le, u32_of_le, lemma_u16_le_roundtrip, lemma_u24_le_roundtrip, lemma_u32_le_roundtrip, lemma_i32_bits_roundtrip};
use crate::word::Word;

verus! {

/// One instruction of the VM.
#[derive(Clone, Copy, Debug, PartialEq, Eq, Structural)]
pub enum VMCommand {
    /// Halts the virtual machine.
    /// This is the only way to stop the VM.
    Halt,
    /// Returns `x + y`, where `x` is the first value from the stack and `y` is the second
    Add,
    /// Returns `x - y`, where `x` is the first value from the stack and `y` is the second
    Sub,
    /// Returns `x / y`, where `x` is the first value from the stack and `y` is the second
    Div,
    /// Returns `x * y`, where `x` is the first value from the stack and `y` is the second
    Mul,
    /// Returns `x % y`, where `x` is the first value from the stack and `y` is the second
    Rem,
    /// Negates the topmost value on the stack
    Neg,
    /// Increments the topmost value on the stack
    Inc,
    /// Decrements the topmost value on the stack
    Dec,
    /// Returns the absolute value of the topmost value from the stack
    Abs,
    /// Returns `x == y`, where `x` is the first value from the stack and `y` is the second
    Eq,
    /// Returns `x > y`, where `x` is the first value from the stack and `y` is the second
    Gt,
    /// Returns `x < y`, where `x` is the first value from the stack and `y` is the second
    Lt,
    /// Returns `x && y`, where `x` is the first value from the stack and `y` is the second
    And,
    /// Returns `x || y`, where `x` is the first value from the stack and `y` is the second
    Or,
    /// Logically negates the topmost value on the stack
    Not,
    /// Pushes external value on the stack
    PushConstant(Word),
    LoadGameStateAttr { index: u32 },
    StoreGameStateAttr { index: u32 },
    LoadLocal { index: u32 },
    StoreLocal { index: u32 },
    LoadArgument { index: u32 },
    StoreArgument { index: u32 },
    Goto(u32),
    IfGoto(u32),
    Function { n_locals: u32 },
    Call { address: u32, n_args: u8 },
    Return,
    /// For functions that does not return a value
    ReturnVoid,
    /// Pushes total number of objects to the stack
    PushObjectCount,
    /// Pushes total number of object types to the stack
    PushTypeCount,
    /// Pushes the type of the `i`-th object, where `i` is the topmost value on the stack
    PushObjectType,
    /// Pushes total number of objects with the object type popped from the stack
    PushObjectCountWithObjectType,
    /// Pushes `attr_index`-th attribute of the object type, whose index
    /// among object types is on the top of the stack
    LoadObjectTypeAttrByTypeIndex { attr_index: u32 },
    /// Pushes `attr_index`-th attribute of the object type of the object,
    /// whose index is on the top of the stack
    LoadObjectTypeAttrByObjectIndex { attr_index: u32 },
    /// Pushes `attr_index`-th attribute of the object,
    /// whose index is on the top of the stack
    LoadObjectAttr { attr_index: u32 },
    /// Pops `attr_index`-th attribute of the object,
    /// whose index is on the top of the stack
    StoreObjectAttr { attr_index: u32 },
    /// Adds an object of the type whose index is popped from the stack
    InstanceObjectByTypeIndex,
    /// Adds an object of the type whose id is popped from the stack
    InstanceObjectByTypeId,
    /// Object type index and action index should be placed on the stack
    CallObjectAction,
    RemoveObjectByIndex,
    RemoveObjectById,
}

/// The five-byte encoding of one instruction: the opcode, then its operands.
pub type CommandByteCode = [u8; 5];

/// The bytecode of an instruction.
pub open spec fn spec_encode(c: VMCommand) -> CommandByteCode {
    match c {
        VMCommand::Halt => [0, 0, 0, 0, 0],
        VMCommand::Add => [1, 0, 0, 0, 0],
        VMCommand::Sub => [2, 0, 0, 0, 0],
        VMCommand::Div => [3, 0, 0, 0, 0],
        VMCommand::Mul => [4, 0, 0, 0, 0],
        VMCommand::Rem => [5, 0, 0, 0, 0],
        VMCommand::Neg => [6, 0, 0, 0, 0],
        VMCommand::Inc => [7, 0, 0, 0, 0],
        VMCommand::Dec => [8, 0, 0, 0, 0],
        VMCommand::Abs => [9, 0, 0, 0, 0],
        VMCommand::Eq => [10, 0, 0, 0, 0],
        VMCommand::Gt => [11, 0, 0, 0, 0],
        VMCommand::Lt => [12, 0, 0, 0, 0],
        VMCommand::And => [13, 0, 0, 0, 0],
        VMCommand::Or => [14, 0, 0, 0, 0],
        VMCommand::Not => [15, 0, 0, 0, 0],
        VMCommand::PushConstant(Word::Numeric(v)) => {
            let b = le_bytes_u32(v as u32);
            [16, b[0], b[1], b[2], b[3]]
        },
        VMCommand::PushConstant(Word::Boolean(false)) => [17, 0, 0, 0, 0],
        VMCommand::PushConstant(Word::Boolean(true)) => [17, 1, 0, 0, 0],
        VMCommand::LoadGameStateAttr { index: x } => {
            let b = le_bytes_u32(x);
            [18, b[0], b[1], b[2], b[3]]
        },
        VMCommand::StoreGameStateAttr { index: x } => {
            let b = le_bytes_u32(x);
            [19, b[0], b[1], b[2], b[3]]
        },
        VMCommand::LoadLocal { index: x } => {
            let b = le_bytes_u32(x);
            [20, b[0], b[1], b[2], b[3]]
        },
        VMCommand::StoreLocal { index: x } => {
            let b = le_bytes_u32(x);
            [21, b[0], b[1], b[2], b[3]]
        },
        VMCommand::LoadArgument { index: x } => {
            let b = le_bytes_u32(x);
            [22, b[0], b[1], b[2], b[3]]
        },
        VMCommand::StoreArgument { index: x } => {
            let b = le_bytes_u32(x);
            [23, b[0], b[1], b[2], b[3]]
        },
        VMCommand::Goto(x) => {
            let b = le_bytes_u32(x);
            [24, b[0], b[1], b[2], b[3]]
        },
        VMCommand::IfGoto(x) => {
            let b = le_bytes_u32(x);
            [25, b[0], b[1], b[2], b[3]]
        },
        VMCommand::Function { n_locals: x } => {
            let b = le_bytes_u32(x);
            [26, b[0], b[1], b[2], b[3]]
        },
        VMCommand::Call { address, n_args } => {
            let b = le_bytes_u32(address);
            [27, b[0], b[1], b[2], n_args]
        },
        VMCommand::Return => [28, 0, 0, 0, 0],
        VMCommand::ReturnVoid => [29, 0, 0, 0, 0],
        VMCommand::PushObjectCount => [30, 0, 0, 0, 0],
        VMCommand::PushTypeCount => [31, 0, 0, 0, 0],
        VMCommand::PushObjectType => [32, 0, 0, 0, 0],
        VMCommand::PushObjectCountWithObjectType => [33, 0, 0, 0, 0],
        VMCommand::LoadObjectTypeAttrByTypeIndex { attr_index: x } => {
            let b = le_bytes_u32(x);
            [34, b[0], b[1], b[2], b[3]]
        },
        VMCommand::LoadObjectTypeAttrByObjectIndex { attr_index: x } => {
            let b = le_bytes_u32(x);
            [35, b[0], b[1], b[2], b[3]]
        },
        VMCommand::LoadObjectAttr { attr_index: x } => {
            let b = le_bytes_u32(x);
            [36, b[0], b[1], b[2], b[3]]
        },
        VMCommand::StoreObjectAttr { attr_index: x } => {
            let b = le_bytes_u32(x);
            [37, b[0], b[1], b[2], b[3]]
        },
        VMCommand::InstanceObjectByTypeIndex => [38, 0, 0, 0, 0],
        VMCommand::InstanceObjectByTypeId => [39, 0, 0, 0, 0],
        VMCommand::CallObjectAction => [40, 0, 0, 0, 0],
        VMCommand::RemoveObjectByIndex => [41, 0, 0, 0, 0],
        VMCommand::RemoveObjectById => [42, 0, 0, 0, 0],
    }
}

/// The instruction that a bytecode stands for, or why it stands for none.
pub open spec fn spec_decode(w: CommandByteCode) -> Result<VMCommand, &'static str> {
    match w[0] {
        0 => Ok(VMCommand::Halt),
        1 => Ok(VMCommand::Add),
        2 => Ok(VMCommand::Sub),
        3 => Ok(VMCommand::Div),
        4 => Ok(VMCommand::Mul),
        5 => Ok(VMCommand::Rem),
        6 => Ok(VMCommand::Neg),
        7 => Ok(VMCommand::Inc),
        8 => Ok(VMCommand::Dec),
        9 => Ok(VMCommand::Abs),
        10 => Ok(VMCommand::Eq),
        11 => Ok(VMCommand::Gt),
        12 => Ok(VMCommand::Lt),
        13 => Ok(VMCommand::And),
        14 => Ok(VMCommand::Or),
        15 => Ok(VMCommand::Not),
        16 => Ok(VMCommand::PushConstant(Word::Numeric(u32_from_le(w[1], w[2], w[3], w[4]) as i32))),
        17 => if w[1] == 0 {
            Ok(VMCommand::PushConstant(Word::Boolean(false)))
        } else if w[1] == 1 {
            Ok(VMCommand::PushConstant(Word::Boolean(true)))
        } else {
            Err("PushConstant argument corrupted.")
        },
        18 => Ok(VMCommand::LoadGameStateAttr { index: u32_from_le(w[1], w[2], w[3], w[4]) }),
        19 => Ok(VMCommand::StoreGameStateAttr { index: u32_from_le(w[1], w[2], w[3], w[4]) }),
        20 => Ok(VMCommand::LoadLocal { index: u32_from_le(w[1], w[2], w[3], w[4]) }),
        21 => Ok(VMCommand::StoreLocal { index: u32_from_le(w[1], w[2], w[3], w[4]) }),
        22 => Ok(VMCommand::LoadArgument { index: u32_from_le(w[1], w[2], w[3], w[4]) }),
        23 => Ok(VMCommand::StoreArgument { index: u32_from_le(w[1], w[2], w[3], w[4]) }),
        24 => Ok(VMCommand::Goto(u32_from_le(w[1], w[2], w[3], w[4]))),
        25 => Ok(VMCommand::IfGoto(u32_from_le(w[1], w[2], w[3], w[4]))),
        26 => Ok(VMCommand::Function { n_locals: u32_from_le(w[1], w[2], w[3], w[4]) }),
        27 => Ok(VMCommand::Call { address: u32_from_le(w[1], w[2], w[3], 0), n_args: w[4] }),
        28 => Ok(VMCommand::Return),
        29 => Ok(VMCommand::ReturnVoid),
        30 => Ok(VMCommand::PushObjectCount),
        31 => Ok(VMCommand::PushTypeCount),
        32 => Ok(VMCommand::PushObjectType),
        33 => Ok(VMCommand::PushObjectCountWithObjectType),
        34 => Ok(VMCommand::LoadObjectTypeAttrByTypeIndex { attr_index: u32_from_le(w[1], w[2], w[3], w[4]) }),
        35 => Ok(VMCommand::LoadObjectTypeAttrByObjectIndex { attr_index: u32_from_le(w[1], w[2], w[3], w[4]) }),
        36 => Ok(VMCommand::LoadObjectAttr { attr_index: u32_from_le(w[1], w[2], w[3], w[4]) }),
        37 => Ok(VMCommand::StoreObjectAttr { attr_index: u32_from_le(w[1], w[2], w[3], w[4]) }),
        38 => Ok(VMCommand::InstanceObjectByTypeIndex),
        39 => Ok(VMCommand::InstanceObjectByTypeId),
        40 => Ok(VMCommand::CallObjectAction),
        41 => Ok(VMCommand::RemoveObjectByIndex),
        42 => Ok(VMCommand::RemoveObjectById),
        _ => Err("Illegal instruction"),
    }
}

impl VMCommand {
    /// The bytecode of this instruction.
    pub fn to_bytecode(self) -> (r: CommandByteCode)
        ensures
            r == spec_encode(self),
    {
        match self {
            VMCommand::Halt => [0, 0, 0, 0, 0],
            VMCommand::Add => [1, 0, 0, 0, 0],
            VMCommand::Sub => [2, 0, 0, 0, 0],
            VMCommand::Div => [3, 0, 0, 0, 0],
            VMCommand::Mul => [4, 0, 0, 0, 0],
            VMCommand::Rem => [5, 0, 0, 0, 0],
            VMCommand::Neg => [6, 0, 0, 0, 0],
            VMCommand::Inc => [7, 0, 0, 0, 0],
            VMCommand::Dec => [8, 0, 0, 0, 0],
            VMCommand::Abs => [9, 0, 0, 0, 0],
            VMCommand::Eq => [10, 0, 0, 0, 0],
            VMCommand::Gt => [11, 0, 0, 0, 0],
            VMCommand::Lt => [12, 0, 0, 0, 0],
            VMCommand::And => [13, 0, 0, 0, 0],
            VMCommand::Or => [14, 0, 0, 0, 0],
            VMCommand::Not => [15, 0, 0, 0, 0],
            VMCommand::PushConstant(Word::Numeric(v)) => {
                let b = u32_to_le(v as u32);
                [16, b[0], b[1], b[2], b[3]]
            },
            VMCommand::PushConstant(Word::Boolean(false)) => [17, 0, 0, 0, 0],
            VMCommand::PushConstant(Word::Boolean(true)) => [17, 1, 0, 0, 0],
            VMCommand::LoadGameStateAttr { index: x } => {
                let b = u32_to_le(x);
                [18, b[0], b[1], b[2], b[3]]
            },
            VMCommand::StoreGameStateAttr { index: x } => {
                let b = u32_to_le(x);
                [19, b[0], b[1], b[2], b[3]]
            },
            VMCommand::LoadLocal { index: x } => {
                let b = u32_to_le(x);
                [20, b[0], b[1], b[2], b[3]]
            },
            VMCommand::StoreLocal { index: x } => {
                let b = u32_to_le(x);
                [21, b[0], b[1], b[2], b[3]]
            },
            VMCommand::LoadArgument { index: x } => {
                let b = u32_to_le(x);
                [22, b[0], b[1], b[2], b[3]]
            },
            VMCommand::StoreArgument { index: x } => {
                let b = u32_to_le(x);
                [23, b[0], b[1], b[2], b[3]]
            },
            VMCommand::Goto(x) => {
                let b = u32_to_le(x);
                [24, b[0], b[1], b[2], b[3]]
            },
            VMCommand::IfGoto(x) => {
                let b = u32_to_le(x);
                [25, b[0], b[1], b[2], b[3]]
            },
            VMCommand::Function { n_locals: x } => {
                let b = u32_to_le(x);
                [26, b[0], b[1], b[2], b[3]]
            },
            VMCommand::Call { address, n_args } => {
                let b = u32_to_le(address);
                [27, b[0], b[1], b[2], n_args]
            },
            VMCommand::Return => [28, 0, 0, 0, 0],
            VMCommand::ReturnVoid => [29, 0, 0, 0, 0],
            VMCommand::PushObjectCount => [30, 0, 0, 0, 0],
            VMCommand::PushTypeCount => [31, 0, 0, 0, 0],
            VMCommand::PushObjectType => [32, 0, 0, 0, 0],
            VMCommand::PushObjectCountWithObjectType => [33, 0, 0, 0, 0],
            VMCommand::LoadObjectTypeAttrByTypeIndex { attr_index: x } => {
                let b = u32_to_le(x);
                [34, b[0], b[1], b[2], b[3]]
            },
            VMCommand::LoadObjectTypeAttrByObjectIndex { attr_index: x } => {
                let b = u32_to_le(x);
                [35, b[0], b[1], b[2], b[3]]
            },
            VMCommand::LoadObjectAttr { attr_index: x } => {
                let b = u32_to_le(x);
                [36, b[0], b[1], b[2], b[3]]
            },
            VMCommand::StoreObjectAttr { attr_index: x } => {
                let b = u32_to_le(x);
                [37, b[0], b[1], b[2], b[3]]
            },
            VMCommand::InstanceObjectByTypeIndex => [38, 0, 0, 0, 0],
            VMCommand::InstanceObjectByTypeId => [39, 0, 0, 0, 0],
            VMCommand::CallObjectAction => [40, 0, 0, 0, 0],
            VMCommand::RemoveObjectByIndex => [41, 0, 0, 0, 0],
            VMCommand::RemoveObjectById => [42, 0, 0, 0, 0],
        }
    }

    /// The instruction that `word` encodes, or why it encodes none.
    pub fn from_bytecode(word: CommandByteCode) -> (r: Result<VMCommand, &'static str>)
        ensures
            r == spec_decode(word),
    {
        match word[0] {
            0 => Ok(VMCommand::Halt),
            1 => Ok(VMCommand::Add),
            2 => Ok(VMCommand::Sub),
            3 => Ok(VMCommand::Div),
            4 => Ok(VMCommand::Mul),
            5 => Ok(VMCommand::Rem),
            6 => Ok(VMCommand::Neg),
            7 => Ok(VMCommand::Inc),
            8 => Ok(VMCommand::Dec),
            9 => Ok(VMCommand::Abs),
            10 => Ok(VMCommand::Eq),
            11 => Ok(VMCommand::Gt),
            12 => Ok(VMCommand::Lt),
            13 => Ok(VMCommand::And),
            14 => Ok(VMCommand::Or),
            15 => Ok(VMCommand::Not),
            16 => Ok(VMCommand::PushConstant(Word::Numeric(u32_of_le(word[1], word[2], word[3], word[4]) as i32))),
            17 => {
                let bool_data = word[1];
                match bool_data {
                    0 => Ok(VMCommand::PushConstant(Word::Boolean(false))),
                    1 => Ok(VMCommand::PushConstant(Word::Boolean(true))),
                    _ => Err("PushConstant argument corrupted."),
                }
            },
            18 => Ok(VMCommand::LoadGameStateAttr { index: u32_of_le(word[1], word[2], word[3], word[4]) }),
            19 => Ok(VMCommand::StoreGameStateAttr { index: u32_of_le(word[1], word[2], word[3], word[4]) }),
            20 => Ok(VMCommand::LoadLocal { index: u32_of_le(word[1], word[2], word[3], word[4]) }),
            21 => Ok(VMCommand::StoreLocal { index: u32_of_le(word[1], word[2], word[3], word[4]) }),
            22 => Ok(VMCommand::LoadArgument { index: u32_of_le(word[1], word[2], word[3], word[4]) }),
            23 => Ok(VMCommand::StoreArgument { index: u32_of_le(word[1], word[2], word[3], word[4]) }),
            24 => Ok(VMCommand::Goto(u32_of_le(word[1], word[2], word[3], word[4]))),
            25 => Ok(VMCommand::IfGoto(u32_of_le(word[1], word[2], word[3], word[4]))),
            26 => Ok(VMCommand::Function { n_locals: u32_of_le(word[1], word[2], word[3], word[4]) }),
            27 => Ok(VMCommand::Call { address: u32_of_le(word[1], word[2], word[3], 0), n_args: word[4] }),
            28 => Ok(VMCommand::Return),
            29 => Ok(VMCommand::ReturnVoid),
            30 => Ok(VMCommand::PushObjectCount),
            31 => Ok(VMCommand::PushTypeCount),
            32 => Ok(VMCommand::PushObjectType),
            33 => Ok(VMCommand::PushObjectCountWithObjectType),
            34 => Ok(VMCommand::LoadObjectTypeAttrByTypeIndex { attr_index: u32_of_le(word[1], word[2], word[3], word[4]) }),
            35 => Ok(VMCommand::LoadObjectTypeAttrByObjectIndex { attr_index: u32_of_le(word[1], word[2], word[3], word[4]) }),
            36 => Ok(VMCommand::LoadObjectAttr { attr_index: u32_of_le(word[1], word[2], word[3], word[4]) }),
            37 => Ok(VMCommand::StoreObjectAttr { attr_index: u32_of_le(word[1], word[2], word[3], word[4]) }),
            38 => Ok(VMCommand::InstanceObjectByTypeIndex),
            39 => Ok(VMCommand::InstanceObjectByTypeId),
            40 => Ok(VMCommand::CallObjectAction),
            41 => Ok(VMCommand::RemoveObjectByIndex),
            42 => Ok(VMCommand::RemoveObjectById),
            _ => Err("Illegal instruction"),
        }
    }
}

impl Default for VMCommand {
    fn default() -> (r: Self)
        ensures
            r == VMCommand::Halt,
    {
        VMCommand::Halt
    }
}

impl TryFrom<CommandByteCode> for VMCommand {
    type Error = &'static str;

    fn try_from(word: CommandByteCode) -> (r: Result<VMCommand, &'static str>) {
        VMCommand::from_bytecode(word)
    }
}

impl vstd::std_specs::convert::TryFromSpecImpl<CommandByteCode> for VMCommand {
    open spec fn obeys_try_from_spec() -> bool {
        true
    }

    open spec fn try_from_spec(word: CommandByteCode) -> Result<VMCommand, &'static str> {
        spec_decode(word)
    }
}

impl From<VMCommand> for CommandByteCode {
    fn from(instruction: VMCommand) -> (r: CommandByteCode) {
        instruction.to_bytecode()
    }
}

impl vstd::std_specs::convert::FromSpecImpl<VMCommand> for CommandByteCode {
    open spec fn obeys_from_spec() -> bool {
        true
    }

    open spec fn from_spec(instruction: VMCommand) -> CommandByteCode {
        spec_encode(instruction)
    }
}

/// Decoding the bytecode of an instruction gives the instruction back.  A
/// call's address is stored in three bytes, so it comes back only when it
/// fits in 24 bits.
pub proof fn lemma_decode_encode(c: VMCommand)
    requires
        c matches VMCommand::Call { address, .. } ==> address < 0x100_0000,
    ensures
        spec_decode(spec_encode(c)) == Ok::<VMCommand, &'static str>(c),
{
    match c {
        VMCommand::PushConstant(Word::Numeric(v)) => {
            lemma_u32_le_roundtrip(v as u32);
            lemma_i32_bits_roundtrip(v);
        },
        VMCommand::LoadGameStateAttr { index: x } => {
            lemma_u32_le_roundtrip(x);
        },
        VMCommand::StoreGameStateAttr { index: x } => {
            lemma_u32_le_roundtrip(x);
        },
        VMCommand::LoadLocal { index: x } => {
            lemma_u32_le_roundtrip(x);
        },
        VMCommand::StoreLocal { index: x } => {
            lemma_u32_le_roundtrip(x);
        },
        VMCommand::LoadArgument { index: x } => {
            lemma_u32_le_roundtrip(x);
        },
        VMCommand::StoreArgument { index: x } => {
            lemma_u32_le_roundtrip(x);
        },
        VMCommand::Goto(x) => {
            lemma_u32_le_roundtrip(x);
        },
        VMCommand::IfGoto(x) => {
            lemma_u32_le_roundtrip(x);
        },
        VMCommand::Function { n_locals: x } => {
            lemma_u32_le_roundtrip(x);
        },
        VMCommand::Call { address, n_args } => {
            lemma_u24_le_roundtrip(address);
        },
        VMCommand::LoadObjectTypeAttrByTypeIndex { attr_index: x } => {
            lemma_u32_le_roundtrip(x);
        },
        VMCommand::LoadObjectTypeAttrByObjectIndex { attr_index: x } => {
            lemma_u32_le_roundtrip(x);
        },
        VMCommand::LoadObjectAttr { attr_index: x } => {
            lemma_u32_le_roundtrip(x);
        },
        VMCommand::StoreObjectAttr { attr_index: x } => {
            lemma_u32_le_roundtrip(x);
        },
        _ => {},
    }
}


/// The byte layout of every instruction's bytecode: the opcode first, then
/// its operand least significant byte first, four bytes for a 32-bit
/// operand, three for a call's address followed by its argument count, and
/// zeros where there is nothing.
pub proof fn lemma_encode_layout(z: u32, v: i32, n: u8)
    ensures
        spec_encode(VMCommand::Halt)@ == seq![0u8, 0, 0, 0, 0],
        spec_encode(VMCommand::Add)@ == seq![1u8, 0, 0, 0, 0],
        spec_encode(VMCommand::Sub)@ == seq![2u8, 0, 0, 0, 0],
        spec_encode(VMCommand::Div)@ == seq![3u8, 0, 0, 0, 0],
        spec_encode(VMCommand::Mul)@ == seq![4u8, 0, 0, 0, 0],
        spec_encode(VMCommand::Rem)@ == seq![5u8, 0, 0, 0, 0],
        spec_encode(VMCommand::Neg)@ == seq![6u8, 0, 0, 0, 0],
        spec_encode(VMCommand::Inc)@ == seq![7u8, 0, 0, 0, 0],
        spec_encode(VMCommand::Dec)@ == seq![8u8, 0, 0, 0, 0],
        spec_encode(VMCommand::Abs)@ == seq![9u8, 0, 0, 0, 0],
        spec_encode(VMCommand::Eq)@ == seq![10u8, 0, 0, 0, 0],
        spec_encode(VMCommand::Gt)@ == seq![11u8, 0, 0, 0, 0],
        spec_encode(VMCommand::Lt)@ == seq![12u8, 0, 0, 0, 0],
        spec_encode(VMCommand::And)@ == seq![13u8, 0, 0, 0, 0],
        spec_encode(VMCommand::Or)@ == seq![14u8, 0, 0, 0, 0],
        spec_encode(VMCommand::Not)@ == seq![15u8, 0, 0, 0, 0],
        spec_encode(VMCommand::Return)@ == seq![28u8, 0, 0, 0, 0],
        spec_encode(VMCommand::ReturnVoid)@ == seq![29u8, 0, 0, 0, 0],
        spec_encode(VMCommand::PushObjectCount)@ == seq![30u8, 0, 0, 0, 0],
        spec_encode(VMCommand::PushTypeCount)@ == seq![31u8, 0, 0, 0, 0],
        spec_encode(VMCommand::PushObjectType)@ == seq![32u8, 0, 0, 0, 0],
        spec_encode(VMCommand::PushObjectCountWithObjectType)@ == seq![33u8, 0, 0, 0, 0],
        spec_encode(VMCommand::InstanceObjectByTypeIndex)@ == seq![38u8, 0, 0, 0, 0],
        spec_encode(VMCommand::InstanceObjectByTypeId)@ == seq![39u8, 0, 0, 0, 0],
        spec_encode(VMCommand::CallObjectAction)@ == seq![40u8, 0, 0, 0, 0],
        spec_encode(VMCommand::RemoveObjectByIndex)@ == seq![41u8, 0, 0, 0, 0],
        spec_encode(VMCommand::RemoveObjectById)@ == seq![42u8, 0, 0, 0, 0],
        spec_encode(VMCommand::LoadGameStateAttr { index: z })@ == seq![18u8, (z % 256) as u8, ((z / 256) % 256) as u8, ((z / 65536) % 256) as u8, (z / 16777216) as u8],
        spec_encode(VMCommand::StoreGameStateAttr { index: z })@ == seq![19u8, (z % 256) as u8, ((z / 256) % 256) as u8, ((z / 65536) % 256) as u8, (z / 16777216) as u8],
        spec_encode(VMCommand::LoadLocal { index: z })@ == seq![20u8, (z % 256) as u8, ((z / 256) % 256) as u8, ((z / 65536) % 256) as u8, (z / 16777216) as u8],
        spec_encode(VMCommand::StoreLocal { index: z })@ == seq![21u8, (z % 256) as u8, ((z / 256) % 256) as u8, ((z / 65536) % 256) as u8, (z / 16777216) as u8],
        spec_encode(VMCommand::LoadArgument { index: z })@ == seq![22u8, (z % 256) as u8, ((z / 256) % 256) as u8, ((z / 65536) % 256) as u8, (z / 16777216) as u8],
        spec_encode(VMCommand::StoreArgument { index: z })@ == seq![23u8, (z % 256) as u8, ((z / 256) % 256) as u8, ((z / 65536) % 256) as u8, (z / 16777216) as u8],
        spec_encode(VMCommand::Goto(z))@ == seq![24u8, (z % 256) as u8, ((z / 256) % 256) as u8, ((z / 65536) % 256) as u8, (z / 16777216) as u8],
        spec_encode(VMCommand::IfGoto(z))@ == seq![25u8, (z % 256) as u8, ((z / 256) % 256) as u8, ((z / 65536) % 256) as u8, (z / 16777216) as u8],
        spec_encode(VMCommand::Function { n_locals: z })@ == seq![26u8, (z % 256) as u8, ((z / 256) % 256) as u8, ((z / 65536) % 256) as u8, (z / 16777216) as u8],
        spec_encode(VMCommand::LoadObjectTypeAttrByTypeIndex { attr_index: z })@ == seq![34u8, (z % 256) as u8, ((z / 256) % 256) as u8, ((z / 65536) % 256) as u8, (z / 16777216) as u8],
        spec_encode(VMCommand::LoadObjectTypeAttrByObjectIndex { attr_index: z })@ == seq![35u8, (z % 256) as u8, ((z / 256) % 256) as u8, ((z / 65536) % 256) as u8, (z / 16777216) as u8],
        spec_encode(VMCommand::LoadObjectAttr { attr_index: z })@ == seq![36u8, (z % 256) as u8, ((z / 256) % 256) as u8, ((z / 65536) % 256) as u8, (z / 16777216) as u8],
        spec_encode(VMCommand::StoreObjectAttr { attr_index: z })@ == seq![37u8, (z % 256) as u8, ((z / 256) % 256) as u8, ((z / 65536) % 256) as u8, (z / 16777216) as u8],
        spec_encode(VMCommand::PushConstant(Word::Numeric(v)))@ == seq![16u8, ((v as u32) % 256) as u8, (((v as u32) / 256) % 256) as u8, (((v as u32) / 65536) % 256) as u8, ((v as u32) / 16777216) as u8],
        spec_encode(VMCommand::PushConstant(Word::Boolean(false)))@ == seq![17u8, 0, 0, 0, 0],
        spec_encode(VMCommand::PushConstant(Word::Boolean(true)))@ == seq![17u8, 1, 0, 0, 0],
        spec_encode(VMCommand::Call { address: z, n_args: n })@ == seq![27u8, (z % 256) as u8, ((z / 256) % 256) as u8, ((z / 65536) % 256) as u8, n],
{
    lemma_le_bytes_u32_value(z);
    lemma_le_bytes_u32_value(v as u32);
    assert(spec_encode(VMCommand::Halt)@ =~= seq![0u8, 0, 0, 0, 0]);
    assert(spec_encode(VMCommand::Add)@ =~= seq![1u8, 0, 0, 0, 0]);
    assert(spec_encode(VMCommand::Sub)@ =~= seq![2u8, 0, 0, 0, 0]);
    assert(spec_encode(VMCommand::Div)@ =~= seq![3u8, 0, 0, 0, 0]);
    assert(spec_encode(VMCommand::Mul)@ =~= seq![4u8, 0, 0, 0, 0]);
    assert(spec_encode(VMCommand::Rem)@ =~= seq![5u8, 0, 0, 0, 0]);
    assert(spec_encode(VMCommand::Neg)@ =~= seq![6u8, 0, 0, 0, 0]);
    assert(spec_encode(VMCommand::Inc)@ =~= seq![7u8, 0, 0, 0, 0]);
    assert(spec_encode(VMCommand::Dec)@ =~= seq![8u8, 0, 0, 0, 0]);
    assert(spec_encode(VMCommand::Abs)@ =~= seq![9u8, 0, 0, 0, 0]);
    assert(spec_encode(VMCommand::Eq)@ =~= seq![10u8, 0, 0, 0, 0]);
    assert(spec_encode(VMCommand::Gt)@ =~= seq![11u8, 0, 0, 0, 0]);
    assert(spec_encode(VMCommand::Lt)@ =~= seq![12u8, 0, 0, 0, 0]);
    assert(spec_encode(VMCommand::And)@ =~= seq![13u8, 0, 0, 0, 0]);
    assert(spec_encode(VMCommand::Or)@ =~= seq![14u8, 0, 0, 0, 0]);
    assert(spec_encode(VMCommand::Not)@ =~= seq![15u8, 0, 0, 0, 0]);
    assert(spec_encode(VMCommand::Return)@ =~= seq![28u8, 0, 0, 0, 0]);
    assert(spec_encode(VMCommand::ReturnVoid)@ =~= seq![29u8, 0, 0, 0, 0]);
    assert(spec_encode(VMCommand::PushObjectCount)@ =~= seq![30u8, 0, 0, 0, 0]);
    assert(spec_encode(VMCommand::PushTypeCount)@ =~= seq![31u8, 0, 0, 0, 0]);
    assert(spec_encode(VMCommand::PushObjectType)@ =~= seq![32u8, 0, 0, 0, 0]);
    assert(spec_encode(VMCommand::PushObjectCountWithObjectType)@ =~= seq![33u8, 0, 0, 0, 0]);
    assert(spec_encode(VMCommand::InstanceObjectByTypeIndex)@ =~= seq![38u8, 0, 0, 0, 0]);
    assert(spec_encode(VMCommand::InstanceObjectByTypeId)@ =~= seq![39u8, 0, 0, 0, 0]);
    assert(spec_encode(VMCommand::CallObjectAction)@ =~= seq![40u8, 0, 0, 0, 0]);
    assert(spec_encode(VMCommand::RemoveObjectByIndex)@ =~= seq![41u8, 0, 0, 0, 0]);
    assert(spec_encode(VMCommand::RemoveObjectById)@ =~= seq![42u8, 0, 0, 0, 0]);
}

/// What a bytecode stands for, read off its bytes: the opcode first, then
/// its operand least significant byte first, as [`lemma_encode_layout`]
/// lays it out; an opcode past the last instruction stands for none.
pub proof fn lemma_decode_layout(b0: u8, b1: u8, b2: u8, b3: u8, b4: u8)
    ensures
        spec_decode([0u8, b1, b2, b3, b4]) == Ok::<VMCommand, &'static str>(VMCommand::Halt),
        spec_decode([1u8, b1, b2, b3, b4]) == Ok::<VMCommand, &'static str>(VMCommand::Add),
        spec_decode([2u8, b1, b2, b3, b4]) == Ok::<VMCommand, &'static str>(VMCommand::Sub),
        spec_decode([3u8, b1, b2, b3, b4]) == Ok::<VMCommand, &'static str>(VMCommand::Div),
        spec_decode([4u8, b1, b2, b3, b4]) == Ok::<VMCommand, &'static str>(VMCommand::Mul),
        spec_decode([5u8, b1, b2, b3, b4]) == Ok::<VMCommand, &'static str>(VMCommand::Rem),
        spec_decode([6u8, b1, b2, b3, b4]) == Ok::<VMCommand, &'static str>(VMCommand::Neg),
        spec_decode([7u8, b1, b2, b3, b4]) == Ok::<VMCommand, &'static str>(VMCommand::Inc),
        spec_decode([8u8, b1, b2, b3, b4]) == Ok::<VMCommand, &'static str>(VMCommand::Dec),
        spec_decode([9u8, b1, b2, b3, b4]) == Ok::<VMCommand, &'static str>(VMCommand::Abs),
        spec_decode([10u8, b1, b2, b3, b4]) == Ok::<VMCommand, &'static str>(VMCommand::Eq),
        spec_decode([11u8, b1, b2, b3, b4]) == Ok::<VMCommand, &'static str>(VMCommand::Gt),
        spec_decode([12u8, b1, b2, b3, b4]) == Ok::<VMCommand, &'static str>(VMCommand::Lt),
        spec_decode([13u8, b1, b2, b3, b4]) == Ok::<VMCommand, &'static str>(VMCommand::And),
        spec_decode([14u8, b1, b2, b3, b4]) == Ok::<VMCommand, &'static str>(VMCommand::Or),
        spec_decode([15u8, b1, b2, b3, b4]) == Ok::<VMCommand, &'static str>(VMCommand::Not),
        spec_decode([28u8, b1, b2, b3, b4]) == Ok::<VMCommand, &'static str>(VMCommand::Return),
        spec_decode([29u8, b1, b2, b3, b4]) == Ok::<VMCommand, &'static str>(VMCommand::ReturnVoid),
        spec_decode([30u8, b1, b2, b3, b4]) == Ok::<VMCommand, &'static str>(VMCommand::PushObjectCount),
        spec_decode([31u8, b1, b2, b3, b4]) == Ok::<VMCommand, &'static str>(VMCommand::PushTypeCount),
        spec_decode([32u8, b1, b2, b3, b4]) == Ok::<VMCommand, &'static str>(VMCommand::PushObjectType),
        spec_decode([33u8, b1, b2, b3, b4]) == Ok::<VMCommand, &'static str>(VMCommand::PushObjectCountWithObjectType),
        spec_decode([38u8, b1, b2, b3, b4]) == Ok::<VMCommand, &'static str>(VMCommand::InstanceObjectByTypeIndex),
        spec_decode([39u8, b1, b2, b3, b4]) == Ok::<VMCommand, &'static str>(VMCommand::InstanceObjectByTypeId),
        spec_decode([40u8, b1, b2, b3, b4]) == Ok::<VMCommand, &'static str>(VMCommand::CallObjectAction),
        spec_decode([41u8, b1, b2, b3, b4]) == Ok::<VMCommand, &'static str>(VMCommand::RemoveObjectByIndex),
        spec_decode([42u8, b1, b2, b3, b4]) == Ok::<VMCommand, &'static str>(VMCommand::RemoveObjectById),
        spec_decode([18u8, b1, b2, b3, b4]) == Ok::<VMCommand, &'static str>(VMCommand::LoadGameStateAttr { index: (b1 + 256 * b2 + 65536 * b3 + 16777216 * b4) as u32 }),
        spec_decode([19u8, b1, b2, b3, b4]) == Ok::<VMCommand, &'static str>(VMCommand::StoreGameStateAttr { index: (b1 + 256 * b2 + 65536 * b3 + 16777216 * b4) as u32 }),
        spec_decode([20u8, b1, b2, b3, b4]) == Ok::<VMCommand, &'static str>(VMCommand::LoadLocal { index: (b1 + 256 * b2 + 65536 * b3 + 16777216 * b4) as u32 }),
        spec_decode([21u8, b1, b2, b3, b4]) == Ok::<VMCommand, &'static str>(VMCommand::StoreLocal { index: (b1 + 256 * b2 + 65536 * b3 + 16777216 * b4) as u32 }),
        spec_decode([22u8, b1, b2, b3, b4]) == Ok::<VMCommand, &'static str>(VMCommand::LoadArgument { index: (b1 + 256 * b2 + 65536 * b3 + 16777216 * b4) as u32 }),
        spec_decode([23u8, b1, b2, b3, b4]) == Ok::<VMCommand, &'static str>(VMCommand::StoreArgument { index: (b1 + 256 * b2 + 65536 * b3 + 16777216 * b4) as u32 }),
        spec_decode([24u8, b1, b2, b3, b4]) == Ok::<VMCommand, &'static str>(VMCommand::Goto((b1 + 256 * b2 + 65536 * b3 + 16777216 * b4) as u32)),
        spec_decode([25u8, b1, b2, b3, b4]) == Ok::<VMCommand, &'static str>(VMCommand::IfGoto((b1 + 256 * b2 + 65536 * b3 + 16777216 * b4) as u32)),
        spec_decode([26u8, b1, b2, b3, b4]) == Ok::<VMCommand, &'static str>(VMCommand::Function { n_locals: (b1 + 256 * b2 + 65536 * b3 + 16777216 * b4) as u32 }),
        spec_decode([34u8, b1, b2, b3, b4]) == Ok::<VMCommand, &'static str>(VMCommand::LoadObjectTypeAttrByTypeIndex { attr_index: (b1 + 256 * b2 + 65536 * b3 + 16777216 * b4) as u32 }),
        spec_decode([35u8, b1, b2, b3, b4]) == Ok::<VMCommand, &'static str>(VMCommand::LoadObjectTypeAttrByObjectIndex { attr_index: (b1 + 256 * b2 + 65536 * b3 + 16777216 * b4) as u32 }),
        spec_decode([36u8, b1, b2, b3, b4]) == Ok::<VMCommand, &'static str>(VMCommand::LoadObjectAttr { attr_index: (b1 + 256 * b2 + 65536 * b3 + 16777216 * b4) as u32 }),
        spec_decode([37u8, b1, b2, b3, b4]) == Ok::<VMCommand, &'static str>(VMCommand::StoreObjectAttr { attr_index: (b1 + 256 * b2 + 65536 * b3 + 16777216 * b4) as u32 }),
        spec_decode([16u8, b1, b2, b3, b4]) == Ok::<VMCommand, &'static str>(VMCommand::PushConstant(Word::Numeric((b1 + 256 * b2 + 65536 * b3 + 16777216 * b4) as u32 as i32))),
        b1 == 0 ==> spec_decode([17u8, b1, b2, b3, b4]) == Ok::<VMCommand, &'static str>(VMCommand::PushConstant(Word::Boolean(false))),
        b1 == 1 ==> spec_decode([17u8, b1, b2, b3, b4]) == Ok::<VMCommand, &'static str>(VMCommand::PushConstant(Word::Boolean(true))),
        b1 > 1 ==> spec_decode([17u8, b1, b2, b3, b4]) is Err,
        spec_decode([27u8, b1, b2, b3, b4]) == Ok::<VMCommand, &'static str>(VMCommand::Call { address: (b1 + 256 * b2 + 65536 * b3) as u32, n_args: b4 }),
        b0 > 42 ==> spec_decode([b0, b1, b2, b3, b4]) is Err,
{
    lemma_u32_from_le_value(b1, b2, b3, b4);
    lemma_u32_from_le_value(b1, b2, b3, 0);
}

} // verus!
