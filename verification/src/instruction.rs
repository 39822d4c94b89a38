//! The instruction word and its decoder.
//!
//! Bit 0 is the least significant bit of the word:
//!
//! | bits    | field  |
//! |---------|--------|
//! | 0..=5   | opcode |
//! | 6..=10  | op0    |
//! | 11..=15 | op1    |
//! | 16..=31 | unused |

use vstd::prelude::*;

use crate::Error;
use crate::MAX_REGISTER_INDEX;

verus! {

/// Mask of the opcode field, which sits at the bottom of the word.
pub const OPCODE_MASK: u32 = 0x3f;

/// Position of the lowest bit of the first operand field.
pub const OP0_SHIFT: u32 = 6;

/// Position of the lowest bit of the second operand field.
pub const OP1_SHIFT: u32 = 11;

/// Mask of an operand field once it has been shifted down to bit 0.
pub const OPERAND_MASK: u32 = 0x1f;

/// The opcode field of a word: its six lowest bits, read as a number.
pub open spec fn opcode_field(word: u32) -> int {
    word as int % 64
}

/// The first operand field of a word: the five bits above the opcode, read
/// as a number.
pub open spec fn op0_field(word: u32) -> int {
    (word as int / 64) % 32
}

/// The second operand field of a word: the five bits above the first
/// operand, read as a number.
pub open spec fn op1_field(word: u32) -> int {
    (word as int / 2048) % 32
}

/// The operation an instruction performs.
#[derive(Clone, Copy, Debug, PartialEq, Eq, Structural)]
pub enum OpCode {
    /// Load word.
    LDW,
    /// Store word.
    STW,
    /// Add the second operand to the first.
    ADD,
    /// Exclusive-or the second operand into the first.
    XOR,
    /// A code with no operation assigned; the payload is the code.
    Unknown(u8),
}

impl OpCode {
    /// The operation that a numeric code stands for.
    pub open spec fn of_code(code: u8) -> OpCode {
        if code == 0 {
            OpCode::LDW
        } else if code == 1 {
            OpCode::STW
        } else if code == 2 {
            OpCode::ADD
        } else if code == 3 {
            OpCode::XOR
        } else {
            OpCode::Unknown(code)
        }
    }

    /// Maps a numeric code to its operation. A code with no operation
    /// assigned is kept in [`OpCode::Unknown`] rather than rejected.
    pub fn from_u8(opcode: u8) -> (result: OpCode)
        ensures
            result == OpCode::of_code(opcode),
    {
        match opcode {
            0x00 => OpCode::LDW,
            0x01 => OpCode::STW,
            0x02 => OpCode::ADD,
            0x03 => OpCode::XOR,
            _ => OpCode::Unknown(opcode),
        }
    }
}

/// A decoded instruction: an operation and the two registers it works on.
#[derive(Clone, Copy, Debug, PartialEq, Eq, Structural)]
pub struct Instruction {
    /// The operation to perform.
    pub opcode: OpCode,
    /// Index of the first operand register, which also receives the result.
    pub op0: u8,
    /// Index of the second operand register.
    pub op1: u8,
}

impl Instruction {
    /// Both operands name a register that exists.
    pub open spec fn well_formed(&self) -> bool {
        self.op0 <= MAX_REGISTER_INDEX && self.op1 <= MAX_REGISTER_INDEX
    }

    /// What a word decodes to. The first operand is looked at before the
    /// second, so a word with both out of range reports the first. The opcode
    /// never makes decoding fail.
    pub open spec fn decode(word: u32) -> Result<Instruction, Error> {
        if op0_field(word) > MAX_REGISTER_INDEX {
            Err(Error::Op0OutOfRange(op0_field(word) as u8))
        } else if op1_field(word) > MAX_REGISTER_INDEX {
            Err(Error::Op1OutOfRange(op1_field(word) as u8))
        } else {
            Ok(
                Instruction {
                    opcode: OpCode::of_code(opcode_field(word) as u8),
                    op0: op0_field(word) as u8,
                    op1: op1_field(word) as u8,
                },
            )
        }
    }

    /// Tells whether both operands name a register that exists.
    pub fn is_well_formed(&self) -> (result: bool)
        ensures
            result == self.well_formed(),
    {
        self.op0 <= MAX_REGISTER_INDEX && self.op1 <= MAX_REGISTER_INDEX
    }

    /// Decodes an instruction word.
    ///
    /// Decoding succeeds exactly when both operand fields are at most
    /// [`MAX_REGISTER_INDEX`]; the instruction then holds the two fields as
    /// they stand in the word, and the operation of the opcode field.
    /// Otherwise the error names the first field that is out of range and
    /// carries its value. The result depends on the word alone, and bits 16
    /// and up of the word play no part in it.
    pub fn disassemble(insn: u32) -> (result: Result<Instruction, Error>)
        ensures
            result == Instruction::decode(insn),
            result is Ok <==> op0_field(insn) <= MAX_REGISTER_INDEX && op1_field(insn)
                <= MAX_REGISTER_INDEX,
            result matches Ok(decoded) ==> decoded.well_formed() && decoded.op0 == op0_field(insn)
                && decoded.op1 == op1_field(insn) && decoded.opcode == OpCode::of_code(
                opcode_field(insn) as u8,
            ),
    {
        let code: u32 = insn & OPCODE_MASK;
        let first: u32 = (insn >> OP0_SHIFT) & OPERAND_MASK;
        let second: u32 = (insn >> OP1_SHIFT) & OPERAND_MASK;
        assert(insn & OPCODE_MASK == insn % 64) by (bit_vector);
        assert((insn >> OP0_SHIFT) & OPERAND_MASK == (insn / 64) % 32) by (bit_vector);
        assert((insn >> OP1_SHIFT) & OPERAND_MASK == (insn / 2048) % 32) by (bit_vector);

        let op0: u8 = first as u8;
        let op1: u8 = second as u8;
        if op0 > MAX_REGISTER_INDEX {
            return Err(Error::Op0OutOfRange(op0));
        }
        if op1 > MAX_REGISTER_INDEX {
            return Err(Error::Op1OutOfRange(op1));
        }
        Ok(Instruction { opcode: OpCode::from_u8(code as u8), op0, op1 })
    }
}

/// Decoding is deterministic: whatever two runs of
/// [`Instruction::disassemble`] on one word return, they return the same.
pub proof fn decoding_is_deterministic(
    word: u32,
    first: Result<Instruction, Error>,
    second: Result<Instruction, Error>,
)
    requires
        first == Instruction::decode(word),
        second == Instruction::decode(word),
    ensures
        first == second,
{
}

/// The unused bits of a word are ignored: two words that agree on their
/// sixteen lowest bits decode alike.
pub proof fn unused_bits_are_ignored(first: u32, second: u32)
    requires
        first % 0x1_0000 == second % 0x1_0000,
    ensures
        Instruction::decode(first) == Instruction::decode(second),
{
    assert(first % 64 == second % 64 && (first / 64) % 32 == (second / 64) % 32 && (first / 2048)
        % 32 == (second / 2048) % 32) by (bit_vector)
        requires
            first % 0x1_0000 == second % 0x1_0000,
    ;
}

} // verus!
