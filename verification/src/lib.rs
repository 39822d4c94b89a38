//! A single-step evaluator for the do-core1 toy instruction set.
//!
//! An instruction is one 32-bit word. [`instruction::Instruction::disassemble`]
//! turns a word into an opcode and two register indices, and
//! [`executor::execute`] applies a decoded instruction to a register file.
//! Every function carries a contract that Verus proves against its body.

use vstd::prelude::*;

pub mod executor;
pub mod instruction;

use crate::instruction::OpCode;

verus! {

/// Index of the last general-purpose register.
pub const MAX_REGISTER_INDEX: u8 = 7;

/// Number of general-purpose registers, one more than [`MAX_REGISTER_INDEX`].
pub const REGISTER_COUNT: usize = 8;

/// Everything that can go wrong while decoding or executing one instruction.
#[derive(Clone, Copy, Debug, PartialEq, Eq, Structural)]
pub enum Error {
    /// The first operand field names a register past [`MAX_REGISTER_INDEX`];
    /// the payload is the value of the field.
    Op0OutOfRange(u8),
    /// The second operand field names a register past [`MAX_REGISTER_INDEX`];
    /// the payload is the value of the field.
    Op1OutOfRange(u8),
    /// The sum of the two operand values does not fit in 32 bits; the payload
    /// holds the value read through the first operand, then the second.
    AdditionOverflow(u32, u32),
    /// The instruction decoded, but the executor has no effect defined for
    /// its opcode.
    UnsupportedOpCode(OpCode),
}

} // verus!
