//! The executor: the effect of one decoded instruction on the register file.

use vstd::prelude::*;

use crate::instruction::Instruction;
use crate::instruction::OpCode;
use crate::Error;
use crate::REGISTER_COUNT;

verus! {

/// The general-purpose registers, indexed from 0 to
/// [`MAX_REGISTER_INDEX`](crate::MAX_REGISTER_INDEX).
pub type RegisterFile = [u32; REGISTER_COUNT];

/// What one instruction does to a register file: the registers after it, or
/// the error that left them as they were.
///
/// `ADD` and `XOR` read the registers named by both operands and write the
/// register named by the first. Every other opcode is refused.
pub open spec fn step(insn: Instruction, registers: Seq<u32>) -> Result<Seq<u32>, Error> {
    let first: u32 = registers[insn.op0 as int];
    let second: u32 = registers[insn.op1 as int];
    match insn.opcode {
        OpCode::ADD => if first + second <= u32::MAX {
            Ok(registers.update(insn.op0 as int, (first + second) as u32))
        } else {
            Err(Error::AdditionOverflow(first, second))
        },
        OpCode::XOR => Ok(registers.update(insn.op0 as int, first ^ second)),
        unsupported => Err(Error::UnsupportedOpCode(unsupported)),
    }
}

/// Bitwise exclusive-or of two register values.
pub fn xor(op0: u32, op1: u32) -> (result: u32)
    ensures
        result == op0 ^ op1,
{
    op0 ^ op1
}

/// Sum of two register values, or [`Error::AdditionOverflow`] with both
/// values when the sum does not fit in 32 bits.
pub fn add(op0: u32, op1: u32) -> (result: Result<u32, Error>)
    ensures
        op0 + op1 <= u32::MAX ==> result == Ok::<u32, Error>((op0 + op1) as u32),
        op0 + op1 > u32::MAX ==> result == Err::<u32, Error>(Error::AdditionOverflow(op0, op1)),
{
    op0.checked_add(op1).ok_or(Error::AdditionOverflow(op0, op1))
}

/// Applies one decoded instruction to the register file.
///
/// On success exactly the register named by the first operand is written,
/// with the value that [`step`] gives; every other register, the one named
/// by the second operand included, keeps its value. On failure no register
/// changes. An addition that overflows fails with
/// [`Error::AdditionOverflow`], and an opcode other than `ADD` and `XOR`
/// with [`Error::UnsupportedOpCode`].
pub fn execute(insn: Instruction, registers: &mut RegisterFile) -> (result: Result<(), Error>)
    requires
        insn.well_formed(),
    ensures
        match step(insn, old(registers)@) {
            Ok(next) => result is Ok && final(registers)@ == next,
            Err(error) => result == Err::<(), Error>(error) && final(registers)@ == old(
                registers,
            )@,
        },
        forall|index: int|
            0 <= index < REGISTER_COUNT && index != insn.op0 ==> final(registers)@[index] == old(
                registers,
            )@[index],
{
    let op0: usize = insn.op0 as usize;
    let op1: usize = insn.op1 as usize;
    match insn.opcode {
        OpCode::ADD => match self::add(registers[op0], registers[op1]) {
            Ok(sum) => {
                registers[op0] = sum;
                Ok(())
            },
            Err(error) => Err(error),
        },
        OpCode::XOR => {
            registers[op0] = xor(registers[op0], registers[op1]);
            Ok(())
        },
        unsupported => Err(Error::UnsupportedOpCode(unsupported)),
    }
}

/// The register file a run starts from: register `n` holds `n * 0x10`.
pub fn initial_registers() -> (registers: RegisterFile)
    ensures
        forall|index: int|
            0 <= index < REGISTER_COUNT ==> #[trigger] registers@[index] == index * 0x10,
{
    let mut registers: RegisterFile = [0u32; REGISTER_COUNT];
    let mut index: usize = 0;
    while index < REGISTER_COUNT
        invariant
            index <= REGISTER_COUNT,
            forall|filled: int|
                0 <= filled < index ==> #[trigger] registers@[filled] == filled * 0x10,
        decreases REGISTER_COUNT - index,
    {
        registers[index] = index as u32 * 0x10;
        index += 1;
    }
    registers
}

/// Exclusive-or of a register with itself clears it: an `XOR` whose two
/// operands name the same register always succeeds and leaves 0 in that
/// register, whatever it held.
pub proof fn xor_with_itself_clears_the_register(insn: Instruction, registers: Seq<u32>)
    requires
        insn.well_formed(),
        registers.len() == REGISTER_COUNT,
        insn.opcode == OpCode::XOR,
        insn.op0 == insn.op1,
    ensures
        step(insn, registers) == Ok::<Seq<u32>, Error>(registers.update(insn.op0 as int, 0u32)),
{
    let value: u32 = registers[insn.op0 as int];
    assert(value ^ value == 0u32) by (bit_vector);
}

/// An `ADD` reads its two operands alike and writes the first only.
///
/// Swapping the operands of an `ADD` changes neither whether it succeeds nor
/// the sum it stores, only the register that receives the sum: the first
/// operand of each. Every register but that one keeps its value, so when the
/// operands differ the second is left untouched.
pub proof fn add_reads_both_operands_alike_and_writes_the_first(
    insn: Instruction,
    registers: Seq<u32>,
)
    requires
        insn.well_formed(),
        registers.len() == REGISTER_COUNT,
        insn.opcode == OpCode::ADD,
    ensures
        ({
            let swapped = Instruction { opcode: OpCode::ADD, op0: insn.op1, op1: insn.op0 };
            let sum: int = registers[insn.op0 as int] + registers[insn.op1 as int];
            &&& step(insn, registers) is Ok <==> step(swapped, registers) is Ok
            &&& step(insn, registers) is Ok <==> sum <= u32::MAX
            &&& step(insn, registers) matches Ok(next) ==> {
                &&& step(swapped, registers) matches Ok(mirrored)
                &&& next[insn.op0 as int] == sum
                &&& mirrored[insn.op1 as int] == sum
                &&& next.len() == registers.len()
                &&& forall|index: int|
                    0 <= index < registers.len() && index != insn.op0 ==> next[index]
                        == registers[index]
            }
        }),
{
}

} // verus!
