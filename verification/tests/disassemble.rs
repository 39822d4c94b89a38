use do_core1::instruction::{Instruction, OpCode};
use do_core1::{Error, MAX_REGISTER_INDEX};

#[test]
fn test_instruction_disassemble_add_r1_r3() -> Result<(), Error> {
    let insn_bytes: u32 = 0x1842;
    let insn = Instruction::disassemble(insn_bytes)?;

    assert_eq!(insn.opcode, OpCode::ADD);
    assert_eq!(insn.op0, 1);
    assert_eq!(insn.op1, 3);

    Ok(())
}

#[test]
fn test_instruction_disassemble_add_r9_r1() -> Result<(), Error> {
    let insn_bytes: u32 = 0x5002;
    assert!(Instruction::disassemble(insn_bytes).is_err());

    Ok(())
}

#[test]
fn test_instruction_disassemble_add_r0_r10() -> Result<(), Error> {
    let insn_bytes: u32 = 0x20a;
    assert!(Instruction::disassemble(insn_bytes).is_err());

    Ok(())
}

#[test]
fn test_instruction_disassemble_add_r7_r2() -> Result<(), Error> {
    let insn_bytes: u32 = 0x11c2;
    let insn = Instruction::disassemble(insn_bytes)?;

    assert_eq!(insn.opcode, OpCode::ADD);
    assert_eq!(insn.op0, 7);
    assert_eq!(insn.op1, 2);

    Ok(())
}

#[test]
fn test_instruction_disassemble_ldw_r0_r1() -> Result<(), Error> {
    let insn_bytes: u32 = 0x0800;
    let insn = Instruction::disassemble(insn_bytes)?;

    assert_eq!(insn.opcode, OpCode::LDW);
    assert_eq!(insn.op0, 0);
    assert_eq!(insn.op1, 1);

    Ok(())
}

#[test]
fn test_instruction_disassemble_xor_r2_r3() -> Result<(), Error> {
    let insn_bytes: u32 = 0x1883;
    let insn = Instruction::disassemble(insn_bytes)?;

    assert_eq!(insn.opcode, OpCode::XOR);
    assert_eq!(insn.op0, 2);
    assert_eq!(insn.op1, 3);

    Ok(())
}

#[test]
fn test_instruction_disassemble_stw_r5_r0() -> Result<(), Error> {
    let insn_bytes: u32 = 0x0141;
    let insn = Instruction::disassemble(insn_bytes)?;

    assert_eq!(insn.opcode, OpCode::STW);
    assert_eq!(insn.op0, 5);
    assert_eq!(insn.op1, 0);

    Ok(())
}

#[test]
fn disassemble_reports_second_operand_with_its_value() {
    assert_eq!(Instruction::disassemble(0x5002), Err(Error::Op1OutOfRange(10)));
}

#[test]
fn disassemble_reports_first_operand_with_its_value() {
    assert_eq!(Instruction::disassemble(0x20a), Err(Error::Op0OutOfRange(8)));
}

#[test]
fn disassemble_reports_first_operand_when_both_are_out_of_range() {
    let word: u32 = (9 << 11) | (8 << 6) | 0x02;
    assert_eq!(Instruction::disassemble(word), Err(Error::Op0OutOfRange(8)));
}

#[test]
fn disassemble_accepts_the_last_register_in_both_operands() {
    let word: u32 = (7 << 11) | (7 << 6) | 0x03;
    assert_eq!(
        Instruction::disassemble(word),
        Ok(Instruction { opcode: OpCode::XOR, op0: 7, op1: 7 })
    );
}

#[test]
fn disassemble_rejects_the_largest_operand_fields() {
    assert_eq!(Instruction::disassemble(0x07c2), Err(Error::Op0OutOfRange(31)));
    assert_eq!(Instruction::disassemble(0xf802), Err(Error::Op1OutOfRange(31)));
}

#[test]
fn disassemble_keeps_an_unassigned_opcode() {
    assert_eq!(
        Instruction::disassemble(0x0844),
        Ok(Instruction { opcode: OpCode::Unknown(4), op0: 1, op1: 1 })
    );
    assert_eq!(
        Instruction::disassemble(0x003f),
        Ok(Instruction { opcode: OpCode::Unknown(0x3f), op0: 0, op1: 0 })
    );
}

#[test]
fn disassemble_ignores_the_unused_bits() {
    assert_eq!(Instruction::disassemble(0xffff_1842), Instruction::disassemble(0x1842));
    assert_eq!(
        Instruction::disassemble(0x0001_1883),
        Ok(Instruction { opcode: OpCode::XOR, op0: 2, op1: 3 })
    );
    assert_eq!(Instruction::disassemble(0x8000_5002), Err(Error::Op1OutOfRange(10)));
}

#[test]
fn disassemble_of_zero_is_ldw_on_register_zero() {
    assert_eq!(
        Instruction::disassemble(0),
        Ok(Instruction { opcode: OpCode::LDW, op0: 0, op1: 0 })
    );
}

#[test]
fn disassemble_twice_gives_the_same_result() {
    for word in [0x1842u32, 0x5002, 0x20a, 0x0800, 0x1883, 0x0141, 0xffff_ffff, 0] {
        assert_eq!(Instruction::disassemble(word), Instruction::disassemble(word));
    }
}

#[test]
fn disassemble_succeeds_exactly_on_words_with_both_operands_in_range() {
    for low in 0..=0xffffu32 {
        for high in [0u32, 0x0001_0000, 0xabcd_0000, 0xffff_0000] {
            let word = high | low;
            let op0 = ((word >> 6) & 0x1f) as u8;
            let op1 = ((word >> 11) & 0x1f) as u8;
            let decoded = Instruction::disassemble(word);
            if op0 <= MAX_REGISTER_INDEX && op1 <= MAX_REGISTER_INDEX {
                let insn = decoded.unwrap();
                assert_eq!(insn.op0, op0);
                assert_eq!(insn.op1, op1);
                assert_eq!(insn.opcode, OpCode::from_u8((word & 0x3f) as u8));
                assert!(insn.is_well_formed());
            } else if op0 > MAX_REGISTER_INDEX {
                assert_eq!(decoded, Err(Error::Op0OutOfRange(op0)));
            } else {
                assert_eq!(decoded, Err(Error::Op1OutOfRange(op1)));
            }
        }
    }
}

#[test]
fn from_u8_names_the_four_operations() {
    assert_eq!(OpCode::from_u8(0x00), OpCode::LDW);
    assert_eq!(OpCode::from_u8(0x01), OpCode::STW);
    assert_eq!(OpCode::from_u8(0x02), OpCode::ADD);
    assert_eq!(OpCode::from_u8(0x03), OpCode::XOR);
}

#[test]
fn from_u8_keeps_every_other_code() {
    for code in 4..=u8::MAX {
        assert_eq!(OpCode::from_u8(code), OpCode::Unknown(code));
    }
}

#[test]
fn is_well_formed_checks_both_operands() {
    assert!(Instruction { opcode: OpCode::ADD, op0: 0, op1: 7 }.is_well_formed());
    assert!(Instruction { opcode: OpCode::LDW, op0: 7, op1: 0 }.is_well_formed());
    assert!(!Instruction { opcode: OpCode::ADD, op0: 8, op1: 0 }.is_well_formed());
    assert!(!Instruction { opcode: OpCode::XOR, op0: 0, op1: 8 }.is_well_formed());
    assert!(!Instruction { opcode: OpCode::XOR, op0: 255, op1: 255 }.is_well_formed());
}
