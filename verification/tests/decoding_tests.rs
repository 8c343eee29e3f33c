use lib::instructions::{AddressMode, Instruction, InstructionType};
use lib::transition::{State, transition};

#[test]
fn decodes_opcodes_by_the_table() {
    assert_eq!(Instruction::from_opcode(0xa9), Instruction::Lda);
    assert_eq!(Instruction::from_opcode(0x00), Instruction::Brk);
    assert_eq!(Instruction::from_opcode(0x4c), Instruction::Jmp);
    assert_eq!(Instruction::from_opcode(0xea), Instruction::Nop);
    assert_eq!(Instruction::from_opcode(0xeb), Instruction::Sbc);
    assert_eq!(Instruction::from_opcode(0xff), Instruction::Isc);
    assert_eq!(Instruction::from_opcode(0x02), Instruction::Stp);
}

#[test]
fn instruction_types() {
    assert_eq!(Instruction::Lda.get_type(), InstructionType::Read);
    assert_eq!(Instruction::Inc.get_type(), InstructionType::ReadModifyWrite);
    assert_eq!(Instruction::Sta.get_type(), InstructionType::Write);
    assert_eq!(Instruction::Jsr.get_type(), InstructionType::Stack);
    assert_eq!(Instruction::Jmp.get_type(), InstructionType::Jump);
    assert_eq!(Instruction::Tax.get_type(), InstructionType::NoReadWrite);
    assert_eq!(Instruction::Cpx.get_type(), InstructionType::NoReadWrite);
}

#[test]
fn address_modes_of_the_first_opcodes() {
    assert_eq!(AddressMode::from_opcode(0), AddressMode::Implicit);
    assert_eq!(AddressMode::from_opcode(1), AddressMode::ZeroPage);
    assert_eq!(AddressMode::from_opcode(2), AddressMode::Implicit);
    assert_eq!(AddressMode::from_opcode(3), AddressMode::Absolute);
}

#[test]
fn operand_counts() {
    assert_eq!(AddressMode::Implicit.get_operand_count(), 0);
    assert_eq!(AddressMode::Accumulator.get_operand_count(), 0);
    assert_eq!(AddressMode::Immediate.get_operand_count(), 1);
    assert_eq!(AddressMode::Absolute.get_operand_count(), 2);
    assert_eq!(AddressMode::Relative.get_operand_count(), 1);
    assert_eq!(AddressMode::ZeroPage.get_operand_count(), 1);
    assert_eq!(AddressMode::Indirect.get_operand_count(), 2);
    assert_eq!(AddressMode::AbsoluteIndexedY.get_operand_count(), 2);
    assert_eq!(AddressMode::IndirectIndexedY.get_operand_count(), 1);
}

#[test]
fn fetch_leads_into_the_addressing_sequence() {
    assert_eq!(transition(&State::ReadOpcode, 0xa9, false), Some(State::Immediate));
    assert_eq!(transition(&State::ReadOpcode, 0xe8, false), Some(State::Implied));
    assert_eq!(transition(&State::ReadOpcode, 0x20, false), Some(State::FetchSubroutineLowByte));
    assert_eq!(transition(&State::ReadOpcode, 0x00, false), Some(State::DummyReadAndIncrementPC));
    assert_eq!(transition(&State::ReadOpcode, 0x60, false), Some(State::DummyRead));
    assert_eq!(transition(&State::ReadOpcode, 0xd0, false), Some(State::Relative));
}

#[test]
fn unsupported_opcodes_have_no_next_state() {
    assert_eq!(transition(&State::ReadOpcode, 0x02, false), None);
    assert_eq!(transition(&State::ReadOpcode, 0x03, false), None);
    assert_eq!(transition(&State::ReadOpcode, 0x9c, false), None);
    assert_eq!(transition(&State::ReadOpcode, 0x0b, false), None);
}

#[test]
fn indexed_reads_skip_the_fix_unless_a_page_is_crossed() {
    assert_eq!(transition(&State::AbsoluteIndexedXHighByte, 0xbd, false), Some(State::ReadStart));
    assert_eq!(transition(&State::AbsoluteIndexedXHighByte, 0xbd, true), Some(State::FixHighByte));
    // stores and read-modify-writes always take the fix cycle
    assert_eq!(transition(&State::AbsoluteIndexedXHighByte, 0x9d, false), Some(State::FixHighByte));
    assert_eq!(transition(&State::FixHighByte, 0x9d, false), Some(State::WriteStart));
    assert_eq!(transition(&State::FixHighByte, 0xfe, false), Some(State::ReadWriteStart));
}

#[test]
fn stack_sequences() {
    assert_eq!(transition(&State::PushPCLowByte, 0x00, false), Some(State::PushStatusRegisteWithBFlag));
    assert_eq!(transition(&State::PushPCLowByte, 0x20, false), Some(State::FetchSubroutineHighByte));
    assert_eq!(transition(&State::IncrementSP, 0x60, false), Some(State::PullPCHighByte));
    assert_eq!(transition(&State::PullPCHighByte, 0x60, false), Some(State::PullPCLowByte));
    assert_eq!(transition(&State::PullPCLowByte, 0x60, false), Some(State::IncrementPC));
    assert_eq!(transition(&State::PullPCLowByte, 0x40, false), Some(State::ReadOpcode));
    assert_eq!(transition(&State::IncrementSP, 0x68, false), Some(State::PullAccumulator));
}
