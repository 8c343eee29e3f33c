use lib::cpu::Cpu;
use lib::transition::State;

#[test]
fn test_lda_immediate() {
    let mut cpu = Cpu::new();

    // write LDA #$F6 to ram
    cpu.ram.write(0x00, 0x00, 0xa9);
    cpu.ram.write(0x01, 0x00, 0xf6);
    
    cpu.cycle();
    assert_eq!(cpu.state, State::Immediate);
    assert_eq!(cpu.program_counter.read(), 0x0001);
    assert_eq!(cpu.accumulator.read(), 0x00);

    cpu.cycle();
    assert_eq!(cpu.state, State::ReadOpcode);
    assert_eq!(cpu.program_counter.read(), 0x0002);
    assert_eq!(cpu.accumulator.read(), 0xf6);
    assert!(!cpu.status_register.read_bit(1));
    assert!(cpu.status_register.read_bit(7));
}

#[test]
fn test_ldx_zero_page() {
    let mut cpu = Cpu::new();

    // write LDX $12 to ram, and write #$66 to $12
    cpu.ram.write(0x00, 0x00, 0xa6);
    cpu.ram.write(0x01, 0x00, 0x12);
    cpu.ram.write(0x12, 0x00, 0x66);

    
    cpu.cycle();
    assert_eq!(cpu.state, State::OneOperandStart);
    assert_eq!(cpu.program_counter.read(), 0x0001);
    assert_eq!(cpu.accumulator.read(), 0x00);

    cpu.cycle();
    assert_eq!(cpu.state, State::ReadStart);
    assert_eq!(cpu.program_counter.read(), 0x0002);
    assert_eq!(cpu.memory_address_register.read(), 0x0012);

    cpu.cycle();
    assert_eq!(cpu.state, State::ReadOpcode);
    assert_eq!(cpu.program_counter.read(), 0x0002);
    assert_eq!(cpu.index_x.read(), 0x66);
}

#[test]
fn test_adc_zero_page() {
    let mut cpu = Cpu::new();

    // write ADC $34 to ram, and write #$66 to $34
    cpu.ram.write(0x00, 0x00, 0x65);
    cpu.ram.write(0x01, 0x00, 0x34);
    cpu.ram.write(0x34, 0x00, 0x34);
    cpu.accumulator.write(0x55);
    cpu.status_register.set_bit(0);

    // this should set accumulator to 0x34 + 0x55 + 0x01 = 0x8a
    // so the overflow, negative flags should be set

    cpu.cycle();
    assert_eq!(cpu.state, State::OneOperandStart);
    assert_eq!(cpu.program_counter.read(), 0x0001);

    cpu.cycle();
    assert_eq!(cpu.state, State::ReadStart);
    assert_eq!(cpu.program_counter.read(), 0x0002);
    assert_eq!(cpu.memory_address_register.read(), 0x0034);

    cpu.cycle();
    assert_eq!(cpu.state, State::ReadOpcode);
    assert_eq!(cpu.program_counter.read(), 0x0002);
    assert_eq!(cpu.accumulator.read(), 0x8a);
    assert_eq!(cpu.status_register.read(), 0b11100000)
}

#[test]
fn test_sty_zero_page() {
    let mut cpu = Cpu::new();

    // write STY $77 to ram
    cpu.ram.write(0x00, 0x00, 0x84);
    cpu.ram.write(0x01, 0x00, 0x77);
    cpu.index_y.write(0x4f);

    cpu.cycle();
    assert_eq!(cpu.state, State::OneOperandStart);
    assert_eq!(cpu.program_counter.read(), 0x0001);

    cpu.cycle();
    assert_eq!(cpu.state, State::WriteStart);
    assert_eq!(cpu.program_counter.read(), 0x0002);
    assert_eq!(cpu.memory_address_register.read(), 0x0077);

    cpu.cycle();
    assert_eq!(cpu.state, State::ReadOpcode);
    assert_eq!(cpu.program_counter.read(), 0x0002);
    assert_eq!(cpu.ram.read(0x77, 0x00), 0x4f);
}

#[test]
fn test_eor_zero_page_indexed_x() {
    let mut cpu = Cpu::new();

    // write EOR $9f,x to ram
    cpu.ram.write(0x00, 0x00, 0x55);
    cpu.ram.write(0x01, 0x00, 0x9f);
    cpu.ram.write(0x1b, 0x00, 0xe5);
    cpu.accumulator.write(0x43);
    cpu.index_x.write(0x7c);

    // effective address = 0x9f + 0x7c = 0x1b (note that this wraps around)
    // new value = 0xe5 ^ 0x43 = 0xa6 

    cpu.cycle();
    assert_eq!(cpu.state, State::OneOperandStart);
    assert_eq!(cpu.program_counter.read(), 0x0001);

    cpu.cycle();
    assert_eq!(cpu.state, State::ZeroPageIndexedX);
    assert_eq!(cpu.program_counter.read(), 0x0002);
    assert_eq!(cpu.memory_address_register.read(), 0x009f);

    cpu.cycle();
    assert_eq!(cpu.state, State::ReadStart);
    assert_eq!(cpu.program_counter.read(), 0x0002);
    assert_eq!(cpu.memory_address_register.read(), 0x001b);

    cpu.cycle();
    assert_eq!(cpu.state, State::ReadOpcode);
    assert_eq!(cpu.program_counter.read(), 0x0002);
    assert_eq!(cpu.accumulator.read(), 0xa6);
    assert!(cpu.status_register.read_bit(7));
}

#[test]
fn test_inc_zero_page_indexed_x() {
    let mut cpu = Cpu::new();

    // write INC $37,x to ram
    cpu.ram.write(0x00, 0x00, 0xf6);
    cpu.ram.write(0x01, 0x00, 0x37);
    cpu.ram.write(0x79, 0x00, 0xff);
    cpu.index_x.write(0x42);

    // effective address = 0x37 + 0x42 = 0x79
    // new value = 0xff + 1 = 0x00

    cpu.cycle();
    assert_eq!(cpu.state, State::OneOperandStart);
    assert_eq!(cpu.program_counter.read(), 0x0001);
    
    cpu.cycle();
    assert_eq!(cpu.state, State::ZeroPageIndexedX);
    assert_eq!(cpu.program_counter.read(), 0x0002);
    assert_eq!(cpu.memory_address_register.read(), 0x0037);

    cpu.cycle();
    assert_eq!(cpu.state, State::ReadWriteStart);
    assert_eq!(cpu.program_counter.read(), 0x0002);
    assert_eq!(cpu.memory_address_register.read(), 0x0079);

    cpu.cycle();
    assert_eq!(cpu.state, State::ReadWriteExecute);
    assert_eq!(cpu.program_counter.read(), 0x0002);

    // note: i can't test for the extra write
    cpu.cycle();
    assert_eq!(cpu.state, State::ReadWriteCommit);
    assert_eq!(cpu.program_counter.read(), 0x0002);
    assert_eq!(cpu.status_register.read(), 0b00100010);
    assert_eq!(cpu.ram.read(0x79, 0x00), 0xff); // write not commited yet

    cpu.cycle();
    assert_eq!(cpu.state, State::ReadOpcode);
    assert_eq!(cpu.program_counter.read(), 0x0002);
    assert_eq!(cpu.ram.read(0x79, 0x00), 0x00);
}

#[test]
fn test_sta_indexed_indirect() {
    let mut cpu = Cpu::new();

    // write STA ($23,x) to ram
    cpu.ram.write(0x00, 0x00, 0x81);
    cpu.ram.write(0x01, 0x00, 0x79);
    cpu.ram.write(0x35, 0x00, 0x12);
    cpu.ram.write(0x36, 0x00, 0x06);
    cpu.index_x.write(0xbc);
    cpu.accumulator.write(0xa3);

    // pointer = 0x79 + 0xbc = 0x35
    // effective address = 0x0612 ($36 $35)

    cpu.cycle();
    assert_eq!(cpu.state, State::OneOperandStart);
    assert_eq!(cpu.program_counter.read(), 0x0001);
    
    cpu.cycle();
    assert_eq!(cpu.state, State::IndexedIndirectStart);
    assert_eq!(cpu.program_counter.read(), 0x0002);
    assert_eq!(cpu.memory_address_register.read_low(), 0x79);

    cpu.cycle();
    assert_eq!(cpu.state, State::IndexedIndirectLowByte);
    assert_eq!(cpu.memory_address_register.read(), 0x0035);

    cpu.cycle();
    assert_eq!(cpu.state, State::IndexedIndirectHighByte);
    assert_eq!(cpu.memory_data_register.read(), 0x12);

    cpu.cycle();
    assert_eq!(cpu.state, State::WriteStart);
    assert_eq!(cpu.memory_address_register.read(), 0x0612);

    cpu.cycle();
    assert_eq!(cpu.state, State::ReadOpcode);
    assert_eq!(cpu.program_counter.read(), 0x0002);
    assert_eq!(cpu.ram.read(0x12, 0x06), 0xa3)
}

#[test]
fn test_jmp_absolute_and_indirect() {
    let mut cpu = Cpu::new();

    // write JMP $0623 to ram
    cpu.ram.write(0x00, 0x00, 0x4c);
    cpu.ram.write(0x01, 0x00, 0x23);
    cpu.ram.write(0x02, 0x00, 0x06);
    
    // write a second JMP ($04ff) that crosses page boundaries
    // this should jump to $0288
    cpu.ram.write(0x23, 0x06, 0x6c);
    cpu.ram.write(0x24, 0x06, 0xff);
    cpu.ram.write(0x25, 0x06, 0x04);
    cpu.ram.write(0xff, 0x04, 0x88);
    cpu.ram.write(0x00, 0x04, 0x02);

    // first instruction
    cpu.cycle();
    assert_eq!(cpu.state, State::TwoOperandStart);
    assert_eq!(cpu.program_counter.read(), 0x0001);

    cpu.cycle();
    assert_eq!(cpu.state, State::JumpHighByte);
    assert_eq!(cpu.program_counter.read(), 0x0002);
    assert_eq!(cpu.memory_address_register.read_low(), 0x23);

    cpu.cycle();
    assert_eq!(cpu.state, State::ReadOpcode);
    assert_eq!(cpu.program_counter.read(), 0x0623);

    // second instruction
    cpu.cycle();
    assert_eq!(cpu.state, State::TwoOperandStart);
    assert_eq!(cpu.program_counter.read(), 0x0624);
    
    cpu.cycle();
    assert_eq!(cpu.state, State::AbsoluteIndirectHighByte);
    assert_eq!(cpu.program_counter.read(), 0x0625);
    assert_eq!(cpu.memory_address_register.read_low(), 0xff);

    cpu.cycle();
    assert_eq!(cpu.state, State::AbsoluteIndirectLowByteActual);
    assert_eq!(cpu.memory_address_register.read(), 0x04ff);

    cpu.cycle();
    assert_eq!(cpu.state, State::AbsoluteIndirectHighByteActual);
    assert_eq!(cpu.memory_data_register.read(), 0x88);
    assert_eq!(cpu.memory_address_register.read(), 0x0400);

    cpu.cycle();
    assert_eq!(cpu.state, State::ReadOpcode);
    assert_eq!(cpu.program_counter.read(), 0x0288);
}

#[test]
fn test_bvs() {
    let mut cpu = Cpu::new();

    // write BVS $10 (that will not be taken)
    cpu.ram.write(0x00, 0x00, 0x70);
    cpu.ram.write(0x01, 0x00, 0x10);
    
    // write BVS $7f (that will be taken)
    cpu.ram.write(0x02, 0x00, 0x70);
    cpu.ram.write(0x03, 0x00, 0x7f);

    // write BVS $7f (that crosses page boundary)
    cpu.ram.write(0x83, 0x00, 0x70);
    cpu.ram.write(0x84, 0x00, 0x7f);

    // write BVS $80 (that crosses page boundary backwards)
    cpu.ram.write(0x04, 0x01, 0x70);
    cpu.ram.write(0x05, 0x01, 0x80);

    // so pc should be $0086 after this
    
    // the BVS $10 instruction
    cpu.cycle();
    assert_eq!(cpu.state, State::Relative);
    assert_eq!(cpu.program_counter.read(), 0x0001);

    // branch not taken, so continue to next instruction
    cpu.cycle();
    assert_eq!(cpu.state, State::ReadOpcode);
    assert_eq!(cpu.program_counter.read(), 0x0002);

    // fake the overflow flag being set
    cpu.status_register.set_bit(6);
    
    // the (first) BVS $7f instruction
    cpu.cycle();
    assert_eq!(cpu.state, State::Relative);
    assert_eq!(cpu.program_counter.read(), 0x0003);

    cpu.cycle();
    assert_eq!(cpu.state, State::RelativeLowByte);
    assert_eq!(cpu.program_counter.read(), 0x0004);

    cpu.cycle();
    assert_eq!(cpu.state, State::ReadOpcode);
    assert_eq!(cpu.program_counter.read(), 0x0083);

    // the (second) BVS $7f instruction
    cpu.cycle();
    assert_eq!(cpu.state, State::Relative);
    assert_eq!(cpu.program_counter.read(), 0x0084);

    cpu.cycle();
    assert_eq!(cpu.state, State::RelativeLowByte);
    assert_eq!(cpu.program_counter.read(), 0x0085);

    // cpu fucked up
    cpu.cycle();
    assert_eq!(cpu.state, State::RelativeHighByte);
    assert_eq!(cpu.program_counter.read(), 0x0004);
    
    // fix it
    cpu.cycle();
    assert_eq!(cpu.state, State::ReadOpcode);
    assert_eq!(cpu.program_counter.read(), 0x0104);

    // the BVS $80 instruction
    cpu.cycle();
    assert_eq!(cpu.state, State::Relative);
    assert_eq!(cpu.program_counter.read(), 0x0105);

    cpu.cycle();
    assert_eq!(cpu.state, State::RelativeLowByte);
    assert_eq!(cpu.program_counter.read(), 0x0106);

    cpu.cycle();
    assert_eq!(cpu.state, State::RelativeHighByte);
    assert_eq!(cpu.program_counter.read(), 0x0186);
    
    cpu.cycle();
    assert_eq!(cpu.state, State::ReadOpcode);
    assert_eq!(cpu.program_counter.read(), 0x0086);
}

#[test]
fn test_flag_setting() {
    let mut cpu = Cpu::new();
    
    cpu.ram.write(0x00, 0x00, 0x38); // SEC
    cpu.ram.write(0x01, 0x00, 0xf8); // SED
    cpu.ram.write(0x02, 0x00, 0x78); // SEI
    cpu.ram.write(0x03, 0x00, 0x18); // CLC
    cpu.ram.write(0x04, 0x00, 0xd8); // CLD
    cpu.ram.write(0x05, 0x00, 0x58); // CLI
    cpu.ram.write(0x06, 0x00, 0xb8); // CLV

    // fake a "set overflow" instruction
    cpu.status_register.set_bit(6);
    
    cpu.cycle();
    assert_eq!(cpu.state, State::Implied);
    assert_eq!(cpu.program_counter.read(), 0x0001);

    cpu.cycle();
    assert_eq!(cpu.state, State::ReadOpcode);
    assert_eq!(cpu.program_counter.read(), 0x0001);
    assert_eq!(cpu.status_register.read(), 0b01100001);

    cpu.cycle();
    assert_eq!(cpu.state, State::Implied);
    assert_eq!(cpu.program_counter.read(), 0x0002);

    cpu.cycle();
    assert_eq!(cpu.state, State::ReadOpcode);
    assert_eq!(cpu.program_counter.read(), 0x0002);
    assert_eq!(cpu.status_register.read(), 0b01101001);

    cpu.cycle();
    assert_eq!(cpu.state, State::Implied);
    assert_eq!(cpu.program_counter.read(), 0x0003);

    cpu.cycle();
    assert_eq!(cpu.state, State::ReadOpcode);
    assert_eq!(cpu.program_counter.read(), 0x0003);
    assert_eq!(cpu.status_register.read(), 0b01101101);

    cpu.cycle();
    assert_eq!(cpu.state, State::Implied);
    assert_eq!(cpu.program_counter.read(), 0x0004);

    cpu.cycle();
    assert_eq!(cpu.state, State::ReadOpcode);
    assert_eq!(cpu.program_counter.read(), 0x0004);
    assert_eq!(cpu.status_register.read(), 0b01101100);
    
    cpu.cycle();
    assert_eq!(cpu.state, State::Implied);
    assert_eq!(cpu.program_counter.read(), 0x0005);

    cpu.cycle();
    assert_eq!(cpu.state, State::ReadOpcode);
    assert_eq!(cpu.program_counter.read(), 0x0005);
    assert_eq!(cpu.status_register.read(), 0b01100100);

    cpu.cycle();
    assert_eq!(cpu.state, State::Implied);
    assert_eq!(cpu.program_counter.read(), 0x0006);

    cpu.cycle();
    assert_eq!(cpu.state, State::ReadOpcode);
    assert_eq!(cpu.program_counter.read(), 0x0006);
    assert_eq!(cpu.status_register.read(), 0b01100000);

    cpu.cycle();
    assert_eq!(cpu.state, State::Implied);
    assert_eq!(cpu.program_counter.read(), 0x0007);

    cpu.cycle();
    assert_eq!(cpu.state, State::ReadOpcode);
    assert_eq!(cpu.program_counter.read(), 0x0007);
    assert_eq!(cpu.status_register.read(), 0b00100000);
}

#[test]
fn test_stx_zero_page_indexed_y() {
    let mut cpu = Cpu::new();
    
    // STX ($13,y)
    cpu.ram.write(0x00, 0x00, 0x96);
    cpu.ram.write(0x01, 0x00, 0x43);
    cpu.index_x.write(0x99);
    cpu.index_y.write(0xff);
    
    // effective address = 0x43 + 0xff = 0x42

    cpu.cycle();
    assert_eq!(cpu.state, State::OneOperandStart);
    assert_eq!(cpu.program_counter.read(), 0x0001);

    cpu.cycle();
    assert_eq!(cpu.state, State::ZeroPageIndexedY);
    assert_eq!(cpu.program_counter.read(), 0x0002);
    assert_eq!(cpu.memory_address_register.read(), 0x0043);

    cpu.cycle();
    assert_eq!(cpu.state, State::WriteStart);
    assert_eq!(cpu.memory_address_register.read(), 0x0042);

    cpu.cycle();
    assert_eq!(cpu.state, State::ReadOpcode);
    assert_eq!(cpu.ram.read(0x42, 0x00), 0x99);
}

#[test]
fn test_asl_absolute() {
    let mut cpu = Cpu::new();
    
    // ASL $0123
    cpu.ram.write(0x00, 0x00, 0x0e);
    cpu.ram.write(0x01, 0x00, 0x23);
    cpu.ram.write(0x02, 0x00, 0x01);
    cpu.ram.write(0x23, 0x01, 0xe2);

    cpu.cycle();
    assert_eq!(cpu.state, State::TwoOperandStart);
    assert_eq!(cpu.program_counter.read(), 0x0001);

    cpu.cycle();
    assert_eq!(cpu.state, State::AbsoluteAddressHighByte);
    assert_eq!(cpu.program_counter.read(), 0x0002);
    assert_eq!(cpu.memory_address_register.read(), 0x0023);

    cpu.cycle();
    assert_eq!(cpu.state, State::ReadWriteStart);
    assert_eq!(cpu.program_counter.read(), 0x0003);
    assert_eq!(cpu.memory_address_register.read(), 0x0123);

    cpu.cycle();
    assert_eq!(cpu.state, State::ReadWriteExecute);
    assert_eq!(cpu.memory_data_register.read(), 0xe2);

    cpu.cycle();
    assert_eq!(cpu.state, State::ReadWriteCommit);
    assert_eq!(cpu.alu_register.read(), 0xc4);
    assert_eq!(cpu.status_register.read(), 0b10100001);

    cpu.cycle();
    assert_eq!(cpu.state, State::ReadOpcode);
    assert_eq!(cpu.program_counter.read(), 0x0003);
    assert_eq!(cpu.ram.read(0x23, 0x01), 0xc4);
}

#[test]
fn test_and_indirect_indexed() {
    let mut cpu = Cpu::new();

    // AND ($12),y => AND $0102,y => AND $0103
    cpu.ram.write(0x00, 0x00, 0x31);
    cpu.ram.write(0x01, 0x00, 0x12);
    cpu.ram.write(0x12, 0x00, 0x02);
    cpu.ram.write(0x13, 0x00, 0x01);
    cpu.ram.write(0x03, 0x01, 0xf3);

    // AND ($14),y => AND $01ff,y => AND $0200
    cpu.ram.write(0x02, 0x00, 0x31);
    cpu.ram.write(0x03, 0x00, 0x14);
    cpu.ram.write(0x14, 0x00, 0xff);
    cpu.ram.write(0x15, 0x00, 0x01);
    cpu.ram.write(0x00, 0x02, 0x2c);

    cpu.accumulator.write(0x8f);
    cpu.index_y.write(0x01);
    
    cpu.cycle();
    assert_eq!(cpu.state, State::OneOperandStart);
    assert_eq!(cpu.program_counter.read(), 0x0001);

    cpu.cycle();
    assert_eq!(cpu.state, State::IndirectIndexedLowByte);
    assert_eq!(cpu.program_counter.read(), 0x0002);
    assert_eq!(cpu.memory_address_register.read(), 0x0012);

    cpu.cycle();
    assert_eq!(cpu.state, State::IndirectIndexedHighByte);
    assert_eq!(cpu.memory_address_register.read(), 0x0013);
    assert_eq!(cpu.memory_data_register.read(), 0x02);

    cpu.cycle();
    assert_eq!(cpu.state, State::ReadStart);
    assert_eq!(cpu.memory_address_register.read(), 0x0103);

    cpu.cycle();
    assert_eq!(cpu.state, State::ReadOpcode);
    assert_eq!(cpu.program_counter.read(), 0x0002);
    assert_eq!(cpu.accumulator.read(), 0x83);
    assert_eq!(cpu.status_register.read(), 0b10100000);

    cpu.cycle();
    assert_eq!(cpu.state, State::OneOperandStart);
    assert_eq!(cpu.program_counter.read(), 0x0003);

    cpu.cycle();
    assert_eq!(cpu.state, State::IndirectIndexedLowByte);
    assert_eq!(cpu.program_counter.read(), 0x0004);
    assert_eq!(cpu.memory_address_register.read(), 0x0014);

    cpu.cycle();
    assert_eq!(cpu.state, State::IndirectIndexedHighByte);
    assert_eq!(cpu.memory_address_register.read(), 0x0015);
    assert_eq!(cpu.memory_data_register.read(), 0xff);

    cpu.cycle();
    assert_eq!(cpu.state, State::FixHighByte);
    assert_eq!(cpu.memory_address_register.read(), 0x0100);

    cpu.cycle();
    assert_eq!(cpu.state, State::ReadStart);
    assert_eq!(cpu.memory_address_register.read(), 0x0200);

    cpu.cycle();
    assert_eq!(cpu.state, State::ReadOpcode);
    assert_eq!(cpu.program_counter.read(), 0x0004);
    assert_eq!(cpu.accumulator.read(), 0x00);
    assert_eq!(cpu.status_register.read(), 0b00100010);
}

#[test]
fn test_cmp_absolute_indexed_x() {
    let mut cpu = Cpu::new();

    // CMP $0123,x => CMP $01a3
    cpu.ram.write(0x00, 0x00, 0xdd);
    cpu.ram.write(0x01, 0x00, 0x23);
    cpu.ram.write(0x02, 0x00, 0x01);
    cpu.ram.write(0xa3, 0x01, 0x33);

    // CMP $0180,x => CMP $0200
    cpu.ram.write(0x03, 0x00, 0xdd);
    cpu.ram.write(0x04, 0x00, 0x80);
    cpu.ram.write(0x05, 0x00, 0x01);
    cpu.ram.write(0x00, 0x02, 0x34);

    cpu.index_x.write(0x80);
    cpu.accumulator.write(0x33);

    cpu.cycle();
    assert_eq!(cpu.state, State::TwoOperandStart);
    assert_eq!(cpu.program_counter.read(), 0x0001);

    cpu.cycle();
    assert_eq!(cpu.state, State::AbsoluteIndexedXHighByte);
    assert_eq!(cpu.program_counter.read(), 0x0002);
    assert_eq!(cpu.memory_address_register.read_low(), 0x23);

    cpu.cycle();
    assert_eq!(cpu.state, State::ReadStart);
    assert_eq!(cpu.program_counter.read(), 0x0003);
    assert_eq!(cpu.memory_address_register.read(), 0x01a3);

    cpu.cycle();
    assert_eq!(cpu.state, State::ReadOpcode);
    assert_eq!(cpu.program_counter.read(), 0x0003);
    assert_eq!(cpu.status_register.read(), 0b00100011);

    cpu.cycle();
    assert_eq!(cpu.state, State::TwoOperandStart);
    assert_eq!(cpu.program_counter.read(), 0x0004);

    cpu.cycle();
    assert_eq!(cpu.state, State::AbsoluteIndexedXHighByte);
    assert_eq!(cpu.program_counter.read(), 0x0005);
    assert_eq!(cpu.memory_address_register.read_low(), 0x80);

    cpu.cycle();
    assert_eq!(cpu.state, State::FixHighByte);
    assert_eq!(cpu.program_counter.read(), 0x0006);
    assert_eq!(cpu.memory_address_register.read(), 0x0100);

    cpu.cycle();
    assert_eq!(cpu.state, State::ReadStart);
    assert_eq!(cpu.memory_address_register.read(), 0x0200);

    cpu.cycle();
    assert_eq!(cpu.state, State::ReadOpcode);
    assert_eq!(cpu.program_counter.read(), 0x0006);
    assert_eq!(cpu.status_register.read(), 0b10100000);
}

#[test]
fn test_ora_absolute_indexed_y() {
    let mut cpu = Cpu::new();

    // ORA $0123,x => ORA $01a3
    cpu.ram.write(0x00, 0x00, 0x19);
    cpu.ram.write(0x01, 0x00, 0x23);
    cpu.ram.write(0x02, 0x00, 0x01);
    cpu.ram.write(0xa3, 0x01, 0x04);

    // ORA $0180,x => ORA $0200
    cpu.ram.write(0x03, 0x00, 0x19);
    cpu.ram.write(0x04, 0x00, 0x80);
    cpu.ram.write(0x05, 0x00, 0x01);
    cpu.ram.write(0x00, 0x02, 0x83);

    cpu.index_y.write(0x80);
    cpu.accumulator.write(0x23);

    cpu.cycle();
    assert_eq!(cpu.state, State::TwoOperandStart);
    assert_eq!(cpu.program_counter.read(), 0x0001);

    cpu.cycle();
    assert_eq!(cpu.state, State::AbsoluteIndexedYHighByte);
    assert_eq!(cpu.program_counter.read(), 0x0002);
    assert_eq!(cpu.memory_address_register.read_low(), 0x23);

    cpu.cycle();
    assert_eq!(cpu.state, State::ReadStart);
    assert_eq!(cpu.program_counter.read(), 0x0003);
    assert_eq!(cpu.memory_address_register.read(), 0x01a3);

    cpu.cycle();
    assert_eq!(cpu.state, State::ReadOpcode);
    assert_eq!(cpu.program_counter.read(), 0x0003);
    assert_eq!(cpu.accumulator.read(), 0x27);
    assert_eq!(cpu.status_register.read(), 0b00100000);

    cpu.cycle();
    assert_eq!(cpu.state, State::TwoOperandStart);
    assert_eq!(cpu.program_counter.read(), 0x0004);

    cpu.cycle();
    assert_eq!(cpu.state, State::AbsoluteIndexedYHighByte);
    assert_eq!(cpu.program_counter.read(), 0x0005);
    assert_eq!(cpu.memory_address_register.read_low(), 0x80);

    cpu.cycle();
    assert_eq!(cpu.state, State::FixHighByte);
    assert_eq!(cpu.program_counter.read(), 0x0006);
    assert_eq!(cpu.memory_address_register.read(), 0x0100);

    cpu.cycle();
    assert_eq!(cpu.state, State::ReadStart);
    assert_eq!(cpu.memory_address_register.read(), 0x0200);

    cpu.cycle();
    assert_eq!(cpu.state, State::ReadOpcode);
    assert_eq!(cpu.program_counter.read(), 0x0006);
    assert_eq!(cpu.accumulator.read(), 0xa7);
    assert_eq!(cpu.status_register.read(), 0b10100000);
}
