use lib::cpu::Cpu;
use lib::ppu::Ppu;
use lib::transition::State;

/// Writes `bytes` to RAM from address `high:low` on.
fn load(cpu: &mut Cpu, low: u8, high: u8, bytes: &[u8]) {
    for (i, byte) in bytes.iter().enumerate() {
        cpu.ram.write(low + i as u8, high, *byte);
    }
}

/// Runs `n` cycles.
fn run(cpu: &mut Cpu, n: usize) {
    for _ in 0..n {
        cpu.cycle();
    }
}

#[test]
fn jsr_and_rts_come_back_after_the_call() {
    let mut cpu = Cpu::new();
    cpu.stack_pointer.write(0xfd);
    load(&mut cpu, 0x00, 0x00, &[0x20, 0x10, 0x03]); // JSR $0310
    load(&mut cpu, 0x10, 0x03, &[0x60]); // RTS

    cpu.cycle();
    assert_eq!(cpu.state, State::FetchSubroutineLowByte);
    run(&mut cpu, 4);
    assert_eq!(cpu.state, State::FetchSubroutineHighByte);
    assert_eq!(cpu.ram.read(0xfd, 0x01), 0x00);
    assert_eq!(cpu.ram.read(0xfc, 0x01), 0x02);
    assert_eq!(cpu.stack_pointer.read(), 0xfb);
    cpu.cycle();
    assert_eq!(cpu.state, State::ReadOpcode);
    assert_eq!(cpu.program_counter.read(), 0x0310);

    cpu.cycle();
    assert_eq!(cpu.state, State::DummyRead);
    run(&mut cpu, 4);
    assert_eq!(cpu.state, State::IncrementPC);
    assert_eq!(cpu.program_counter.read(), 0x0002);
    // each pull moves the stack pointer on past the byte it read
    assert_eq!(cpu.stack_pointer.read(), 0xfe);
    cpu.cycle();
    assert_eq!(cpu.state, State::ReadOpcode);
    assert_eq!(cpu.program_counter.read(), 0x0003);
}

#[test]
fn pha_then_pla_restores_the_accumulator() {
    let mut cpu = Cpu::new();
    cpu.stack_pointer.write(0xfd);
    cpu.accumulator.write(0x42);
    load(&mut cpu, 0x00, 0x00, &[0x48, 0xa9, 0x00, 0x68]); // PHA; LDA #$00; PLA

    run(&mut cpu, 3);
    assert_eq!(cpu.state, State::ReadOpcode);
    assert_eq!(cpu.ram.read(0xfd, 0x01), 0x42);
    assert_eq!(cpu.stack_pointer.read(), 0xfc);

    run(&mut cpu, 2);
    assert_eq!(cpu.accumulator.read(), 0x00);

    run(&mut cpu, 4);
    assert_eq!(cpu.state, State::ReadOpcode);
    assert_eq!(cpu.accumulator.read(), 0x42);
    assert_eq!(cpu.program_counter.read(), 0x0004);
    assert_eq!(cpu.stack_pointer.read(), 0xfe);
    // PLA sets no flags: Z still comes from LDA #$00
    assert_eq!(cpu.status_register.read(), 0b00100010);
}

#[test]
fn php_pushes_the_break_bits_and_plp_drops_them() {
    let mut cpu = Cpu::new();
    cpu.stack_pointer.write(0xfd);
    load(&mut cpu, 0x00, 0x00, &[0x08, 0x28]); // PHP; PLP
    run(&mut cpu, 3);
    assert_eq!(cpu.ram.read(0xfd, 0x01), 0x30);
    cpu.ram.write(0xfd, 0x01, 0xff);
    run(&mut cpu, 4);
    assert_eq!(cpu.state, State::ReadOpcode);
    assert_eq!(cpu.status_register.read(), 0xcf);
    assert_eq!(cpu.stack_pointer.read(), 0xfd);
}

#[test]
fn adc_sets_overflow_when_the_signed_sum_does_not_fit() {
    let mut cpu = Cpu::new();
    cpu.accumulator.write(0x7f);
    load(&mut cpu, 0x00, 0x00, &[0x69, 0x01]); // ADC #$01
    run(&mut cpu, 2);
    assert_eq!(cpu.accumulator.read(), 0x80);
    assert_eq!(cpu.status_register.read(), 0b11100000);
}

#[test]
fn adc_carries_out_of_the_byte() {
    let mut cpu = Cpu::new();
    cpu.accumulator.write(0xff);
    load(&mut cpu, 0x00, 0x00, &[0x69, 0x01]); // ADC #$01
    run(&mut cpu, 2);
    assert_eq!(cpu.accumulator.read(), 0x00);
    assert_eq!(cpu.status_register.read(), 0b00100011);
}

#[test]
fn sbc_subtracts_with_the_carry_as_borrow() {
    let mut cpu = Cpu::new();
    load(&mut cpu, 0x00, 0x00, &[0x38, 0xa9, 0x50, 0xe9, 0x10]); // SEC; LDA #$50; SBC #$10
    run(&mut cpu, 6);
    assert_eq!(cpu.accumulator.read(), 0x40);
    // no borrow: the carry stays set
    assert_eq!(cpu.status_register.read(), 0b00100001);
}

#[test]
fn bit_takes_its_flags_from_the_masked_value() {
    let mut cpu = Cpu::new();
    cpu.accumulator.write(0x40);
    load(&mut cpu, 0x00, 0x00, &[0x24, 0x10]); // BIT $10
    cpu.ram.write(0x10, 0x00, 0xc0);
    run(&mut cpu, 3);
    assert_eq!(cpu.state, State::ReadOpcode);
    assert_eq!(cpu.accumulator.read(), 0x40);
    // a & m is 0x40: bit 6 set, bit 7 clear, not zero
    assert_eq!(cpu.status_register.read(), 0b01100000);
}

#[test]
fn cmp_with_a_larger_operand_clears_carry() {
    let mut cpu = Cpu::new();
    cpu.accumulator.write(0x10);
    load(&mut cpu, 0x00, 0x00, &[0xc9, 0x20]); // CMP #$20
    run(&mut cpu, 2);
    assert_eq!(cpu.status_register.read(), 0b10100000);
}

#[test]
fn brk_pushes_and_fetches_the_vector_from_the_bus() {
    let mut cpu = Cpu::new();
    cpu.stack_pointer.write(0xfd);
    load(&mut cpu, 0x00, 0x00, &[0x00, 0x34]); // BRK
    cpu.cycle();
    assert_eq!(cpu.state, State::DummyReadAndIncrementPC);
    run(&mut cpu, 5);
    assert_eq!(cpu.state, State::FetchPCHighByte);
    assert_eq!(cpu.ram.read(0xfd, 0x01), 0x00);
    assert_eq!(cpu.ram.read(0xfc, 0x01), 0x02);
    assert_eq!(cpu.ram.read(0xfb, 0x01), 0x30);
    assert_eq!(cpu.stack_pointer.read(), 0xfa);
    cpu.cycle();
    assert_eq!(cpu.state, State::ReadOpcode);
    // nothing is mapped at $FFFE-$FFFF yet: both reads see the data bus
    assert_eq!(cpu.program_counter.read(), 0x3434);
}

#[test]
fn lsr_accumulator_shifts_into_carry() {
    let mut cpu = Cpu::new();
    cpu.accumulator.write(0x03);
    load(&mut cpu, 0x00, 0x00, &[0x4a]); // LSR A
    run(&mut cpu, 2);
    assert_eq!(cpu.accumulator.read(), 0x01);
    assert_eq!(cpu.status_register.read(), 0b00100001);
    assert_eq!(cpu.program_counter.read(), 0x0001);
}

#[test]
fn ror_zero_page_rotates_the_carry_in() {
    let mut cpu = Cpu::new();
    load(&mut cpu, 0x00, 0x00, &[0x38, 0x66, 0x20]); // SEC; ROR $20
    cpu.ram.write(0x20, 0x00, 0x02);
    run(&mut cpu, 2);
    run(&mut cpu, 5);
    assert_eq!(cpu.state, State::ReadOpcode);
    assert_eq!(cpu.ram.read(0x20, 0x00), 0x81);
    assert_eq!(cpu.status_register.read(), 0b10100000);
}

#[test]
fn inx_wraps_to_zero() {
    let mut cpu = Cpu::new();
    cpu.index_x.write(0xff);
    load(&mut cpu, 0x00, 0x00, &[0xe8]); // INX
    run(&mut cpu, 2);
    assert_eq!(cpu.index_x.read(), 0x00);
    assert_eq!(cpu.status_register.read(), 0b00100010);
}

#[test]
fn txs_sets_the_flags_of_the_value() {
    let mut cpu = Cpu::new();
    load(&mut cpu, 0x00, 0x00, &[0x9a]); // TXS
    run(&mut cpu, 2);
    assert_eq!(cpu.stack_pointer.read(), 0x00);
    assert_eq!(cpu.status_register.read(), 0b00100010);
}

#[test]
fn reads_above_ram_see_the_data_bus() {
    let mut cpu = Cpu::new();
    load(&mut cpu, 0x00, 0x00, &[0xad, 0x00, 0x80]); // LDA $8000
    run(&mut cpu, 4);
    assert_eq!(cpu.state, State::ReadOpcode);
    // the last byte on the bus was the operand's high byte
    assert_eq!(cpu.accumulator.read(), 0x80);
    assert_eq!(cpu.memory_data_register.read(), 0x80);
}

#[test]
fn store_indexed_takes_the_fix_cycle_without_a_page_cross() {
    let mut cpu = Cpu::new();
    cpu.accumulator.write(0x5a);
    cpu.index_x.write(0x01);
    load(&mut cpu, 0x00, 0x00, &[0x9d, 0x00, 0x02]); // STA $0200,X
    run(&mut cpu, 3);
    assert_eq!(cpu.state, State::FixHighByte);
    assert_eq!(cpu.memory_address_register.read(), 0x0201);
    run(&mut cpu, 2);
    assert_eq!(cpu.state, State::ReadOpcode);
    assert_eq!(cpu.ram.read(0x01, 0x02), 0x5a);
}

#[test]
fn connect_ppu_attaches_it() {
    let mut cpu = Cpu::new();
    assert!(cpu.ppu.is_none());
    cpu.connect_ppu(Box::new(Ppu::new()));
    assert!(cpu.ppu.is_some());
}

#[test]
fn inc_zero_page_takes_five_cycles() {
    let mut cpu = Cpu::new();
    cpu.program_counter.write(0x0200);
    load(&mut cpu, 0x00, 0x02, &[0xe6, 0x01]); // INC $01
    cpu.ram.write(0x01, 0x00, 0x37);
    cpu.cycle();
    assert_eq!(cpu.state, State::OneOperandStart);
    cpu.cycle();
    assert_eq!(cpu.state, State::ReadWriteStart);
    cpu.cycle();
    assert_eq!(cpu.state, State::ReadWriteExecute);
    cpu.cycle();
    assert_eq!(cpu.state, State::ReadWriteCommit);
    assert_eq!(cpu.alu_register.read(), 0x38);
    assert_eq!(cpu.status_register.read(), 0b00100000);
    cpu.cycle();
    assert_eq!(cpu.state, State::ReadOpcode);
    assert_eq!(cpu.ram.read(0x01, 0x00), 0x38);
}

#[test]
fn ram_is_mirrored_for_the_cpu() {
    let mut cpu = Cpu::new();
    load(&mut cpu, 0x00, 0x00, &[0x8d, 0x34, 0x12, 0xad, 0x34, 0x02]); // STA $1234; LDA $0234
    cpu.accumulator.write(0x99);
    run(&mut cpu, 4);
    assert_eq!(cpu.ram.read(0x34, 0x02), 0x99);
    cpu.accumulator.write(0x00);
    run(&mut cpu, 4);
    assert_eq!(cpu.accumulator.read(), 0x99);
}

#[test]
fn writes_above_ram_leave_it_unchanged() {
    let mut cpu = Cpu::new();
    cpu.accumulator.write(0x77);
    load(&mut cpu, 0x00, 0x00, &[0x8d, 0x00, 0x60]); // STA $6000
    run(&mut cpu, 4);
    assert_eq!(cpu.state, State::ReadOpcode);
    assert_eq!(cpu.ram.read(0x00, 0x00), 0x8d);
    assert_eq!(cpu.ram.read(0x00, 0x18), 0x8d);
}

#[test]
fn pla_sets_no_flags_and_moves_past_the_byte() {
    let mut cpu = Cpu::new();
    cpu.stack_pointer.write(0xfc);
    cpu.ram.write(0xfd, 0x01, 0x80);
    load(&mut cpu, 0x00, 0x00, &[0x68]); // PLA
    run(&mut cpu, 4);
    assert_eq!(cpu.state, State::ReadOpcode);
    assert_eq!(cpu.accumulator.read(), 0x80);
    assert_eq!(cpu.stack_pointer.read(), 0xfe);
    assert_eq!(cpu.status_register.read(), 0b00100000);
}
