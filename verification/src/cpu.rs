use vstd::prelude::*;
use crate::alu::{
    lemma_add_overflow, lemma_byte_facts, lemma_shifts, signed_byte,
};
use crate::cpu_model::CpuView;
use crate::instructions::Instruction;
use crate::ppu::Ppu;
use crate::ram::Ram;
use crate::register::{Register8, Register16, high_of, low_of, with_bit8};
use crate::transition::{State, transition};

verus! {

broadcast use crate::register::group_bytes;

/// The 6502 core of the NES, run one clock cycle at a time.
pub struct Cpu {
    pub ram: Ram,
    pub ppu: Option<Box<Ppu>>,
    pub accumulator: Register8,
    pub index_x: Register8,
    pub index_y: Register8,
    pub program_counter: Register16,
    pub stack_pointer: Register8,
    pub status_register: Register8,
    pub memory_data_register: Register8,
    pub memory_address_register: Register16,
    pub alu_register: Register8,
    pub instruction_register: Register8,
    pub state: State,
    pub instruction: Instruction,
    pub oops_amount: i8,
}

impl View for Cpu {
    type V = CpuView;

    open spec fn view(&self) -> CpuView {
        CpuView {
            ram: self.ram@,
            ppu: self.ppu,
            a: self.accumulator@,
            x: self.index_x@,
            y: self.index_y@,
            pc: self.program_counter@,
            sp: self.stack_pointer@,
            p: self.status_register@,
            mdr: self.memory_data_register@,
            mar: self.memory_address_register@,
            alu: self.alu_register@,
            ir: self.instruction_register@,
            state: self.state,
            instruction: self.instruction,
            oops: self.oops_amount,
        }
    }
}

/// The CPU at power-on: RAM and registers cleared but for the unused status
/// bit 5, about to fetch an opcode.
pub open spec fn power_on_view() -> CpuView {
    CpuView {
        ram: Seq::new(2048, |i: int| 0u8),
        ppu: None,
        a: 0,
        x: 0,
        y: 0,
        pc: 0,
        sp: 0,
        p: 0x20,
        mdr: 0,
        mar: 0,
        alu: 0,
        ir: 0,
        state: State::ReadOpcode,
        instruction: Instruction::Nop,
        oops: 0,
    }
}

/// The CPU at power-on is consistent: it is about to fetch an opcode.
pub proof fn lemma_power_on_consistent()
    ensures
        power_on_view().consistent(),
        power_on_view().ram.len() == 2048,
{
}

// core methods
impl Cpu {
    pub fn new() -> (r: Cpu)
        ensures
            r@ == power_on_view(),
    {
        let mut res = Cpu {
            ram: Ram::new(),
            ppu: None,
            accumulator: Register8::new(),
            index_x: Register8::new(),
            index_y: Register8::new(),
            program_counter: Register16::new(),
            stack_pointer: Register8::new(),
            status_register: Register8::new(),
            memory_data_register: Register8::new(),
            memory_address_register: Register16::new(),
            alu_register: Register8::new(),
            instruction_register: Register8::new(),
            state: State::ReadOpcode,
            instruction: Instruction::Nop,
            oops_amount: 0,
        };
        res.status_register.set_bit(5);
        assert(0u8 | (1u8 << 5u8) == 0x20u8) by (bit_vector);
        res
    }

    pub fn connect_ppu(&mut self, ppu: Box<Ppu>)
        ensures
            final(self)@ == (CpuView { ppu: Some(ppu), ..old(self)@ }),
    {
        self.ppu = Some(ppu);
    }

    /// Runs one clock cycle: the step of the current state, then the move to
    /// the next state. The cycle is defined when the step can run the current
    /// instruction and the transition has a next state; a CPU that is
    /// consistent and about to fetch a supported opcode (or inside an
    /// instruction) always meets this (`lemma_cycle_keeps_consistent`).
    pub fn cycle(&mut self)
        requires
            old(self)@.cycle_defined(),
        ensures
            final(self)@ == old(self)@.cycled(),
    {
        let alt = match self.state {
            State::ReadOpcode => self.read_opcode(),
            State::Implied => self.implied(),
            State::Immediate => self.immediate(),
            State::OneOperandStart => self.one_operand(),
            State::TwoOperandStart => self.two_operand(),
            State::ReadStart => self.start_read(),
            State::ReadWriteStart => self.start_read_write(),
            State::ReadWriteExecute => self.read_write_execute(),
            State::ReadWriteCommit => self.read_write_commit(),
            State::WriteStart => self.start_write(),
            State::ZeroPageIndexedX => self.zero_page_indexed_x(),
            State::ZeroPageIndexedY => self.zero_page_indexed_y(),
            State::IndexedIndirectStart => self.indexed_indirect_pointer(),
            State::IndexedIndirectLowByte => self.indexed_indirect_low_byte(),
            State::IndexedIndirectHighByte => self.indexed_indirect_high_byte(),
            State::IndirectIndexedLowByte => self.indirect_indexed_low_byte(),
            State::IndirectIndexedHighByte => self.indirect_indexed_high_byte(),
            State::FixHighByte => self.fix_high_byte(),
            State::JumpHighByte => self.jump_high_byte(),
            State::AbsoluteAddressHighByte => self.absolute_address_high_byte(),
            State::AbsoluteIndexedXHighByte => self.absolute_indexed_x_high_byte(),
            State::AbsoluteIndexedYHighByte => self.absolute_indexed_y_high_byte(),
            State::AbsoluteIndirectHighByte => self.absolute_indirect_pointer_high_byte(),
            State::AbsoluteIndirectLowByteActual => self.absolute_indirect_low_byte(),
            State::AbsoluteIndirectHighByteActual => self.absolute_indirect_high_byte(),
            State::Relative => self.relative_pointer(),
            State::RelativeLowByte => self.relative_low_byte(),
            State::RelativeHighByte => self.relative_high_byte(),
            State::DummyRead => self.dummy_read(),
            State::DummyReadAndIncrementPC => self.dummy_read_and_increment_pc(),
            State::PushPCHighByte => self.push_pch(),
            State::PushPCLowByte => self.push_pcl(),
            State::PushStatusRegisteWithBFlag => self.push_sr_with_b(),
            State::FetchPCLowByte => self.fetch_pcl(),
            State::FetchPCHighByte => self.fetch_pch(),
            State::IncrementSP => self.increment_sp(),
            State::PullStatusRegisterAndIncrementSP => self.pull_sr_and_increment_sp(),
            State::PullPCLowByte => self.pull_pcl(),
            State::PullPCHighByte => self.pull_pch(),
            State::IncrementPC => self.increment_pc(),
            State::PushAccumulator => self.push_accumulator(),
            State::PushStatusRegister => self.push_sr(),
            State::PullAccumulator => self.pull_accumulator(),
            State::PullStatusRegister => self.pull_sr(),
            State::FetchSubroutineLowByte => self.fetch_subroutine_low_byte(),
            State::JSRMystery => self.do_nothing(),
            State::FetchSubroutineHighByte => self.fetch_subroutine_high_byte(),
        };
        // the precondition guarantees a next state
        if let Some(state) = transition(&self.state, self.instruction_register.read(), alt) {
            self.state = state;
        }
    }

    fn read(&mut self, low_byte: u8, high_byte: u8) -> (r: u8)
        ensures
            r == old(self)@.bus(low_byte, high_byte),
            final(self)@ == old(self)@.after_read(low_byte, high_byte),
    {
        let mut value = self.memory_data_register.read();
        // only the RAM is mapped so far; elsewhere the data bus keeps its value
        if high_byte < 0x20 {
            value = self.ram.read(low_byte, high_byte);
        }
        self.memory_data_register.write(value);
        value
    }

    fn read_from_program_counter(&mut self) -> (r: u8)
        ensures
            r == old(self)@.at_pc(),
            final(self)@ == old(self)@.after_read(low_of(old(self)@.pc), high_of(old(self)@.pc)),
    {
        let low = self.program_counter.read_low();
        let high = self.program_counter.read_high();
        self.read(low, high)
    }

    fn read_from_memory_address_register(&mut self) -> (r: u8)
        ensures
            r == old(self)@.at_mar(),
            final(self)@ == old(self)@.after_read(low_of(old(self)@.mar), high_of(old(self)@.mar)),
    {
        let low = self.memory_address_register.read_low();
        let high = self.memory_address_register.read_high();
        self.read(low, high)
    }

    fn read_from_stack_pointer(&mut self) -> (r: u8)
        ensures
            r == old(self)@.stack_top(),
            final(self)@ == old(self)@,
    {
        let stack_pointer = self.stack_pointer.read();
        self.ram.read(stack_pointer, 0x01)
    }

    fn write(&mut self, low_byte: u8, high_byte: u8, value: u8)
        ensures
            final(self)@ == old(self)@.written(low_byte, high_byte, value),
    {
        // only the RAM is mapped so far; writes elsewhere reach nothing
        if high_byte < 0x20 {
            self.ram.write(low_byte, high_byte, value);
        }
    }

    fn write_to_memory_address_register(&mut self, value: u8)
        ensures
            final(self)@ == old(self)@.written(
                low_of(old(self)@.mar),
                high_of(old(self)@.mar),
                value,
            ),
    {
        let low = self.memory_address_register.read_low();
        let high = self.memory_address_register.read_high();
        self.write(low, high, value);
    }

    fn write_to_stack_pointer(&mut self, value: u8)
        ensures
            final(self)@ == old(self)@.written(old(self)@.sp, 1, value),
    {
        let stack_pointer = self.stack_pointer.read();
        self.ram.write(stack_pointer, 0x01, value);
    }
}

// do states
impl Cpu {
    fn read_opcode(&mut self) -> (alt: bool)
        ensures
            (final(self)@, alt) == old(self)@.step_in(State::ReadOpcode),
    {
        let opcode = self.read_from_program_counter();
        self.instruction = Instruction::from_opcode(opcode);
        self.instruction_register.write(opcode);
        self.program_counter.increment();
        self.oops_amount = 0;
        false
    }

    fn implied(&mut self) -> (alt: bool)
        requires
            old(self)@.step_defined_in(State::Implied),
        ensures
            (final(self)@, alt) == old(self)@.step_in(State::Implied),
    {
        match self.instruction {
            Instruction::Inx => self.increment_index_x(),
            Instruction::Iny => self.increment_index_y(),
            Instruction::Dex => self.decrement_index_x(),
            Instruction::Dey => self.decrement_index_y(),
            Instruction::Asl => self.arithmetic_shift_left_accumulator(),
            Instruction::Rol => self.rotate_left_accumulator(),
            Instruction::Lsr => self.logical_shift_right_accumulator(),
            Instruction::Ror => self.rotate_right_accumulator(),
            Instruction::Txa => self.trasnfer_index_x_to_accumulator(),
            Instruction::Tya => self.transfer_index_y_to_accumulator(),
            Instruction::Tax => self.transfer_accumulator_to_index_x(),
            Instruction::Tay => self.transfer_accumulator_to_index_y(),
            Instruction::Tsx => self.transfer_stack_pointer_to_index_x(),
            Instruction::Txs => self.transfer_index_x_to_stack_pointer(),
            Instruction::Clc => self.clear_carry(),
            Instruction::Clv => self.clear_overflow(),
            Instruction::Cli => self.clear_interrupt_disable(),
            Instruction::Cld => self.clear_decimal(),
            Instruction::Sec => self.set_carry(),
            Instruction::Sei => self.set_interrupt_disable(),
            Instruction::Sed => self.set_decimal(),
            _ => {},  // NOP; the precondition leaves no other instruction here
        }
        false
    }

    /// Runs a read instruction on `value`.
    fn execute_read(&mut self, value: u8)
        requires
            old(self)@.step_defined_in(State::ReadStart) || old(self)@.step_defined_in(
                State::Immediate,
            ),
        ensures
            final(self)@ == old(self)@.apply_read(old(self)@.instruction, value),
    {
        match self.instruction {
            Instruction::Lda => self.load_accumulator(value),
            Instruction::Ldx => self.load_index_x(value),
            Instruction::Ldy => self.load_index_y(value),
            Instruction::Cmp => self.compare_accumulator(value),
            Instruction::Cpx => self.compare_index_x(value),
            Instruction::Cpy => self.compare_index_y(value),
            Instruction::And => self.bitwise_and(value),
            Instruction::Ora => self.bitwise_or(value),
            Instruction::Eor => self.bitwise_exclusive_or(value),
            Instruction::Adc => self.add_with_carry(value),
            Instruction::Sbc => self.subtract_with_carry(value),
            Instruction::Bit => self.bit_test(value),
            _ => {},  // NOP; the precondition leaves no other instruction here
        }
    }

    fn immediate(&mut self) -> (alt: bool)
        requires
            old(self)@.step_defined_in(State::Immediate),
        ensures
            (final(self)@, alt) == old(self)@.step_in(State::Immediate),
    {
        let value = self.read_from_program_counter();
        self.execute_read(value);
        self.program_counter.increment();
        false
    }

    fn one_operand(&mut self) -> (alt: bool)
        ensures
            (final(self)@, alt) == old(self)@.step_in(State::OneOperandStart),
    {
        let value = self.read_from_program_counter();
        self.memory_address_register.write_low(value);
        self.memory_address_register.write_high(0);
        self.program_counter.increment();
        false
    }

    fn two_operand(&mut self) -> (alt: bool)
        ensures
            (final(self)@, alt) == old(self)@.step_in(State::TwoOperandStart),
    {
        let value = self.read_from_program_counter();
        self.memory_address_register.write_low(value);
        self.program_counter.increment();
        false
    }

    fn start_read(&mut self) -> (alt: bool)
        requires
            old(self)@.step_defined_in(State::ReadStart),
        ensures
            (final(self)@, alt) == old(self)@.step_in(State::ReadStart),
    {
        let value = self.read_from_memory_address_register();
        self.execute_read(value);
        false
    }

    fn start_read_write(&mut self) -> (alt: bool)
        ensures
            (final(self)@, alt) == old(self)@.step_in(State::ReadWriteStart),
    {
        self.read_from_memory_address_register();
        false
    }

    fn read_write_execute(&mut self) -> (alt: bool)
        requires
            old(self)@.step_defined_in(State::ReadWriteExecute),
        ensures
            (final(self)@, alt) == old(self)@.step_in(State::ReadWriteExecute),
    {
        let value = self.read_from_memory_address_register();
        self.write_to_memory_address_register(value);  // fake write
        match self.instruction {
            Instruction::Asl => self.arithmetic_shift_left(value),
            Instruction::Lsr => self.logical_shift_right(value),
            Instruction::Rol => self.rotate_left(value),
            Instruction::Ror => self.rotate_right(value),
            Instruction::Inc => self.increment(value),
            _ => self.decrement(value),  // DEC, the only instruction left
        }
        false
    }

    fn read_write_commit(&mut self) -> (alt: bool)
        ensures
            (final(self)@, alt) == old(self)@.step_in(State::ReadWriteCommit),
    {
        let value = self.alu_register.read();
        self.write_to_memory_address_register(value);
        false
    }

    fn start_write(&mut self) -> (alt: bool)
        requires
            old(self)@.step_defined_in(State::WriteStart),
        ensures
            (final(self)@, alt) == old(self)@.step_in(State::WriteStart),
    {
        let value = match self.instruction {
            Instruction::Sta => self.accumulator.read(),
            Instruction::Stx => self.index_x.read(),
            _ => self.index_y.read(),  // STY, the only instruction left
        };
        self.write_to_memory_address_register(value);
        false
    }

    fn zero_page_indexed_x(&mut self) -> (alt: bool)
        ensures
            (final(self)@, alt) == old(self)@.step_in(State::ZeroPageIndexedX),
    {
        let mut effective_address = self.memory_address_register.read_low();
        let index_x = self.index_x.read();
        let ghost l = effective_address;
        effective_address = effective_address.wrapping_add(index_x);
        assert(effective_address == ((l + index_x) % 256) as u8);
        self.memory_address_register.write_low(effective_address);
        false
    }

    fn zero_page_indexed_y(&mut self) -> (alt: bool)
        ensures
            (final(self)@, alt) == old(self)@.step_in(State::ZeroPageIndexedY),
    {
        let mut effective_address = self.memory_address_register.read_low();
        let index_y = self.index_y.read();
        let ghost l = effective_address;
        effective_address = effective_address.wrapping_add(index_y);
        assert(effective_address == ((l + index_y) % 256) as u8);
        self.memory_address_register.write_low(effective_address);
        false
    }

    fn indexed_indirect_pointer(&mut self) -> (alt: bool)
        ensures
            (final(self)@, alt) == old(self)@.step_in(State::IndexedIndirectStart),
    {
        let mut effective_address = self.memory_address_register.read_low();
        let index_x = self.index_x.read();
        let ghost l = effective_address;
        effective_address = effective_address.wrapping_add(index_x);
        assert(effective_address == ((l + index_x) % 256) as u8);
        self.memory_address_register.write_low(effective_address);
        false
    }

    fn indexed_indirect_low_byte(&mut self) -> (alt: bool)
        ensures
            (final(self)@, alt) == old(self)@.step_in(State::IndexedIndirectLowByte),
    {
        self.read_from_memory_address_register();
        let ptr = self.memory_address_register.read_low();
        let next = ptr.wrapping_add(1);
        assert(next == ((ptr + 1) % 256) as u8);
        self.memory_address_register.write_low(next);
        false
    }

    fn indexed_indirect_high_byte(&mut self) -> (alt: bool)
        ensures
            (final(self)@, alt) == old(self)@.step_in(State::IndexedIndirectHighByte),
    {
        let low_byte = self.memory_data_register.read();
        let high_byte = self.read_from_memory_address_register();
        self.memory_address_register.write_low(low_byte);
        self.memory_address_register.write_high(high_byte);
        false
    }

    fn indirect_indexed_low_byte(&mut self) -> (alt: bool)
        ensures
            (final(self)@, alt) == old(self)@.step_in(State::IndirectIndexedLowByte),
    {
        self.read_from_memory_address_register();
        let ptr = self.memory_address_register.read_low();
        let next = ptr.wrapping_add(1);
        assert(next == ((ptr + 1) % 256) as u8);
        self.memory_address_register.write_low(next);
        false
    }

    fn indirect_indexed_high_byte(&mut self) -> (alt: bool)
        ensures
            (final(self)@, alt) == old(self)@.step_in(State::IndirectIndexedHighByte),
    {
        let low_byte = self.memory_data_register.read();
        let high_byte = self.read_from_memory_address_register();
        let oopsed = (low_byte as u16) + (self.index_y.read() as u16) >= 0x100;
        let new_low_byte = low_byte.wrapping_add(self.index_y.read());
        assert(new_low_byte == ((low_byte + self.index_y@) % 256) as u8);
        self.memory_address_register.write_low(new_low_byte);
        self.memory_address_register.write_high(high_byte);
        if oopsed {
            self.oops_amount = 1
        }
        oopsed
    }

    fn fix_high_byte(&mut self) -> (alt: bool)
        ensures
            (final(self)@, alt) == old(self)@.step_in(State::FixHighByte),
    {
        let high_byte = self.memory_address_register.read_high();
        let fixed = high_byte.wrapping_add_signed(self.oops_amount);
        assert(fixed == ((high_byte + self.oops_amount + 256) % 256) as u8);
        self.memory_address_register.write_high(fixed);
        false
    }

    fn jump_high_byte(&mut self) -> (alt: bool)
        ensures
            (final(self)@, alt) == old(self)@.step_in(State::JumpHighByte),
    {
        let low_byte = self.memory_address_register.read_low();
        let high_byte = self.read_from_program_counter();
        self.program_counter.write_low(low_byte);
        self.program_counter.write_high(high_byte);
        false
    }

    fn absolute_address_high_byte(&mut self) -> (alt: bool)
        ensures
            (final(self)@, alt) == old(self)@.step_in(State::AbsoluteAddressHighByte),
    {
        let high_byte = self.read_from_program_counter();
        self.memory_address_register.write_high(high_byte);
        self.program_counter.increment();
        false
    }

    fn absolute_indexed_x_high_byte(&mut self) -> (alt: bool)
        ensures
            (final(self)@, alt) == old(self)@.step_in(State::AbsoluteIndexedXHighByte),
    {
        let low_byte = self.memory_data_register.read();
        let high_byte = self.read_from_program_counter();
        let index_x = self.index_x.read();
        let oopsed = (low_byte as u16) + (index_x as u16) >= 0x100;
        let new_low_byte = low_byte.wrapping_add(index_x);
        assert(new_low_byte == ((low_byte + index_x) % 256) as u8);
        self.memory_address_register.write_low(new_low_byte);
        self.memory_address_register.write_high(high_byte);
        if oopsed {
            self.oops_amount = 1
        };
        self.program_counter.increment();
        oopsed
    }

    fn absolute_indexed_y_high_byte(&mut self) -> (alt: bool)
        ensures
            (final(self)@, alt) == old(self)@.step_in(State::AbsoluteIndexedYHighByte),
    {
        let low_byte = self.memory_data_register.read();
        let high_byte = self.read_from_program_counter();
        let index_y = self.index_y.read();
        let oopsed = (low_byte as u16) + (index_y as u16) >= 0x100;
        let new_low_byte = low_byte.wrapping_add(index_y);
        assert(new_low_byte == ((low_byte + index_y) % 256) as u8);
        self.memory_address_register.write_low(new_low_byte);
        self.memory_address_register.write_high(high_byte);
        if oopsed {
            self.oops_amount = 1
        };
        self.program_counter.increment();
        oopsed
    }

    fn absolute_indirect_pointer_high_byte(&mut self) -> (alt: bool)
        ensures
            (final(self)@, alt) == old(self)@.step_in(State::AbsoluteIndirectHighByte),
    {
        let high_byte = self.read_from_program_counter();
        self.memory_address_register.write_high(high_byte);
        self.program_counter.increment();
        false
    }

    fn absolute_indirect_low_byte(&mut self) -> (alt: bool)
        ensures
            (final(self)@, alt) == old(self)@.step_in(State::AbsoluteIndirectLowByteActual),
    {
        self.read_from_memory_address_register();
        let low_byte = self.memory_address_register.read_low();
        // as on the 6502, the carry out of the low byte does not reach the high byte
        let next = low_byte.wrapping_add(1);
        assert(next == ((low_byte + 1) % 256) as u8);
        self.memory_address_register.write_low(next);
        false
    }

    fn absolute_indirect_high_byte(&mut self) -> (alt: bool)
        ensures
            (final(self)@, alt) == old(self)@.step_in(State::AbsoluteIndirectHighByteActual),
    {
        let low_byte = self.memory_data_register.read();
        let high_byte = self.read_from_memory_address_register();
        self.program_counter.write_low(low_byte);
        self.program_counter.write_high(high_byte);
        false
    }

    fn relative_pointer(&mut self) -> (alt: bool)
        requires
            old(self)@.step_defined_in(State::Relative),
        ensures
            (final(self)@, alt) == old(self)@.step_in(State::Relative),
    {
        self.read_from_program_counter();
        let branch = match self.instruction {
            Instruction::Bcs => self.status_register.read_bit(0),
            Instruction::Bcc => !self.status_register.read_bit(0),
            Instruction::Beq => self.status_register.read_bit(1),
            Instruction::Bne => !self.status_register.read_bit(1),
            Instruction::Bvs => self.status_register.read_bit(6),
            Instruction::Bvc => !self.status_register.read_bit(6),
            Instruction::Bmi => self.status_register.read_bit(7),
            _ => !self.status_register.read_bit(7),  // BPL, the only branch left
        };
        self.program_counter.increment();
        branch
    }

    fn relative_low_byte(&mut self) -> (alt: bool)
        ensures
            (final(self)@, alt) == old(self)@.step_in(State::RelativeLowByte),
    {
        let mdr = self.memory_data_register.read();
        let branch_amount = mdr as i8;
        assert(branch_amount as int == signed_byte(mdr)) by (bit_vector)
            requires
                branch_amount == mdr as i8,
        ;
        let program_counter_low_byte = self.program_counter.read_low();
        let new_low_byte = (program_counter_low_byte as i16) + (branch_amount as i16);
        assert(new_low_byte == program_counter_low_byte + signed_byte(mdr));
        let mut alt = false;
        if new_low_byte < 0x00 {
            self.oops_amount = -1;
            alt = true;
        } else if new_low_byte >= 0x100 {
            self.oops_amount = 1;
            alt = true;
        }
        let new_low = program_counter_low_byte.wrapping_add_signed(branch_amount);
        assert(new_low == ((program_counter_low_byte + branch_amount + 256) % 256) as u8)
            by (bit_vector)
            requires
                new_low == program_counter_low_byte.wrapping_add_signed(branch_amount),
        ;
        self.program_counter.write_low(new_low);
        alt
    }

    fn relative_high_byte(&mut self) -> (alt: bool)
        ensures
            (final(self)@, alt) == old(self)@.step_in(State::RelativeHighByte),
    {
        let high_byte = self.program_counter.read_high();
        let fixed = high_byte.wrapping_add_signed(self.oops_amount);
        assert(fixed == ((high_byte + self.oops_amount + 256) % 256) as u8);
        self.program_counter.write_high(fixed);
        false
    }

    fn dummy_read(&mut self) -> (alt: bool)
        ensures
            (final(self)@, alt) == old(self)@.step_in(State::DummyRead),
    {
        self.read_from_program_counter();
        false
    }

    fn dummy_read_and_increment_pc(&mut self) -> (alt: bool)
        ensures
            (final(self)@, alt) == old(self)@.step_in(State::DummyReadAndIncrementPC),
    {
        self.read_from_program_counter();
        self.program_counter.increment();
        false
    }

    fn push_pch(&mut self) -> (alt: bool)
        ensures
            (final(self)@, alt) == old(self)@.step_in(State::PushPCHighByte),
    {
        let program_counter_high_byte = self.program_counter.read_high();
        self.write_to_stack_pointer(program_counter_high_byte);
        self.stack_pointer.decrement();
        false
    }

    fn push_pcl(&mut self) -> (alt: bool)
        ensures
            (final(self)@, alt) == old(self)@.step_in(State::PushPCLowByte),
    {
        let program_counter_low_byte = self.program_counter.read_low();
        self.write_to_stack_pointer(program_counter_low_byte);
        self.stack_pointer.decrement();
        false
    }

    fn push_sr_with_b(&mut self) -> (alt: bool)
        ensures
            (final(self)@, alt) == old(self)@.step_in(State::PushStatusRegisteWithBFlag),
    {
        let status_register = self.status_register.read() | 0x30;
        self.write_to_stack_pointer(status_register);
        self.stack_pointer.decrement();
        false
    }

    fn fetch_pcl(&mut self) -> (alt: bool)
        ensures
            (final(self)@, alt) == old(self)@.step_in(State::FetchPCLowByte),
    {
        let program_counter_low_byte = self.read(0xfe, 0xff);
        self.program_counter.write_low(program_counter_low_byte);
        false
    }

    fn fetch_pch(&mut self) -> (alt: bool)
        ensures
            (final(self)@, alt) == old(self)@.step_in(State::FetchPCHighByte),
    {
        let program_counter_high_byte = self.read(0xff, 0xff);
        self.program_counter.write_high(program_counter_high_byte);
        false
    }

    fn increment_sp(&mut self) -> (alt: bool)
        ensures
            (final(self)@, alt) == old(self)@.step_in(State::IncrementSP),
    {
        self.stack_pointer.increment();
        false
    }

    fn pull_sr_and_increment_sp(&mut self) -> (alt: bool)
        ensures
            (final(self)@, alt) == old(self)@.step_in(State::PullStatusRegisterAndIncrementSP),
    {
        let status_register = self.read_from_stack_pointer() & 0xcf;
        self.status_register.write(status_register);
        self.stack_pointer.increment();
        false
    }

    fn pull_pcl(&mut self) -> (alt: bool)
        ensures
            (final(self)@, alt) == old(self)@.step_in(State::PullPCLowByte),
    {
        let program_counter_high_byte = self.read_from_stack_pointer();
        self.program_counter.write_high(program_counter_high_byte);
        self.stack_pointer.increment();
        false
    }

    fn pull_pch(&mut self) -> (alt: bool)
        ensures
            (final(self)@, alt) == old(self)@.step_in(State::PullPCHighByte),
    {
        let program_counter_low_byte = self.read_from_stack_pointer();
        self.program_counter.write_low(program_counter_low_byte);
        self.stack_pointer.increment();
        false
    }

    fn increment_pc(&mut self) -> (alt: bool)
        ensures
            (final(self)@, alt) == old(self)@.step_in(State::IncrementPC),
    {
        self.program_counter.increment();
        false
    }

    fn push_accumulator(&mut self) -> (alt: bool)
        ensures
            (final(self)@, alt) == old(self)@.step_in(State::PushAccumulator),
    {
        let accumulator = self.accumulator.read();
        self.write_to_stack_pointer(accumulator);
        self.stack_pointer.decrement();
        false
    }

    fn push_sr(&mut self) -> (alt: bool)
        ensures
            (final(self)@, alt) == old(self)@.step_in(State::PushStatusRegister),
    {
        let status_register = self.status_register.read() | 0x30;
        self.write_to_stack_pointer(status_register);
        self.stack_pointer.decrement();
        false
    }

    fn pull_accumulator(&mut self) -> (alt: bool)
        ensures
            (final(self)@, alt) == old(self)@.step_in(State::PullAccumulator),
    {
        let accumulator = self.read_from_stack_pointer();
        self.accumulator.write(accumulator);
        self.stack_pointer.increment();
        false
    }

    fn pull_sr(&mut self) -> (alt: bool)
        ensures
            (final(self)@, alt) == old(self)@.step_in(State::PullStatusRegister),
    {
        let status_register = self.read_from_stack_pointer() & 0xcf;
        self.status_register.write(status_register);
        false
    }

    fn fetch_subroutine_low_byte(&mut self) -> (alt: bool)
        ensures
            (final(self)@, alt) == old(self)@.step_in(State::FetchSubroutineLowByte),
    {
        let low_byte = self.read_from_program_counter();
        self.memory_address_register.write_low(low_byte);
        self.program_counter.increment();
        false
    }

    fn fetch_subroutine_high_byte(&mut self) -> (alt: bool)
        ensures
            (final(self)@, alt) == old(self)@.step_in(State::FetchSubroutineHighByte),
    {
        let high_byte = self.read_from_program_counter();
        let low_byte = self.memory_address_register.read_low();
        self.program_counter.write_low(low_byte);
        self.program_counter.write_high(high_byte);
        false
    }

    fn do_nothing(&mut self) -> (alt: bool)
        ensures
            (final(self)@, alt) == old(self)@.step_in(State::JSRMystery),
    {
        false
    }
}

// instructions
impl Cpu {
    fn add_with_carry(&mut self, memory: u8)
        ensures
            final(self)@ == old(self)@.apply_read(Instruction::Adc, memory),
    {
        let accumulator = self.accumulator.read();
        let carry = self.status_register.read_bit(0) as u8;
        let result_16 = (accumulator as u16) + (memory as u16) + (carry as u16);
        let result = accumulator.wrapping_add(memory).wrapping_add(carry);
        assert(result == ((accumulator + memory + carry) % 256) as u8) by (bit_vector)
            requires
                result == accumulator.wrapping_add(memory).wrapping_add(carry),
        ;
        proof {
            lemma_add_overflow(accumulator, memory, result);
            lemma_byte_facts(result);
        }
        self.status_register.write_bit(0, result_16 > 0xff);
        self.status_register.write_bit(1, result == 0x00);
        self.status_register.write_bit(6, ((result ^ accumulator) & (result ^ memory)) >> 7 == 1);
        self.status_register.write_bit(7, result >> 7 == 1);
        self.accumulator.write(result);
    }

    fn subtract_with_carry(&mut self, memory: u8)
        ensures
            final(self)@ == old(self)@.apply_read(Instruction::Sbc, memory),
    {
        let accumulator = self.accumulator.read();
        let carry = self.status_register.read_bit(0) as u8;
        proof {
            lemma_byte_facts(carry);
            lemma_byte_facts(memory);
        }
        let result_16 = (accumulator as i16) - (memory as i16) - (1 - carry as i16);
        let result = accumulator.wrapping_add(!memory).wrapping_add(carry);
        assert(result == ((accumulator + (255 - memory) + carry) % 256) as u8) by (bit_vector)
            requires
                result == accumulator.wrapping_add(!memory).wrapping_add(carry),
        ;
        proof {
            lemma_add_overflow(accumulator, !memory, result);
            lemma_byte_facts(result);
        }
        self.status_register.write_bit(0, !(result_16 < 0x00));
        self.status_register.write_bit(1, result == 0x00);
        self.status_register.write_bit(6, ((result ^ accumulator) & (result ^ !memory)) >> 7 == 1);
        self.status_register.write_bit(7, result >> 7 == 1);
        self.accumulator.write(result);
    }

    fn bitwise_and(&mut self, memory: u8)
        ensures
            final(self)@ == old(self)@.apply_read(Instruction::And, memory),
    {
        let accumulator = self.accumulator.read();
        let result = accumulator & memory;
        proof {
            lemma_byte_facts(result);
        }
        self.status_register.write_bit(1, result == 0x00);
        self.status_register.write_bit(7, result >> 7 == 1);
        self.accumulator.write(result);
    }

    fn bitwise_or(&mut self, memory: u8)
        ensures
            final(self)@ == old(self)@.apply_read(Instruction::Ora, memory),
    {
        let accumulator = self.accumulator.read();
        let result = accumulator | memory;
        proof {
            lemma_byte_facts(result);
        }
        self.status_register.write_bit(1, result == 0x00);
        self.status_register.write_bit(7, result >> 7 == 1);
        self.accumulator.write(result);
    }

    fn bitwise_exclusive_or(&mut self, memory: u8)
        ensures
            final(self)@ == old(self)@.apply_read(Instruction::Eor, memory),
    {
        let accumulator = self.accumulator.read();
        let result = accumulator ^ memory;
        proof {
            lemma_byte_facts(result);
        }
        self.status_register.write_bit(1, result == 0x00);
        self.status_register.write_bit(7, result >> 7 == 1);
        self.accumulator.write(result);
    }

    fn arithmetic_shift_left_accumulator(&mut self)
        ensures
            final(self)@ == old(self)@.apply_implied(Instruction::Asl),
    {
        let memory = self.accumulator.read();
        let carry = 0u8;
        let result = memory << 1;
        proof {
            lemma_shifts(memory, carry);
            lemma_byte_facts(result);
        }
        self.status_register.write_bit(0, memory >> 7 == 1);
        self.status_register.write_bit(1, result == 0x00);
        self.status_register.write_bit(7, result >> 7 == 1);
        self.accumulator.write(result);
    }

    fn arithmetic_shift_left(&mut self, memory: u8)
        ensures
            final(self)@ == old(self)@.apply_rmw(Instruction::Asl, memory),
    {
        let carry = 0u8;
        let result = memory << 1;
        proof {
            lemma_shifts(memory, carry);
            lemma_byte_facts(result);
        }
        self.status_register.write_bit(0, memory >> 7 == 1);
        self.status_register.write_bit(1, result == 0x00);
        self.status_register.write_bit(7, result >> 7 == 1);
        self.alu_register.write(result);
    }

    fn rotate_left_accumulator(&mut self)
        ensures
            final(self)@ == old(self)@.apply_implied(Instruction::Rol),
    {
        let memory = self.accumulator.read();
        let carry = self.status_register.read_bit(0) as u8;
        let result = memory << 1 | carry;
        proof {
            lemma_shifts(memory, carry);
            lemma_byte_facts(result);
        }
        self.status_register.write_bit(0, memory >> 7 == 1);
        self.status_register.write_bit(1, result == 0x00);
        self.status_register.write_bit(7, result >> 7 == 1);
        self.accumulator.write(result);
    }

    fn rotate_left(&mut self, memory: u8)
        ensures
            final(self)@ == old(self)@.apply_rmw(Instruction::Rol, memory),
    {
        let carry = self.status_register.read_bit(0) as u8;
        let result = memory << 1 | carry;
        proof {
            lemma_shifts(memory, carry);
            lemma_byte_facts(result);
        }
        self.status_register.write_bit(0, memory >> 7 == 1);
        self.status_register.write_bit(1, result == 0x00);
        self.status_register.write_bit(7, result >> 7 == 1);
        self.alu_register.write(result);
    }

    fn logical_shift_right_accumulator(&mut self)
        ensures
            final(self)@ == old(self)@.apply_implied(Instruction::Lsr),
    {
        let memory = self.accumulator.read();
        let carry = 0u8;
        let result = memory >> 1;
        proof {
            lemma_shifts(memory, carry);
            lemma_byte_facts(result);
        }
        self.status_register.write_bit(0, memory & 1 == 1);
        self.status_register.write_bit(1, result == 0x00);
        self.status_register.write_bit(7, result >> 7 == 1);
        self.accumulator.write(result);
    }

    fn logical_shift_right(&mut self, memory: u8)
        ensures
            final(self)@ == old(self)@.apply_rmw(Instruction::Lsr, memory),
    {
        let carry = 0u8;
        let result = memory >> 1;
        proof {
            lemma_shifts(memory, carry);
            lemma_byte_facts(result);
        }
        self.status_register.write_bit(0, memory & 1 == 1);
        self.status_register.write_bit(1, result == 0x00);
        self.status_register.write_bit(7, result >> 7 == 1);
        self.alu_register.write(result);
    }

    fn rotate_right_accumulator(&mut self)
        ensures
            final(self)@ == old(self)@.apply_implied(Instruction::Ror),
    {
        let memory = self.accumulator.read();
        let carry = self.status_register.read_bit(0) as u8;
        let result = memory >> 1 | carry << 7;
        proof {
            lemma_shifts(memory, carry);
            lemma_byte_facts(result);
        }
        self.status_register.write_bit(0, memory & 1 == 1);
        self.status_register.write_bit(1, result == 0x00);
        self.status_register.write_bit(7, result >> 7 == 1);
        self.accumulator.write(result);
    }

    fn rotate_right(&mut self, memory: u8)
        ensures
            final(self)@ == old(self)@.apply_rmw(Instruction::Ror, memory),
    {
        let carry = self.status_register.read_bit(0) as u8;
        let result = memory >> 1 | carry << 7;
        proof {
            lemma_shifts(memory, carry);
            lemma_byte_facts(result);
        }
        self.status_register.write_bit(0, memory & 1 == 1);
        self.status_register.write_bit(1, result == 0x00);
        self.status_register.write_bit(7, result >> 7 == 1);
        self.alu_register.write(result);
    }

    fn bit_test(&mut self, memory: u8)
        ensures
            final(self)@ == old(self)@.apply_read(Instruction::Bit, memory),
    {
        let accumulator = self.accumulator.read();
        let result = accumulator & memory;
        proof {
            lemma_byte_facts(result);
        }
        self.status_register.write_bit(1, result == 0x00);
        self.status_register.write_bit(6, (result >> 6) & 1 == 1);
        self.status_register.write_bit(7, result >> 7 == 1);
    }

    fn clear_carry(&mut self)
        ensures
            final(self)@ == old(self)@.apply_implied(Instruction::Clc),
    {
        self.status_register.unset_bit(0);
    }

    fn clear_interrupt_disable(&mut self)
        ensures
            final(self)@ == old(self)@.apply_implied(Instruction::Cli),
    {
        self.status_register.unset_bit(2);
    }

    fn clear_decimal(&mut self)
        ensures
            final(self)@ == old(self)@.apply_implied(Instruction::Cld),
    {
        self.status_register.unset_bit(3);
    }

    fn clear_overflow(&mut self)
        ensures
            final(self)@ == old(self)@.apply_implied(Instruction::Clv),
    {
        self.status_register.unset_bit(6);
    }

    fn set_carry(&mut self)
        ensures
            final(self)@ == old(self)@.apply_implied(Instruction::Sec),
    {
        self.status_register.set_bit(0);
    }

    fn set_interrupt_disable(&mut self)
        ensures
            final(self)@ == old(self)@.apply_implied(Instruction::Sei),
    {
        self.status_register.set_bit(2);
    }

    fn set_decimal(&mut self)
        ensures
            final(self)@ == old(self)@.apply_implied(Instruction::Sed),
    {
        self.status_register.set_bit(3);
    }

    #[verifier::spinoff_prover]
    fn compare_accumulator(&mut self, memory: u8)
        ensures
            final(self)@ == old(self)@.apply_read(Instruction::Cmp, memory),
    {
        let accumulator = self.accumulator.read();
        let result = accumulator.wrapping_sub(memory);
        proof {
            lemma_byte_facts(result);
        }
        self.status_register.write_bit(0, accumulator >= memory);
        self.status_register.write_bit(1, accumulator == memory);
        self.status_register.write_bit(7, result >> 7 == 1);
    }

    #[verifier::spinoff_prover]
    fn compare_index_x(&mut self, memory: u8)
        ensures
            final(self)@ == old(self)@.apply_read(Instruction::Cpx, memory),
    {
        let index_x = self.index_x.read();
        let result = index_x.wrapping_sub(memory);
        proof {
            lemma_byte_facts(result);
        }
        self.status_register.write_bit(0, index_x >= memory);
        self.status_register.write_bit(1, index_x == memory);
        self.status_register.write_bit(7, result >> 7 == 1);
    }

    #[verifier::spinoff_prover]
    fn compare_index_y(&mut self, memory: u8)
        ensures
            final(self)@ == old(self)@.apply_read(Instruction::Cpy, memory),
    {
        let index_y = self.index_y.read();
        let result = index_y.wrapping_sub(memory);
        proof {
            lemma_byte_facts(result);
        }
        self.status_register.write_bit(0, index_y >= memory);
        self.status_register.write_bit(1, index_y == memory);
        self.status_register.write_bit(7, result >> 7 == 1);
    }

    fn decrement(&mut self, memory: u8)
        ensures
            final(self)@ == old(self)@.apply_rmw(Instruction::Dec, memory),
    {
        let result = memory.wrapping_sub(1);
        proof {
            lemma_byte_facts(result);
        }
        self.status_register.write_bit(1, result == 0);
        self.status_register.write_bit(7, result >> 7 == 1);
        self.alu_register.write(result);
    }

    fn decrement_index_x(&mut self)
        ensures
            final(self)@ == old(self)@.apply_implied(Instruction::Dex),
    {
        let result = self.index_x.read().wrapping_sub(1);
        proof {
            lemma_byte_facts(result);
        }
        self.status_register.write_bit(1, result == 0);
        self.status_register.write_bit(7, result >> 7 == 1);
        self.index_x.write(result);
    }

    fn decrement_index_y(&mut self)
        ensures
            final(self)@ == old(self)@.apply_implied(Instruction::Dey),
    {
        let result = self.index_y.read().wrapping_sub(1);
        proof {
            lemma_byte_facts(result);
        }
        self.status_register.write_bit(1, result == 0);
        self.status_register.write_bit(7, result >> 7 == 1);
        self.index_y.write(result);
    }

    fn increment(&mut self, memory: u8)
        ensures
            final(self)@ == old(self)@.apply_rmw(Instruction::Inc, memory),
    {
        let result = memory.wrapping_add(1);
        proof {
            lemma_byte_facts(result);
        }
        self.status_register.write_bit(1, result == 0);
        self.status_register.write_bit(7, result >> 7 == 1);
        self.alu_register.write(result);
    }

    fn increment_index_x(&mut self)
        ensures
            final(self)@ == old(self)@.apply_implied(Instruction::Inx),
    {
        let result = self.index_x.read().wrapping_add(1);
        proof {
            lemma_byte_facts(result);
        }
        self.status_register.write_bit(1, result == 0);
        self.status_register.write_bit(7, result >> 7 == 1);
        self.index_x.write(result);
    }

    fn increment_index_y(&mut self)
        ensures
            final(self)@ == old(self)@.apply_implied(Instruction::Iny),
    {
        let result = self.index_y.read().wrapping_add(1);
        proof {
            lemma_byte_facts(result);
        }
        self.status_register.write_bit(1, result == 0);
        self.status_register.write_bit(7, result >> 7 == 1);
        self.index_y.write(result);
    }

    fn load_accumulator(&mut self, memory: u8)
        ensures
            final(self)@ == old(self)@.apply_read(Instruction::Lda, memory),
    {
        proof {
            lemma_byte_facts(memory);
        }
        self.status_register.write_bit(1, memory == 0);
        self.status_register.write_bit(7, memory >> 7 == 1);
        self.accumulator.write(memory);
    }

    fn load_index_x(&mut self, memory: u8)
        ensures
            final(self)@ == old(self)@.apply_read(Instruction::Ldx, memory),
    {
        proof {
            lemma_byte_facts(memory);
        }
        self.status_register.write_bit(1, memory == 0);
        self.status_register.write_bit(7, memory >> 7 == 1);
        self.index_x.write(memory);
    }

    fn load_index_y(&mut self, memory: u8)
        ensures
            final(self)@ == old(self)@.apply_read(Instruction::Ldy, memory),
    {
        proof {
            lemma_byte_facts(memory);
        }
        self.status_register.write_bit(1, memory == 0);
        self.status_register.write_bit(7, memory >> 7 == 1);
        self.index_y.write(memory);
    }

    fn transfer_accumulator_to_index_x(&mut self)
        ensures
            final(self)@ == old(self)@.apply_implied(Instruction::Tax),
    {
        let result = self.accumulator.read();
        proof {
            lemma_byte_facts(result);
        }
        self.status_register.write_bit(1, result == 0);
        self.status_register.write_bit(7, result >> 7 == 1);
        self.index_x.write(result);
    }

    fn transfer_accumulator_to_index_y(&mut self)
        ensures
            final(self)@ == old(self)@.apply_implied(Instruction::Tay),
    {
        let result = self.accumulator.read();
        proof {
            lemma_byte_facts(result);
        }
        self.status_register.write_bit(1, result == 0);
        self.status_register.write_bit(7, result >> 7 == 1);
        self.index_y.write(result);
    }

    fn transfer_stack_pointer_to_index_x(&mut self)
        ensures
            final(self)@ == old(self)@.apply_implied(Instruction::Tsx),
    {
        let result = self.stack_pointer.read();
        proof {
            lemma_byte_facts(result);
        }
        self.status_register.write_bit(1, result == 0);
        self.status_register.write_bit(7, result >> 7 == 1);
        self.index_x.write(result);
    }

    fn trasnfer_index_x_to_accumulator(&mut self)
        ensures
            final(self)@ == old(self)@.apply_implied(Instruction::Txa),
    {
        let result = self.index_x.read();
        proof {
            lemma_byte_facts(result);
        }
        self.status_register.write_bit(1, result == 0);
        self.status_register.write_bit(7, result >> 7 == 1);
        self.accumulator.write(result);
    }

    fn transfer_index_x_to_stack_pointer(&mut self)
        ensures
            final(self)@ == old(self)@.apply_implied(Instruction::Txs),
    {
        let index_x = self.index_x.read();
        proof {
            lemma_byte_facts(index_x);
        }
        self.status_register.write_bit(1, index_x == 0);
        self.status_register.write_bit(7, index_x >> 7 == 1);
        self.stack_pointer.write(index_x);
    }

    fn transfer_index_y_to_accumulator(&mut self)
        ensures
            final(self)@ == old(self)@.apply_implied(Instruction::Tya),
    {
        let result = self.index_y.read();
        proof {
            lemma_byte_facts(result);
        }
        self.status_register.write_bit(1, result == 0);
        self.status_register.write_bit(7, result >> 7 == 1);
        self.accumulator.write(result);
    }
}

} // verus!
