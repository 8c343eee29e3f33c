use vstd::prelude::*;
use crate::alu::{
    CARRY, DECIMAL, INTERRUPT_DISABLE, NEGATIVE, OVERFLOW, ZERO, adc_result, adc_status, asl_result,
    bit_status, compare_status, lsr_result, negative, rol_result, ror_result, sbc_result, sbc_status,
    signed_byte, with_czn, with_zn,
};
use crate::instructions::{Instruction, InstructionType, decode};
use crate::ppu::Ppu;
use crate::ram::ram_index;
use crate::register::{
    bit8, high_of, join_bytes, lemma_bytes_value, lemma_join_split, low_of, with_bit8,
};
use crate::transition::{
    State, cycles_left, is_branch, is_immediate_op, is_implied_op, lemma_fetch_enters_sequence,
    lemma_sequence_closed, memory_access, next_state, supported, visits,
};

verus! {

/// What a CPU holds, as plain values.
pub ghost struct CpuView {
    pub ram: Seq<u8>,
    pub ppu: Option<Box<Ppu>>,
    pub a: u8,
    pub x: u8,
    pub y: u8,
    pub pc: u16,
    pub sp: u8,
    pub p: u8,
    pub mdr: u8,
    pub mar: u16,
    pub alu: u8,
    pub ir: u8,
    pub state: State,
    pub instruction: Instruction,
    pub oops: i8,
}

/// The value after `v` in a 16-bit counter.
pub open spec fn inc16(v: u16) -> u16 {
    ((v + 1) % 65536) as u16
}

/// The value after `v` in an 8-bit counter.
pub open spec fn inc8(v: u8) -> u8 {
    ((v + 1) % 256) as u8
}

/// The value before `v` in an 8-bit counter.
pub open spec fn dec8(v: u8) -> u8 {
    ((v + 255) % 256) as u8
}

/// `v + offset`, wrapped to a byte.
pub open spec fn add_offset8(v: u8, offset: int) -> u8 {
    ((v + offset + 256) % 256) as u8
}

/// Whether a branch instruction is taken under status `p`.
pub open spec fn branch_taken(ins: Instruction, p: u8) -> bool {
    match ins {
        Instruction::Bcs => bit8(p, CARRY),
        Instruction::Bcc => !bit8(p, CARRY),
        Instruction::Beq => bit8(p, ZERO),
        Instruction::Bne => !bit8(p, ZERO),
        Instruction::Bvs => bit8(p, OVERFLOW),
        Instruction::Bvc => !bit8(p, OVERFLOW),
        Instruction::Bmi => bit8(p, NEGATIVE),
        _ => !bit8(p, NEGATIVE),
    }
}

impl CpuView {
    /// The byte that the CPU sees at `high:low`: RAM below $2000; elsewhere
    /// nothing is mapped and the data bus keeps its last value.
    pub open spec fn bus(self, low: u8, high: u8) -> u8 {
        if high < 0x20 {
            self.ram[ram_index(low, high)]
        } else {
            self.mdr
        }
    }

    /// The CPU after reading `high:low` onto the data bus.
    pub open spec fn after_read(self, low: u8, high: u8) -> CpuView {
        CpuView { mdr: self.bus(low, high), ..self }
    }

    /// The CPU after writing `value` to `high:low`: RAM below $2000; writes
    /// elsewhere reach nothing mapped yet.
    pub open spec fn written(self, low: u8, high: u8, value: u8) -> CpuView {
        if high < 0x20 {
            CpuView { ram: self.ram.update(ram_index(low, high), value), ..self }
        } else {
            self
        }
    }

    /// The byte at the stack pointer.
    pub open spec fn stack_top(self) -> u8 {
        self.ram[ram_index(self.sp, 1)]
    }

    /// The CPU after pushing `value` onto the stack.
    pub open spec fn pushed(self, value: u8) -> CpuView {
        CpuView { ram: self.ram.update(ram_index(self.sp, 1), value), sp: dec8(self.sp), ..self }
    }

    /// The byte at the program counter.
    pub open spec fn at_pc(self) -> u8 {
        self.bus(low_of(self.pc), high_of(self.pc))
    }

    /// The byte at the memory address register.
    pub open spec fn at_mar(self) -> u8 {
        self.bus(low_of(self.mar), high_of(self.mar))
    }

    pub open spec fn pc_incremented(self) -> CpuView {
        CpuView { pc: inc16(self.pc), ..self }
    }

    /// An instruction that works on a value read from memory or the program.
    pub open spec fn apply_read(self, ins: Instruction, m: u8) -> CpuView {
        let (a, x, y, p) = (self.a, self.x, self.y, self.p);
        match ins {
            Instruction::Lda => CpuView { a: m, p: with_zn(p, m), ..self },
            Instruction::Ldx => CpuView { x: m, p: with_zn(p, m), ..self },
            Instruction::Ldy => CpuView { y: m, p: with_zn(p, m), ..self },
            Instruction::Cmp => CpuView { p: compare_status(p, a, m), ..self },
            Instruction::Cpx => CpuView { p: compare_status(p, x, m), ..self },
            Instruction::Cpy => CpuView { p: compare_status(p, y, m), ..self },
            Instruction::And => CpuView { a: a & m, p: with_zn(p, a & m), ..self },
            Instruction::Ora => CpuView { a: a | m, p: with_zn(p, a | m), ..self },
            Instruction::Eor => CpuView { a: a ^ m, p: with_zn(p, a ^ m), ..self },
            Instruction::Adc => CpuView { a: adc_result(a, m, p), p: adc_status(a, m, p), ..self },
            Instruction::Sbc => CpuView { a: sbc_result(a, m, p), p: sbc_status(a, m, p), ..self },
            Instruction::Bit => CpuView { p: bit_status(p, a, m), ..self },
            _ => self,
        }
    }

    /// A read-modify-write instruction on `m`: the result goes to the ALU register.
    pub open spec fn apply_rmw(self, ins: Instruction, m: u8) -> CpuView {
        let p = self.p;
        match ins {
            Instruction::Asl => CpuView {
                alu: asl_result(m),
                p: with_czn(p, negative(m), asl_result(m)),
                ..self
            },
            Instruction::Lsr => CpuView {
                alu: lsr_result(m),
                p: with_czn(p, m % 2 == 1, lsr_result(m)),
                ..self
            },
            Instruction::Rol => CpuView {
                alu: rol_result(m, p),
                p: with_czn(p, negative(m), rol_result(m, p)),
                ..self
            },
            Instruction::Ror => CpuView {
                alu: ror_result(m, p),
                p: with_czn(p, m % 2 == 1, ror_result(m, p)),
                ..self
            },
            Instruction::Inc => CpuView { alu: inc8(m), p: with_zn(p, inc8(m)), ..self },
            Instruction::Dec => CpuView { alu: dec8(m), p: with_zn(p, dec8(m)), ..self },
            _ => self,
        }
    }

    /// An instruction with no operand.
    pub open spec fn apply_implied(self, ins: Instruction) -> CpuView {
        let (a, x, y, p, sp) = (self.a, self.x, self.y, self.p, self.sp);
        match ins {
            Instruction::Inx => CpuView { x: inc8(x), p: with_zn(p, inc8(x)), ..self },
            Instruction::Iny => CpuView { y: inc8(y), p: with_zn(p, inc8(y)), ..self },
            Instruction::Dex => CpuView { x: dec8(x), p: with_zn(p, dec8(x)), ..self },
            Instruction::Dey => CpuView { y: dec8(y), p: with_zn(p, dec8(y)), ..self },
            Instruction::Asl => CpuView {
                a: asl_result(a),
                p: with_czn(p, negative(a), asl_result(a)),
                ..self
            },
            Instruction::Rol => CpuView {
                a: rol_result(a, p),
                p: with_czn(p, negative(a), rol_result(a, p)),
                ..self
            },
            Instruction::Lsr => CpuView {
                a: lsr_result(a),
                p: with_czn(p, a % 2 == 1, lsr_result(a)),
                ..self
            },
            Instruction::Ror => CpuView {
                a: ror_result(a, p),
                p: with_czn(p, a % 2 == 1, ror_result(a, p)),
                ..self
            },
            Instruction::Txa => CpuView { a: x, p: with_zn(p, x), ..self },
            Instruction::Tya => CpuView { a: y, p: with_zn(p, y), ..self },
            Instruction::Tax => CpuView { x: a, p: with_zn(p, a), ..self },
            Instruction::Tay => CpuView { y: a, p: with_zn(p, a), ..self },
            Instruction::Tsx => CpuView { x: sp, p: with_zn(p, sp), ..self },
            Instruction::Txs => CpuView { sp: x, p: with_zn(p, x), ..self },
            Instruction::Clc => CpuView { p: with_bit8(p, CARRY, false), ..self },
            Instruction::Clv => CpuView { p: with_bit8(p, OVERFLOW, false), ..self },
            Instruction::Cli => CpuView {
                p: with_bit8(p, INTERRUPT_DISABLE, false),
                ..self
            },
            Instruction::Cld => CpuView { p: with_bit8(p, DECIMAL, false), ..self },
            Instruction::Sec => CpuView { p: with_bit8(p, CARRY, true), ..self },
            Instruction::Sei => CpuView {
                p: with_bit8(p, INTERRUPT_DISABLE, true),
                ..self
            },
            Instruction::Sed => CpuView { p: with_bit8(p, DECIMAL, true), ..self },
            _ => self,
        }
    }

    /// The register that a store instruction writes.
    pub open spec fn store_value(self, ins: Instruction) -> u8 {
        match ins {
            Instruction::Sta => self.a,
            Instruction::Stx => self.x,
            _ => self.y,
        }
    }

    /// Whether the CPU can perform the step of `state` with its current
    /// instruction (the other steps do not depend on it).
    pub open spec fn step_defined_in(self, state: State) -> bool {
        let ins = self.instruction;
        match state {
            State::Implied => is_implied_op(ins),
            State::Immediate => is_immediate_op(ins),
            State::ReadStart => memory_access(ins) == Some(InstructionType::Read),
            State::ReadWriteExecute => memory_access(ins) == Some(InstructionType::ReadModifyWrite),
            State::WriteStart => memory_access(ins) == Some(InstructionType::Write),
            State::Relative => is_branch(ins),
            _ => true,
        }
    }

    /// The CPU after performing the step of `state`, and what the step reports
    /// to the transition (a branch taken, a page crossed).
    pub open spec fn step_in(self, state: State) -> (CpuView, bool) {
        let ins = self.instruction;
        let pcl = low_of(self.pc);
        let pch = high_of(self.pc);
        let marl = low_of(self.mar);
        let marh = high_of(self.mar);
        match state {
            State::ReadOpcode => {
                let op = self.at_pc();
                (
                    CpuView {
                        mdr: op,
                        instruction: decode(op),
                        ir: op,
                        pc: inc16(self.pc),
                        oops: 0i8,
                        ..self
                    },
                    false,
                )
            },
            State::Implied => (self.apply_implied(ins), false),
            State::Immediate => {
                let v = self.at_pc();
                (self.after_read(pcl, pch).apply_read(ins, v).pc_incremented(), false)
            },
            State::OneOperandStart => {
                let v = self.at_pc();
                (CpuView { mdr: v, mar: join_bytes(v, 0), pc: inc16(self.pc), ..self }, false)
            },
            State::TwoOperandStart | State::FetchSubroutineLowByte => {
                let v = self.at_pc();
                (CpuView { mdr: v, mar: join_bytes(v, marh), pc: inc16(self.pc), ..self }, false)
            },
            State::ReadStart => (self.after_read(marl, marh).apply_read(ins, self.at_mar()), false),
            State::ReadWriteStart => (self.after_read(marl, marh), false),
            State::ReadWriteExecute => {
                let v = self.at_mar();
                (self.after_read(marl, marh).written(marl, marh, v).apply_rmw(ins, v), false)
            },
            State::ReadWriteCommit => (self.written(marl, marh, self.alu), false),
            State::WriteStart => (self.written(marl, marh, self.store_value(ins)), false),
            State::ZeroPageIndexedX | State::IndexedIndirectStart => (
                CpuView { mar: join_bytes(((marl + self.x) % 256) as u8, marh), ..self },
                false,
            ),
            State::ZeroPageIndexedY => (
                CpuView { mar: join_bytes(((marl + self.y) % 256) as u8, marh), ..self },
                false,
            ),
            State::IndexedIndirectLowByte | State::IndirectIndexedLowByte
            | State::AbsoluteIndirectLowByteActual => (
                CpuView { mdr: self.at_mar(), mar: join_bytes(inc8(marl), marh), ..self },
                false,
            ),
            State::IndexedIndirectHighByte => {
                let hi = self.at_mar();
                (CpuView { mdr: hi, mar: join_bytes(self.mdr, hi), ..self }, false)
            },
            State::IndirectIndexedHighByte => {
                let hi = self.at_mar();
                let crossed = self.mdr + self.y >= 256;
                (
                    CpuView {
                        mdr: hi,
                        mar: join_bytes(((self.mdr + self.y) % 256) as u8, hi),
                        oops: if crossed {
                            1i8
                        } else {
                            self.oops
                        },
                        ..self
                    },
                    crossed,
                )
            },
            State::FixHighByte => (
                CpuView { mar: join_bytes(marl, add_offset8(marh, self.oops as int)), ..self },
                false,
            ),
            State::JumpHighByte => {
                let hi = self.at_pc();
                (CpuView { mdr: hi, pc: join_bytes(marl, hi), ..self }, false)
            },
            State::AbsoluteAddressHighByte | State::AbsoluteIndirectHighByte => {
                let hi = self.at_pc();
                (CpuView { mdr: hi, mar: join_bytes(marl, hi), pc: inc16(self.pc), ..self }, false)
            },
            State::AbsoluteIndexedXHighByte | State::AbsoluteIndexedYHighByte => {
                let index = if state == State::AbsoluteIndexedXHighByte {
                    self.x
                } else {
                    self.y
                };
                let hi = self.at_pc();
                let crossed = self.mdr + index >= 256;
                (
                    CpuView {
                        mdr: hi,
                        mar: join_bytes(((self.mdr + index) % 256) as u8, hi),
                        oops: if crossed {
                            1i8
                        } else {
                            self.oops
                        },
                        pc: inc16(self.pc),
                        ..self
                    },
                    crossed,
                )
            },
            State::AbsoluteIndirectHighByteActual => {
                let hi = self.at_mar();
                (CpuView { mdr: hi, pc: join_bytes(self.mdr, hi), ..self }, false)
            },
            State::Relative => (
                CpuView { mdr: self.at_pc(), pc: inc16(self.pc), ..self },
                branch_taken(ins, self.p),
            ),
            State::RelativeLowByte => {
                let sum = pcl + signed_byte(self.mdr);
                let crossed = sum < 0 || sum >= 256;
                (
                    CpuView {
                        pc: join_bytes(add_offset8(pcl, signed_byte(self.mdr)), pch),
                        oops: if sum < 0 {
                            -1i8
                        } else if sum >= 256 {
                            1i8
                        } else {
                            self.oops
                        },
                        ..self
                    },
                    crossed,
                )
            },
            State::RelativeHighByte => (
                CpuView { pc: join_bytes(pcl, add_offset8(pch, self.oops as int)), ..self },
                false,
            ),
            State::DummyRead => (self.after_read(pcl, pch), false),
            State::DummyReadAndIncrementPC => (self.after_read(pcl, pch).pc_incremented(), false),
            State::PushPCHighByte => (self.pushed(pch), false),
            State::PushPCLowByte => (self.pushed(pcl), false),
            State::PushStatusRegisteWithBFlag | State::PushStatusRegister => (
                self.pushed(self.p | 0x30),
                false,
            ),
            State::FetchPCLowByte => {
                let v = self.bus(0xfe, 0xff);
                (CpuView { mdr: v, pc: join_bytes(v, pch), ..self }, false)
            },
            State::FetchPCHighByte => {
                let v = self.bus(0xff, 0xff);
                (CpuView { mdr: v, pc: join_bytes(pcl, v), ..self }, false)
            },
            State::IncrementSP => (CpuView { sp: inc8(self.sp), ..self }, false),
            State::PullStatusRegisterAndIncrementSP => (
                CpuView { p: self.stack_top() & 0xcf, sp: inc8(self.sp), ..self },
                false,
            ),
            // the two pull steps are named after the order of the stack: the
            // first (`PullPCHighByte`) takes the low byte, the second the high byte
            State::PullPCLowByte => (
                CpuView { pc: join_bytes(pcl, self.stack_top()), sp: inc8(self.sp), ..self },
                false,
            ),
            State::PullPCHighByte => (
                CpuView { pc: join_bytes(self.stack_top(), pch), sp: inc8(self.sp), ..self },
                false,
            ),
            State::IncrementPC => (self.pc_incremented(), false),
            State::PushAccumulator => (self.pushed(self.a), false),
            // PLA sets no flags, and moves the stack pointer on past the byte
            State::PullAccumulator => (
                CpuView { a: self.stack_top(), sp: inc8(self.sp), ..self },
                false,
            ),
            State::PullStatusRegister => (CpuView { p: self.stack_top() & 0xcf, ..self }, false),
            State::JSRMystery => (self, false),
            State::FetchSubroutineHighByte => {
                let hi = self.at_pc();
                (CpuView { mdr: hi, pc: join_bytes(marl, hi), ..self }, false)
            },
        }
    }

    /// Whether one clock cycle is defined: the current step can run and the
    /// transition gives a next state.
    pub open spec fn cycle_defined(self) -> bool {
        let (after, alt) = self.step_in(self.state);
        &&& self.step_defined_in(self.state)
        &&& next_state(self.state, after.ir, alt).is_some()
    }

    /// The CPU after one clock cycle: the step of its state, then the transition.
    pub open spec fn cycled(self) -> CpuView {
        let (after, alt) = self.step_in(self.state);
        CpuView { state: next_state(self.state, after.ir, alt).unwrap(), ..after }
    }
}

impl CpuView {
    /// Whether the CPU is about to fetch an opcode, or is inside the sequence of
    /// states of the instruction it fetched last.
    pub open spec fn consistent(self) -> bool {
        ||| self.state == State::ReadOpcode
        ||| self.instruction == decode(self.ir) && visits(self.ir, self.state)
    }
}

/// A consistent CPU that is about to fetch a supported opcode (or is inside an
/// instruction) can run a clock cycle, and stays consistent; inside an
/// instruction each cycle brings it closer to the next fetch.
pub proof fn lemma_cycle_keeps_consistent(v: CpuView)
    requires
        v.consistent(),
        v.state == State::ReadOpcode ==> supported(v.at_pc()),
    ensures
        v.cycle_defined(),
        v.cycled().consistent(),
        v.state != State::ReadOpcode && v.cycled().state != State::ReadOpcode ==> cycles_left(
            v.cycled().state,
        ) < cycles_left(v.state),
{
    let (after, alt) = v.step_in(v.state);
    if v.state == State::ReadOpcode {
        lemma_fetch_enters_sequence(v.at_pc(), alt);
    } else {
        assert(after.ir == v.ir && after.instruction == v.instruction);
        lemma_sequence_closed(v.ir, v.state, alt);
    }
}

/// What the CPU writes below $2000 it reads back from any mirror of the address.
pub proof fn lemma_ram_read_after_write(v: CpuView, low: u8, high: u8, value: u8, mirror: u8)
    requires
        v.ram.len() == 2048,
        high < 0x20,
        mirror < 0x20,
        mirror % 8 == high % 8,
    ensures
        v.written(low, high, value).bus(low, mirror) == value,
{
    assert(ram_index(low, high) == ram_index(low, mirror)) by (nonlinear_arith)
        requires
            mirror % 8 == high % 8,
    {
        assert((high as int * 256 + low as int) % 2048 == (high % 8) as int * 256 + low as int);
        assert((mirror as int * 256 + low as int) % 2048 == (mirror % 8) as int * 256 + low as int);
    }
}

/// A byte pushed onto the stack is on top of the stack again once the stack
/// pointer moves back up.
pub proof fn lemma_push_then_top(v: CpuView, value: u8)
    requires
        v.ram.len() == 2048,
    ensures
        (CpuView { sp: inc8(v.pushed(value).sp), ..v.pushed(value) }).stack_top() == value,
{
}

/// Pulling gives back what was pushed. PHA then PLA gives back the
/// accumulator; pushing the program counter's high and then low byte, as JSR
/// does, and pulling them back as RTS and RTI do gives back the program
/// counter. Each pull moves the stack pointer on past the byte it read, so
/// both sequences leave it one above where it started.
pub proof fn lemma_pull_undoes_push(v: CpuView)
    requires
        v.ram.len() == 2048,
    ensures
        ({
            let pushed = v.step_in(State::PushAccumulator).0;
            let pulled = pushed.step_in(State::IncrementSP).0.step_in(State::PullAccumulator).0;
            pulled.a == v.a && pulled.sp == inc8(v.sp)
        }),
        ({
            let pushed = v.step_in(State::PushPCHighByte).0.step_in(State::PushPCLowByte).0;
            let pulled = pushed.step_in(State::IncrementSP).0.step_in(State::PullPCHighByte).0.step_in(
                State::PullPCLowByte,
            ).0;
            pulled.pc == v.pc && pulled.sp == inc8(v.sp)
        }),
{
    lemma_pull_accumulator(v);
    lemma_pull_pc(v);
}

proof fn lemma_sp_round_trip(sp: u8)
    ensures
        inc8(dec8(sp)) == sp,
        inc8(dec8(dec8(sp))) == dec8(sp),
        ram_index(sp, 1) != ram_index(dec8(sp), 1),
{
}

proof fn lemma_pull_accumulator(v: CpuView)
    requires
        v.ram.len() == 2048,
    ensures
        ({
            let pushed = v.step_in(State::PushAccumulator).0;
            let pulled = pushed.step_in(State::IncrementSP).0.step_in(State::PullAccumulator).0;
            pulled.a == v.a && pulled.sp == inc8(v.sp)
        }),
{
    lemma_sp_round_trip(v.sp);
    lemma_stack_steps(v);
    let a1 = v.step_in(State::PushAccumulator).0;
    lemma_stack_steps(a1);
    let a2 = a1.step_in(State::IncrementSP).0;
    lemma_stack_steps(a2);
}

proof fn lemma_pull_pc(v: CpuView)
    requires
        v.ram.len() == 2048,
    ensures
        ({
            let pushed = v.step_in(State::PushPCHighByte).0.step_in(State::PushPCLowByte).0;
            let pulled = pushed.step_in(State::IncrementSP).0.step_in(State::PullPCHighByte).0.step_in(
                State::PullPCLowByte,
            ).0;
            pulled.pc == v.pc && pulled.sp == inc8(v.sp)
        }),
{
    lemma_sp_round_trip(v.sp);
    let pch = high_of(v.pc);
    let pcl = low_of(v.pc);
    lemma_stack_steps(v);
    let s1 = v.step_in(State::PushPCHighByte).0;
    lemma_stack_steps(s1);
    let s2 = s1.step_in(State::PushPCLowByte).0;
    lemma_stack_steps(s2);
    let t1 = s2.step_in(State::IncrementSP).0;
    lemma_stack_steps(t1);
    let t2 = t1.step_in(State::PullPCHighByte).0;
    lemma_stack_steps(t2);
    assert(t1.sp == dec8(v.sp));
    assert(t1.stack_top() == pcl);
    assert(t2.sp == v.sp);
    assert(t2.stack_top() == pch);
    lemma_join_split(pcl, high_of(t1.pc));
    lemma_bytes_value(v.pc);
    assert(join_bytes(pcl, pch) == v.pc);
}

/// What the stack cycles do, field by field.
proof fn lemma_stack_steps(v: CpuView)
    ensures
        ({
            let w = v.step_in(State::PushAccumulator).0;
            &&& w.ram == v.ram.update(ram_index(v.sp, 1), v.a)
            &&& w.sp == dec8(v.sp)
            &&& w.a == v.a
        }),
        ({
            let w = v.step_in(State::IncrementSP).0;
            &&& w.ram == v.ram
            &&& w.sp == inc8(v.sp)
            &&& w.a == v.a
            &&& w.pc == v.pc
        }),
        v.step_in(State::PullAccumulator).0.a == v.stack_top(),
        v.step_in(State::PullAccumulator).0.sp == inc8(v.sp),
        ({
            let w = v.step_in(State::PushPCHighByte).0;
            &&& w.ram == v.ram.update(ram_index(v.sp, 1), high_of(v.pc))
            &&& w.sp == dec8(v.sp)
            &&& w.pc == v.pc
            &&& w.p == v.p
        }),
        ({
            let w = v.step_in(State::PushPCLowByte).0;
            &&& w.ram == v.ram.update(ram_index(v.sp, 1), low_of(v.pc))
            &&& w.sp == dec8(v.sp)
            &&& w.pc == v.pc
            &&& w.p == v.p
        }),
        ({
            let w = v.step_in(State::PullPCHighByte).0;
            &&& w.ram == v.ram
            &&& w.sp == inc8(v.sp)
            &&& w.pc == join_bytes(v.stack_top(), high_of(v.pc))
            &&& w.p == v.p
        }),
        v.step_in(State::PullPCLowByte).0.pc == join_bytes(low_of(v.pc), v.stack_top()),
        v.step_in(State::PullPCLowByte).0.sp == inc8(v.sp),
        v.step_in(State::PullPCLowByte).0.p == v.p,
{
}

/// What the status register's stack cycles do, field by field.
proof fn lemma_status_stack_steps(v: CpuView)
    ensures
        ({
            let w = v.step_in(State::PushStatusRegisteWithBFlag).0;
            &&& w.ram == v.ram.update(ram_index(v.sp, 1), v.p | 0x30)
            &&& w.sp == dec8(v.sp)
            &&& w.pc == v.pc
        }),
        ({
            let w = v.step_in(State::PushStatusRegister).0;
            &&& w.ram == v.ram.update(ram_index(v.sp, 1), v.p | 0x30)
            &&& w.sp == dec8(v.sp)
            &&& w.pc == v.pc
        }),
        ({
            let w = v.step_in(State::PullStatusRegisterAndIncrementSP).0;
            &&& w.ram == v.ram
            &&& w.p == v.stack_top() & 0xcf
            &&& w.sp == inc8(v.sp)
            &&& w.pc == v.pc
        }),
        ({
            let w = v.step_in(State::PullStatusRegister).0;
            &&& w.p == v.stack_top() & 0xcf
            &&& w.sp == v.sp
        }),
{
}

/// RTI returns from an interrupt: after the program counter's high byte, its
/// low byte and the status (with the B bits set) were pushed, as BRK does,
/// RTI's cycles (increment SP, pull the status and increment SP, pull the low
/// byte, pull the high byte) give back the program counter, the status with
/// bits 4 and 5 cleared, and the stack pointer one above where it started.
pub proof fn lemma_rti_returns(v: CpuView)
    requires
        v.ram.len() == 2048,
    ensures
        ({
            let pushed = v.step_in(State::PushPCHighByte).0.step_in(State::PushPCLowByte).0.step_in(
                State::PushStatusRegisteWithBFlag,
            ).0;
            let s = pushed.step_in(State::IncrementSP).0.step_in(
                State::PullStatusRegisterAndIncrementSP,
            ).0;
            let pulled = s.step_in(State::PullPCHighByte).0.step_in(State::PullPCLowByte).0;
            &&& s.p == (v.p | 0x30) & 0xcf
            &&& pulled.pc == v.pc
            &&& pulled.p == (v.p | 0x30) & 0xcf
            &&& pulled.sp == inc8(v.sp)
        }),
{
    let s1 = v.step_in(State::PushPCHighByte).0;
    assert(s1.ram == v.ram.update(ram_index(v.sp, 1), high_of(v.pc)) && s1.sp == dec8(v.sp)
        && s1.pc == v.pc && s1.p == v.p) by {
        lemma_stack_steps(v);
    }
    let s2 = s1.step_in(State::PushPCLowByte).0;
    assert(s2.ram == s1.ram.update(ram_index(s1.sp, 1), low_of(s1.pc)) && s2.sp == dec8(s1.sp)
        && s2.pc == s1.pc && s2.p == s1.p) by {
        lemma_stack_steps(s1);
    }
    let s3 = s2.step_in(State::PushStatusRegisteWithBFlag).0;
    assert(s3.ram == s2.ram.update(ram_index(s2.sp, 1), s2.p | 0x30) && s3.sp == dec8(s2.sp)
        && s3.pc == s2.pc) by {
        lemma_status_stack_steps(s2);
    }
    let t1 = s3.step_in(State::IncrementSP).0;
    assert(t1.ram == s3.ram && t1.sp == inc8(s3.sp) && t1.pc == s3.pc) by {
        lemma_stack_steps(s3);
    }
    let t2 = t1.step_in(State::PullStatusRegisterAndIncrementSP).0;
    assert(t2.ram == t1.ram && t2.p == t1.stack_top() & 0xcf && t2.sp == inc8(t1.sp) && t2.pc
        == t1.pc) by {
        lemma_status_stack_steps(t1);
    }
    let t3 = t2.step_in(State::PullPCHighByte).0;
    assert(t3.ram == t2.ram && t3.sp == inc8(t2.sp) && t3.pc == join_bytes(
        t2.stack_top(),
        high_of(t2.pc),
    ) && t3.p == t2.p) by {
        lemma_stack_steps(t2);
    }
    let t4 = t3.step_in(State::PullPCLowByte).0;
    assert(t4.pc == join_bytes(low_of(t3.pc), t3.stack_top()) && t4.sp == inc8(t3.sp) && t4.p
        == t3.p) by {
        lemma_stack_steps(t3);
    }
    lemma_interrupt_frame(v, s1, s2, s3, t1, t2, t3, t4);
}

/// Three bytes pushed onto the stack come back, last one first, as the
/// stack pointer moves up again.
proof fn lemma_three_pushes(ram: Seq<u8>, sp: u8, first: u8, second: u8, third: u8)
    requires
        ram.len() == 2048,
    ensures
        ({
            let r = ram.update(ram_index(sp, 1), first).update(ram_index(dec8(sp), 1), second).update(
                ram_index(dec8(dec8(sp)), 1),
                third,
            );
            &&& r[ram_index(dec8(dec8(sp)), 1)] == third
            &&& r[ram_index(dec8(sp), 1)] == second
            &&& r[ram_index(sp, 1)] == first
        }),
        inc8(dec8(dec8(dec8(sp)))) == dec8(dec8(sp)),
        inc8(dec8(dec8(sp))) == dec8(sp),
        inc8(dec8(sp)) == sp,
{
    assert(ram_index(sp, 1) != ram_index(dec8(sp), 1));
    assert(ram_index(sp, 1) != ram_index(dec8(dec8(sp)), 1));
    assert(ram_index(dec8(sp), 1) != ram_index(dec8(dec8(sp)), 1));
}

/// The stack arithmetic of an interrupt frame pushed and pulled back.
proof fn lemma_interrupt_frame(
    v: CpuView,
    s1: CpuView,
    s2: CpuView,
    s3: CpuView,
    t1: CpuView,
    t2: CpuView,
    t3: CpuView,
    t4: CpuView,
)
    requires
        v.ram.len() == 2048,
        s1.ram == v.ram.update(ram_index(v.sp, 1), high_of(v.pc)),
        s1.sp == dec8(v.sp),
        s1.pc == v.pc,
        s1.p == v.p,
        s2.ram == s1.ram.update(ram_index(s1.sp, 1), low_of(s1.pc)),
        s2.sp == dec8(s1.sp),
        s2.pc == s1.pc,
        s2.p == s1.p,
        s3.ram == s2.ram.update(ram_index(s2.sp, 1), s2.p | 0x30),
        s3.sp == dec8(s2.sp),
        s3.pc == s2.pc,
        t1.ram == s3.ram,
        t1.sp == inc8(s3.sp),
        t1.pc == s3.pc,
        t2.ram == t1.ram,
        t2.p == t1.stack_top() & 0xcf,
        t2.sp == inc8(t1.sp),
        t2.pc == t1.pc,
        t3.ram == t2.ram,
        t3.sp == inc8(t2.sp),
        t3.pc == join_bytes(t2.stack_top(), high_of(t2.pc)),
        t3.p == t2.p,
        t4.pc == join_bytes(low_of(t3.pc), t3.stack_top()),
        t4.sp == inc8(t3.sp),
        t4.p == t3.p,
    ensures
        t2.p == (v.p | 0x30) & 0xcf,
        t4.pc == v.pc,
        t4.p == (v.p | 0x30) & 0xcf,
        t4.sp == inc8(v.sp),
{
    let sp = v.sp;
    lemma_three_pushes(v.ram, sp, high_of(v.pc), low_of(v.pc), v.p | 0x30);
    assert(t1.sp == dec8(dec8(sp)));
    assert(t1.stack_top() == v.p | 0x30);
    assert(t2.sp == dec8(sp));
    assert(t2.stack_top() == low_of(v.pc));
    assert(t3.sp == sp);
    assert(t3.stack_top() == high_of(v.pc));
    lemma_join_split(low_of(v.pc), high_of(t2.pc));
    lemma_bytes_value(v.pc);
    assert(join_bytes(low_of(v.pc), high_of(v.pc)) == v.pc);
}

/// PHP then PLP gives back the status with bits 4 and 5 cleared, and leaves
/// the stack pointer where it was.
pub proof fn lemma_plp_undoes_php(v: CpuView)
    requires
        v.ram.len() == 2048,
    ensures
        ({
            let pushed = v.step_in(State::PushStatusRegister).0;
            let pulled = pushed.step_in(State::IncrementSP).0.step_in(State::PullStatusRegister).0;
            pulled.p == (v.p | 0x30) & 0xcf && pulled.sp == v.sp
        }),
{
    let s1 = v.step_in(State::PushStatusRegister).0;
    assert(s1.ram == v.ram.update(ram_index(v.sp, 1), v.p | 0x30) && s1.sp == dec8(v.sp)) by {
        lemma_status_stack_steps(v);
    }
    let s2 = s1.step_in(State::IncrementSP).0;
    assert(s2.ram == s1.ram && s2.sp == inc8(s1.sp)) by {
        lemma_stack_steps(s1);
    }
    let s3 = s2.step_in(State::PullStatusRegister).0;
    assert(s3.p == s2.stack_top() & 0xcf && s3.sp == s2.sp) by {
        lemma_status_stack_steps(s2);
    }
    lemma_pushed_byte_on_top(v.ram, v.sp, v.p | 0x30, s2.ram, s2.sp);
}

/// A byte written at the stack pointer is on top of the stack again once the
/// pointer has moved down and back up.
proof fn lemma_pushed_byte_on_top(ram: Seq<u8>, sp: u8, value: u8, after: Seq<u8>, after_sp: u8)
    requires
        ram.len() == 2048,
        after == ram.update(ram_index(sp, 1), value),
        after_sp == inc8(dec8(sp)),
    ensures
        after_sp == sp,
        after[ram_index(after_sp, 1)] == value,
{
}

/// Adding a signed offset to the low byte, and the carry or borrow out of it
/// to the high byte, adds the offset to the 16-bit value.
proof fn lemma_offset_carry(low: u8, high: u8, offset: int)
    requires
        -128 <= offset < 128,
    ensures
        ({
            let sum = low + offset;
            let carry: int = if sum < 0 {
                -1
            } else if sum >= 256 {
                1
            } else {
                0
            };
            join_bytes(add_offset8(low, offset), add_offset8(high, carry)) == (high as int * 256
                + low + offset + 65536) % 65536
        }),
{
    let sum = low + offset;
    let total = high as int * 256 + sum;
    if sum < 0 {
        assert((low + offset + 256) % 256 == sum + 256);
        if high == 0 {
            assert((high - 1 + 256) % 256 == 255);
            assert((total + 65536) % 65536 == 255 * 256 + sum + 256);
        } else {
            assert((high - 1 + 256) % 256 == high - 1);
            assert((total + 65536) % 65536 == total);
        }
    } else if sum >= 256 {
        assert((low + offset + 256) % 256 == sum - 256);
        if high == 255 {
            assert((high + 1 + 256) % 256 == 0);
            assert((total + 65536) % 65536 == sum - 256);
        } else {
            assert((high + 1 + 256) % 256 == high + 1);
            assert((total + 65536) % 65536 == total);
        }
    } else {
        assert((low + offset + 256) % 256 == sum);
        assert((high + 0 + 256) % 256 == high);
        assert((total + 65536) % 65536 == total);
    }
}

/// Adding no offset keeps a byte.
proof fn lemma_offset_zero(b: u8)
    ensures
        add_offset8(b, 0) == b,
{
    assert((b + 0 + 256) % 256 == b);
}

/// A taken branch moves the program counter by the signed offset on the data
/// bus: the low byte first, then, when a page boundary is crossed, the high
/// byte in the extra cycle.
pub proof fn lemma_branch_target(v: CpuView)
    ensures
        ({
            let (w, crossed) = v.step_in(State::RelativeLowByte);
            &&& crossed == !(0 <= low_of(v.pc) + signed_byte(v.mdr) < 256)
            &&& (if crossed {
                w.step_in(State::RelativeHighByte).0.pc
            } else {
                w.pc
            }) == (v.pc + signed_byte(v.mdr) + 65536) % 65536
        }),
{
    let pcl = low_of(v.pc);
    let pch = high_of(v.pc);
    let off = signed_byte(v.mdr);
    let sum = pcl + off;
    lemma_bytes_value(v.pc);
    lemma_offset_carry(pcl, pch, off);
    let (w, crossed) = v.step_in(State::RelativeLowByte);
    let low = add_offset8(pcl, off);
    assert(w.pc == join_bytes(low, pch));
    assert(crossed == (sum < 0 || sum >= 256));
    lemma_join_split(low, pch);
    let u = w.step_in(State::RelativeHighByte).0;
    assert(u.pc == join_bytes(low_of(w.pc), add_offset8(high_of(w.pc), w.oops as int)));
    assert(u.pc == join_bytes(low, add_offset8(pch, w.oops as int)));
    let carry: int = if sum < 0 {
        -1
    } else if sum >= 256 {
        1
    } else {
        0
    };
    let expected = (pch as int * 256 + pcl + off + 65536) % 65536;
    assert(join_bytes(low, add_offset8(pch, carry)) == expected);
    assert(v.pc + off + 65536 == pch as int * 256 + pcl + off + 65536);
    assert(crossed ==> w.oops as int == carry);
    assert(crossed ==> u.pc == expected);
    assert(!crossed ==> carry == 0);
    lemma_offset_zero(pch);
    assert(!crossed ==> w.pc == expected);
}

/// Adding an index to the low byte, and the carry out of it to the high
/// byte, adds the index to the 16-bit value.
proof fn lemma_index_carry(low: u8, high: u8, index: u8)
    ensures
        join_bytes(
            ((low + index) % 256) as u8,
            if low + index >= 256 {
                add_offset8(high, 1)
            } else {
                high
            },
        ) == (high as int * 256 + low + index) % 65536,
{
    let sum = low + index;
    let total = high as int * 256 + sum;
    if sum >= 256 {
        assert(sum % 256 == sum - 256);
        if high == 255 {
            assert((high + 1 + 256) % 256 == 0);
            assert(total % 65536 == sum - 256);
        } else {
            assert((high + 1 + 256) % 256 == high + 1);
            assert(total % 65536 == total);
        }
    } else {
        assert(sum % 256 == sum);
        assert(total % 65536 == total);
    }
}

/// An indexed absolute address is the base plus the index: the low byte and
/// the carry out of it are added in the address cycle, the carry reaches the
/// high byte in the fix cycle.
pub proof fn lemma_indexed_address(v: CpuView)
    ensures
        ({
            let (w, crossed) = v.step_in(State::AbsoluteIndexedXHighByte);
            (if crossed {
                w.step_in(State::FixHighByte).0.mar
            } else {
                w.mar
            }) == (v.at_pc() as int * 256 + v.mdr + v.x) % 65536
        }),
{
    let hi = v.at_pc();
    let sum = v.mdr + v.x;
    let low = (sum % 256) as u8;
    let (w, crossed) = v.step_in(State::AbsoluteIndexedXHighByte);
    assert(w.mar == join_bytes(low, hi));
    assert(crossed == (sum >= 256));
    lemma_join_split(low, hi);
    lemma_index_carry(v.mdr, hi, v.x);
    let u = w.step_in(State::FixHighByte).0;
    assert(u.mar == join_bytes(low_of(w.mar), add_offset8(high_of(w.mar), w.oops as int)));
    assert(crossed ==> w.oops == 1);
    assert(crossed ==> u.mar == join_bytes(low, add_offset8(hi, 1)));
}

/// An absolute,Y address is the base plus Y, as for X.
pub proof fn lemma_indexed_y_address(v: CpuView)
    ensures
        ({
            let (w, crossed) = v.step_in(State::AbsoluteIndexedYHighByte);
            (if crossed {
                w.step_in(State::FixHighByte).0.mar
            } else {
                w.mar
            }) == (v.at_pc() as int * 256 + v.mdr + v.y) % 65536
        }),
{
    let hi = v.at_pc();
    let sum = v.mdr + v.y;
    let low = (sum % 256) as u8;
    let (w, crossed) = v.step_in(State::AbsoluteIndexedYHighByte);
    assert(w.mar == join_bytes(low, hi));
    assert(crossed == (sum >= 256));
    lemma_join_split(low, hi);
    lemma_index_carry(v.mdr, hi, v.y);
    let u = w.step_in(State::FixHighByte).0;
    assert(u.mar == join_bytes(low_of(w.mar), add_offset8(high_of(w.mar), w.oops as int)));
    assert(crossed ==> w.oops == 1);
    assert(crossed ==> u.mar == join_bytes(low, add_offset8(hi, 1)));
}

/// A (zero page),Y address is the pointer read from zero page plus Y: the
/// pointer's low byte is in the data register, its high byte is read in this
/// cycle, and a carry out of the low byte reaches the high byte in the fix
/// cycle.
pub proof fn lemma_indirect_indexed_address(v: CpuView)
    ensures
        ({
            let (w, crossed) = v.step_in(State::IndirectIndexedHighByte);
            (if crossed {
                w.step_in(State::FixHighByte).0.mar
            } else {
                w.mar
            }) == (v.at_mar() as int * 256 + v.mdr + v.y) % 65536
        }),
{
    let hi = v.at_mar();
    let sum = v.mdr + v.y;
    let low = (sum % 256) as u8;
    let (w, crossed) = v.step_in(State::IndirectIndexedHighByte);
    assert(w.mar == join_bytes(low, hi));
    assert(crossed == (sum >= 256));
    lemma_join_split(low, hi);
    lemma_index_carry(v.mdr, hi, v.y);
    let u = w.step_in(State::FixHighByte).0;
    assert(u.mar == join_bytes(low_of(w.mar), add_offset8(high_of(w.mar), w.oops as int)));
    assert(crossed ==> w.oops == 1);
    assert(crossed ==> u.mar == join_bytes(low, add_offset8(hi, 1)));
}

/// The stack frame that JSR and BRK build: the program counter's high byte
/// at the stack pointer, its low byte just below, and (for BRK) the status
/// with bits 4 and 5 set below that; the stack pointer ends below the frame.
pub proof fn lemma_push_frame(v: CpuView)
    requires
        v.ram.len() == 2048,
    ensures
        ({
            let s2 = v.step_in(State::PushPCHighByte).0.step_in(State::PushPCLowByte).0;
            let s3 = s2.step_in(State::PushStatusRegisteWithBFlag).0;
            &&& s3.ram[ram_index(v.sp, 1)] == high_of(v.pc)
            &&& s3.ram[ram_index(dec8(v.sp), 1)] == low_of(v.pc)
            &&& s3.ram[ram_index(dec8(dec8(v.sp)), 1)] == v.p | 0x30
            &&& s2.sp == dec8(dec8(v.sp))
            &&& s3.sp == dec8(dec8(dec8(v.sp)))
        }),
{
    let s1 = v.step_in(State::PushPCHighByte).0;
    assert(s1.ram == v.ram.update(ram_index(v.sp, 1), high_of(v.pc)) && s1.sp == dec8(v.sp)
        && s1.pc == v.pc && s1.p == v.p) by {
        lemma_stack_steps(v);
    }
    let s2 = s1.step_in(State::PushPCLowByte).0;
    assert(s2.ram == s1.ram.update(ram_index(s1.sp, 1), low_of(s1.pc)) && s2.sp == dec8(s1.sp)
        && s2.pc == s1.pc && s2.p == s1.p) by {
        lemma_stack_steps(s1);
    }
    let s3 = s2.step_in(State::PushStatusRegisteWithBFlag).0;
    assert(s3.ram == s2.ram.update(ram_index(s2.sp, 1), s2.p | 0x30) && s3.sp == dec8(s2.sp)) by {
        lemma_status_stack_steps(s2);
    }
    lemma_three_pushes(v.ram, v.sp, high_of(v.pc), low_of(v.pc), v.p | 0x30);
}

} // verus!
