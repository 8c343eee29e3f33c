use vstd::prelude::*;
use crate::instructions::{AddressMode, Instruction, InstructionType, decode};

verus! {

/// The addressing mode of each of the 256 opcodes, official and unofficial.
pub const OPCODE_ADDRESS_MODES: [AddressMode; 256] = [
    // $00
    AddressMode::Implicit,
    AddressMode::IndexedIndirectX,
    AddressMode::Implicit,
    AddressMode::IndexedIndirectX,
    AddressMode::ZeroPage,
    AddressMode::ZeroPage,
    AddressMode::ZeroPage,
    AddressMode::ZeroPage,
    AddressMode::Implicit,
    AddressMode::Immediate,
    AddressMode::Accumulator,
    AddressMode::Immediate,
    AddressMode::Absolute,
    AddressMode::Absolute,
    AddressMode::Absolute,
    AddressMode::Absolute,
    // $10
    AddressMode::Relative,
    AddressMode::IndirectIndexedY,
    AddressMode::Implicit,
    AddressMode::IndirectIndexedY,
    AddressMode::ZeroPageIndexedX,
    AddressMode::ZeroPageIndexedX,
    AddressMode::ZeroPageIndexedX,
    AddressMode::ZeroPageIndexedX,
    AddressMode::Implicit,
    AddressMode::AbsoluteIndexedY,
    AddressMode::Implicit,
    AddressMode::AbsoluteIndexedY,
    AddressMode::AbsoluteIndexedX,
    AddressMode::AbsoluteIndexedX,
    AddressMode::AbsoluteIndexedX,
    AddressMode::AbsoluteIndexedX,
    // $20
    AddressMode::Absolute,
    AddressMode::IndexedIndirectX,
    AddressMode::Implicit,
    AddressMode::IndexedIndirectX,
    AddressMode::ZeroPage,
    AddressMode::ZeroPage,
    AddressMode::ZeroPage,
    AddressMode::ZeroPage,
    AddressMode::Implicit,
    AddressMode::Immediate,
    AddressMode::Accumulator,
    AddressMode::Immediate,
    AddressMode::Absolute,
    AddressMode::Absolute,
    AddressMode::Absolute,
    AddressMode::Absolute,
    // $30
    AddressMode::Relative,
    AddressMode::IndirectIndexedY,
    AddressMode::Implicit,
    AddressMode::IndirectIndexedY,
    AddressMode::ZeroPageIndexedX,
    AddressMode::ZeroPageIndexedX,
    AddressMode::ZeroPageIndexedX,
    AddressMode::ZeroPageIndexedX,
    AddressMode::Implicit,
    AddressMode::AbsoluteIndexedY,
    AddressMode::Implicit,
    AddressMode::AbsoluteIndexedY,
    AddressMode::AbsoluteIndexedX,
    AddressMode::AbsoluteIndexedX,
    AddressMode::AbsoluteIndexedX,
    AddressMode::AbsoluteIndexedX,
    // $40
    AddressMode::Implicit,
    AddressMode::IndexedIndirectX,
    AddressMode::Implicit,
    AddressMode::IndexedIndirectX,
    AddressMode::ZeroPage,
    AddressMode::ZeroPage,
    AddressMode::ZeroPage,
    AddressMode::ZeroPage,
    AddressMode::Implicit,
    AddressMode::Immediate,
    AddressMode::Accumulator,
    AddressMode::Immediate,
    AddressMode::Absolute,
    AddressMode::Absolute,
    AddressMode::Absolute,
    AddressMode::Absolute,
    // $50
    AddressMode::Relative,
    AddressMode::IndirectIndexedY,
    AddressMode::Implicit,
    AddressMode::IndirectIndexedY,
    AddressMode::ZeroPageIndexedX,
    AddressMode::ZeroPageIndexedX,
    AddressMode::ZeroPageIndexedX,
    AddressMode::ZeroPageIndexedX,
    AddressMode::Implicit,
    AddressMode::AbsoluteIndexedY,
    AddressMode::Implicit,
    AddressMode::AbsoluteIndexedY,
    AddressMode::AbsoluteIndexedX,
    AddressMode::AbsoluteIndexedX,
    AddressMode::AbsoluteIndexedX,
    AddressMode::AbsoluteIndexedX,
    // $60
    AddressMode::Implicit,
    AddressMode::IndexedIndirectX,
    AddressMode::Implicit,
    AddressMode::IndexedIndirectX,
    AddressMode::ZeroPage,
    AddressMode::ZeroPage,
    AddressMode::ZeroPage,
    AddressMode::ZeroPage,
    AddressMode::Implicit,
    AddressMode::Immediate,
    AddressMode::Accumulator,
    AddressMode::Immediate,
    AddressMode::Indirect,
    AddressMode::Absolute,
    AddressMode::Absolute,
    AddressMode::Absolute,
    // $70
    AddressMode::Relative,
    AddressMode::IndirectIndexedY,
    AddressMode::Implicit,
    AddressMode::IndirectIndexedY,
    AddressMode::ZeroPageIndexedX,
    AddressMode::ZeroPageIndexedX,
    AddressMode::ZeroPageIndexedX,
    AddressMode::ZeroPageIndexedX,
    AddressMode::Implicit,
    AddressMode::AbsoluteIndexedY,
    AddressMode::Implicit,
    AddressMode::AbsoluteIndexedY,
    AddressMode::AbsoluteIndexedX,
    AddressMode::AbsoluteIndexedX,
    AddressMode::AbsoluteIndexedX,
    AddressMode::AbsoluteIndexedX,
    // $80
    AddressMode::Immediate,
    AddressMode::IndexedIndirectX,
    AddressMode::Immediate,
    AddressMode::IndexedIndirectX,
    AddressMode::ZeroPage,
    AddressMode::ZeroPage,
    AddressMode::ZeroPage,
    AddressMode::ZeroPage,
    AddressMode::Implicit,
    AddressMode::Immediate,
    AddressMode::Implicit,
    AddressMode::Immediate,
    AddressMode::Absolute,
    AddressMode::Absolute,
    AddressMode::Absolute,
    AddressMode::Absolute,
    // $90
    AddressMode::Relative,
    AddressMode::IndirectIndexedY,
    AddressMode::Implicit,
    AddressMode::IndirectIndexedY,
    AddressMode::ZeroPageIndexedX,
    AddressMode::ZeroPageIndexedX,
    AddressMode::ZeroPageIndexedY,
    AddressMode::ZeroPageIndexedY,
    AddressMode::Implicit,
    AddressMode::AbsoluteIndexedY,
    AddressMode::Implicit,
    AddressMode::AbsoluteIndexedY,
    AddressMode::AbsoluteIndexedX,
    AddressMode::AbsoluteIndexedX,
    AddressMode::AbsoluteIndexedY,
    AddressMode::AbsoluteIndexedY,
    // $A0
    AddressMode::Immediate,
    AddressMode::IndexedIndirectX,
    AddressMode::Immediate,
    AddressMode::IndexedIndirectX,
    AddressMode::ZeroPage,
    AddressMode::ZeroPage,
    AddressMode::ZeroPage,
    AddressMode::ZeroPage,
    AddressMode::Implicit,
    AddressMode::Immediate,
    AddressMode::Implicit,
    AddressMode::Immediate,
    AddressMode::Absolute,
    AddressMode::Absolute,
    AddressMode::Absolute,
    AddressMode::Absolute,
    // $B0
    AddressMode::Relative,
    AddressMode::IndirectIndexedY,
    AddressMode::Implicit,
    AddressMode::IndirectIndexedY,
    AddressMode::ZeroPageIndexedX,
    AddressMode::ZeroPageIndexedX,
    AddressMode::ZeroPageIndexedY,
    AddressMode::ZeroPageIndexedY,
    AddressMode::Implicit,
    AddressMode::AbsoluteIndexedY,
    AddressMode::Implicit,
    AddressMode::AbsoluteIndexedY,
    AddressMode::AbsoluteIndexedX,
    AddressMode::AbsoluteIndexedX,
    AddressMode::AbsoluteIndexedY,
    AddressMode::AbsoluteIndexedY,
    // $C0
    AddressMode::Immediate,
    AddressMode::IndexedIndirectX,
    AddressMode::Immediate,
    AddressMode::IndexedIndirectX,
    AddressMode::ZeroPage,
    AddressMode::ZeroPage,
    AddressMode::ZeroPage,
    AddressMode::ZeroPage,
    AddressMode::Implicit,
    AddressMode::Immediate,
    AddressMode::Implicit,
    AddressMode::Immediate,
    AddressMode::Absolute,
    AddressMode::Absolute,
    AddressMode::Absolute,
    AddressMode::Absolute,
    // $D0
    AddressMode::Relative,
    AddressMode::IndirectIndexedY,
    AddressMode::Implicit,
    AddressMode::IndirectIndexedY,
    AddressMode::ZeroPageIndexedX,
    AddressMode::ZeroPageIndexedX,
    AddressMode::ZeroPageIndexedX,
    AddressMode::ZeroPageIndexedX,
    AddressMode::Implicit,
    AddressMode::AbsoluteIndexedY,
    AddressMode::Implicit,
    AddressMode::AbsoluteIndexedY,
    AddressMode::AbsoluteIndexedX,
    AddressMode::AbsoluteIndexedX,
    AddressMode::AbsoluteIndexedX,
    AddressMode::AbsoluteIndexedX,
    // $E0
    AddressMode::Immediate,
    AddressMode::IndexedIndirectX,
    AddressMode::Immediate,
    AddressMode::IndexedIndirectX,
    AddressMode::ZeroPage,
    AddressMode::ZeroPage,
    AddressMode::ZeroPage,
    AddressMode::ZeroPage,
    AddressMode::Implicit,
    AddressMode::Immediate,
    AddressMode::Implicit,
    AddressMode::Immediate,
    AddressMode::Absolute,
    AddressMode::Absolute,
    AddressMode::Absolute,
    AddressMode::Absolute,
    // $F0
    AddressMode::Relative,
    AddressMode::IndirectIndexedY,
    AddressMode::Implicit,
    AddressMode::IndirectIndexedY,
    AddressMode::ZeroPageIndexedX,
    AddressMode::ZeroPageIndexedX,
    AddressMode::ZeroPageIndexedX,
    AddressMode::ZeroPageIndexedX,
    AddressMode::Implicit,
    AddressMode::AbsoluteIndexedY,
    AddressMode::Implicit,
    AddressMode::AbsoluteIndexedY,
    AddressMode::AbsoluteIndexedX,
    AddressMode::AbsoluteIndexedX,
    AddressMode::AbsoluteIndexedX,
    AddressMode::AbsoluteIndexedX,
];

/// The step that the CPU performs on its next cycle.
#[derive(PartialEq, Eq, Structural, Clone, Copy, Debug)]
pub enum State {
    ReadOpcode,
    Implied,
    Immediate,
    OneOperandStart,
    TwoOperandStart,
    ReadStart,
    ReadWriteStart,
    ReadWriteExecute,
    ReadWriteCommit,
    WriteStart,
    ZeroPageIndexedX,
    ZeroPageIndexedY,
    IndexedIndirectStart,
    IndexedIndirectLowByte,
    IndexedIndirectHighByte,
    IndirectIndexedLowByte,
    IndirectIndexedHighByte,
    FixHighByte,
    JumpHighByte,
    AbsoluteAddressHighByte,
    AbsoluteIndexedXHighByte,
    AbsoluteIndexedYHighByte,
    AbsoluteIndirectHighByte,
    AbsoluteIndirectLowByteActual,
    AbsoluteIndirectHighByteActual,
    Relative,
    RelativeLowByte,
    RelativeHighByte,
    DummyRead,
    DummyReadAndIncrementPC,
    PushPCHighByte,
    PushPCLowByte,
    PushStatusRegisteWithBFlag,
    FetchPCLowByte,
    FetchPCHighByte,
    IncrementSP,
    PullStatusRegisterAndIncrementSP,
    PullPCLowByte,
    PullPCHighByte,
    IncrementPC,
    PushAccumulator,
    PushStatusRegister,
    PullAccumulator,
    PullStatusRegister,
    FetchSubroutineLowByte,
    JSRMystery,
    FetchSubroutineHighByte,
}

/// The addressing mode of `opcode`.
pub open spec fn opcode_mode(opcode: u8) -> AddressMode {
    OPCODE_ADDRESS_MODES@[opcode as int]
}

/// Instructions that run in one cycle after the opcode fetch, with no operand.
pub open spec fn is_implied_op(ins: Instruction) -> bool {
    match ins {
        Instruction::Inx | Instruction::Iny | Instruction::Dex | Instruction::Dey
        | Instruction::Asl | Instruction::Rol | Instruction::Lsr | Instruction::Ror
        | Instruction::Txa | Instruction::Tya | Instruction::Tax | Instruction::Tay
        | Instruction::Tsx | Instruction::Txs | Instruction::Clc | Instruction::Clv
        | Instruction::Cli | Instruction::Cld | Instruction::Sec | Instruction::Sei
        | Instruction::Sed | Instruction::Nop => true,
        _ => false,
    }
}

/// Instructions that take an immediate operand.
pub open spec fn is_immediate_op(ins: Instruction) -> bool {
    match ins {
        Instruction::Nop | Instruction::Lda | Instruction::Ldx | Instruction::Ldy
        | Instruction::Cmp | Instruction::Cpx | Instruction::Cpy | Instruction::And
        | Instruction::Ora | Instruction::Eor | Instruction::Adc | Instruction::Sbc => true,
        _ => false,
    }
}

/// The conditional branches.
pub open spec fn is_branch(ins: Instruction) -> bool {
    match ins {
        Instruction::Bcc | Instruction::Bcs | Instruction::Beq | Instruction::Bne
        | Instruction::Bpl | Instruction::Bmi | Instruction::Bvc | Instruction::Bvs => true,
        _ => false,
    }
}

/// How an instruction with an operand in memory ends: by a read, by a
/// read-modify-write, or by a write; `None` for the instructions that the CPU
/// does not run from memory.
pub open spec fn memory_access(ins: Instruction) -> Option<InstructionType> {
    match ins {
        Instruction::Nop | Instruction::Lda | Instruction::Ldx | Instruction::Ldy
        | Instruction::Cmp | Instruction::Cpx | Instruction::Cpy | Instruction::And
        | Instruction::Ora | Instruction::Eor | Instruction::Adc | Instruction::Sbc
        | Instruction::Bit => Some(InstructionType::Read),
        Instruction::Asl | Instruction::Lsr | Instruction::Rol | Instruction::Ror
        | Instruction::Inc | Instruction::Dec => Some(InstructionType::ReadModifyWrite),
        Instruction::Sta | Instruction::Stx | Instruction::Sty => Some(InstructionType::Write),
        _ => None,
    }
}

/// The state that performs the access once the effective address is known.
pub open spec fn access_state(access: Option<InstructionType>) -> Option<State> {
    match access {
        Some(InstructionType::Read) => Some(State::ReadStart),
        Some(InstructionType::ReadModifyWrite) => Some(State::ReadWriteStart),
        Some(InstructionType::Write) => Some(State::WriteStart),
        _ => None,
    }
}

/// The state after the opcode fetch, or `None` for an opcode the CPU does not run.
pub open spec fn first_state(ins: Instruction, mode: AddressMode) -> Option<State> {
    match mode {
        AddressMode::Implicit | AddressMode::Accumulator => match ins {
            Instruction::Brk => Some(State::DummyReadAndIncrementPC),
            Instruction::Rti | Instruction::Rts | Instruction::Pha | Instruction::Php
            | Instruction::Pla | Instruction::Plp => Some(State::DummyRead),
            _ => if is_implied_op(ins) {
                Some(State::Implied)
            } else {
                None
            },
        },
        AddressMode::Immediate => if is_immediate_op(ins) {
            Some(State::Immediate)
        } else {
            None
        },
        AddressMode::ZeroPage | AddressMode::ZeroPageIndexedX | AddressMode::ZeroPageIndexedY
        | AddressMode::IndexedIndirectX | AddressMode::IndirectIndexedY => if memory_access(
            ins,
        ).is_some() {
            Some(State::OneOperandStart)
        } else {
            None
        },
        AddressMode::Absolute => if ins == Instruction::Jsr {
            Some(State::FetchSubroutineLowByte)
        } else if ins == Instruction::Jmp || memory_access(ins).is_some() {
            Some(State::TwoOperandStart)
        } else {
            None
        },
        AddressMode::AbsoluteIndexedX | AddressMode::AbsoluteIndexedY => if memory_access(
            ins,
        ).is_some() {
            Some(State::TwoOperandStart)
        } else {
            None
        },
        AddressMode::Indirect => if ins == Instruction::Jmp {
            Some(State::TwoOperandStart)
        } else {
            None
        },
        AddressMode::Relative => if is_branch(ins) {
            Some(State::Relative)
        } else {
            None
        },
    }
}

/// Whether the CPU runs `opcode`.
pub open spec fn supported(opcode: u8) -> bool {
    first_state(decode(opcode), opcode_mode(opcode)).is_some()
}

/// The state after an indexed address's high byte: a read that did not cross
/// a page goes straight to the access; every other access fixes the high byte first.
pub open spec fn after_indexed(access: Option<InstructionType>, crossed: bool) -> Option<State> {
    match access {
        Some(InstructionType::Read) => if crossed {
            Some(State::FixHighByte)
        } else {
            Some(State::ReadStart)
        },
        Some(InstructionType::ReadModifyWrite) | Some(InstructionType::Write) => Some(
            State::FixHighByte,
        ),
        _ => None,
    }
}

/// The state that follows `state` while the CPU runs `opcode`; `alt` is what
/// the cycle reported (a branch taken, a page crossed). `None` where the CPU
/// has no next state.
pub open spec fn next_state(state: State, opcode: u8, alt: bool) -> Option<State> {
    let ins = decode(opcode);
    let mode = opcode_mode(opcode);
    let access = memory_access(ins);
    match state {
        State::ReadOpcode => first_state(ins, mode),
        State::Implied | State::Immediate | State::ReadStart | State::WriteStart
        | State::ReadWriteCommit | State::JumpHighByte | State::AbsoluteIndirectHighByteActual
        | State::RelativeHighByte | State::FetchPCHighByte | State::IncrementPC
        | State::PushAccumulator | State::PushStatusRegister | State::PullAccumulator
        | State::PullStatusRegister | State::FetchSubroutineHighByte => Some(State::ReadOpcode),
        State::OneOperandStart => match mode {
            AddressMode::ZeroPage => access_state(access),
            AddressMode::ZeroPageIndexedX => Some(State::ZeroPageIndexedX),
            AddressMode::ZeroPageIndexedY => Some(State::ZeroPageIndexedY),
            AddressMode::IndexedIndirectX => Some(State::IndexedIndirectStart),
            AddressMode::IndirectIndexedY => Some(State::IndirectIndexedLowByte),
            _ => None,
        },
        State::TwoOperandStart => match mode {
            AddressMode::Absolute => if ins == Instruction::Jmp {
                Some(State::JumpHighByte)
            } else {
                Some(State::AbsoluteAddressHighByte)
            },
            AddressMode::AbsoluteIndexedX => Some(State::AbsoluteIndexedXHighByte),
            AddressMode::AbsoluteIndexedY => Some(State::AbsoluteIndexedYHighByte),
            AddressMode::Indirect => Some(State::AbsoluteIndirectHighByte),
            _ => None,
        },
        State::ZeroPageIndexedX | State::ZeroPageIndexedY | State::IndexedIndirectHighByte
        | State::FixHighByte | State::AbsoluteAddressHighByte => access_state(access),
        State::IndexedIndirectStart => Some(State::IndexedIndirectLowByte),
        State::IndexedIndirectLowByte => Some(State::IndexedIndirectHighByte),
        State::IndirectIndexedLowByte => Some(State::IndirectIndexedHighByte),
        State::IndirectIndexedHighByte | State::AbsoluteIndexedXHighByte
        | State::AbsoluteIndexedYHighByte => after_indexed(access, alt),
        State::AbsoluteIndirectHighByte => Some(State::AbsoluteIndirectLowByteActual),
        State::AbsoluteIndirectLowByteActual => Some(State::AbsoluteIndirectHighByteActual),
        State::ReadWriteStart => Some(State::ReadWriteExecute),
        State::ReadWriteExecute => Some(State::ReadWriteCommit),
        State::Relative => if alt {
            Some(State::RelativeLowByte)
        } else {
            Some(State::ReadOpcode)
        },
        State::RelativeLowByte => if alt {
            Some(State::RelativeHighByte)
        } else {
            Some(State::ReadOpcode)
        },
        State::DummyRead => match ins {
            Instruction::Rti | Instruction::Rts | Instruction::Pla
            | Instruction::Plp => Some(State::IncrementSP),
            Instruction::Pha => Some(State::PushAccumulator),
            Instruction::Php => Some(State::PushStatusRegister),
            _ => None,
        },
        State::DummyReadAndIncrementPC => Some(State::PushPCHighByte),
        State::PushPCHighByte => Some(State::PushPCLowByte),
        State::PushPCLowByte => match ins {
            Instruction::Brk => Some(State::PushStatusRegisteWithBFlag),
            Instruction::Jsr => Some(State::FetchSubroutineHighByte),
            _ => None,
        },
        State::PushStatusRegisteWithBFlag => Some(State::FetchPCLowByte),
        State::FetchPCLowByte => Some(State::FetchPCHighByte),
        State::IncrementSP => match ins {
            Instruction::Rti => Some(State::PullStatusRegisterAndIncrementSP),
            Instruction::Rts => Some(State::PullPCHighByte),
            Instruction::Pla => Some(State::PullAccumulator),
            Instruction::Plp => Some(State::PullStatusRegister),
            _ => None,
        },
        State::PullStatusRegisterAndIncrementSP => Some(State::PullPCHighByte),
        State::PullPCHighByte => Some(State::PullPCLowByte),
        State::PullPCLowByte => match ins {
            Instruction::Rti => Some(State::ReadOpcode),
            Instruction::Rts => Some(State::IncrementPC),
            _ => None,
        },
        State::FetchSubroutineLowByte => Some(State::JSRMystery),
        State::JSRMystery => Some(State::PushPCHighByte),
    }
}

/// Whether `state` performs the access of an instruction with operand access `access`.
pub open spec fn is_access_state(access: Option<InstructionType>, state: State) -> bool {
    ||| access_state(access) == Some(state)
    ||| access == Some(InstructionType::ReadModifyWrite) && (state == State::ReadWriteExecute
        || state == State::ReadWriteCommit)
}

/// Whether the CPU passes through `state` after fetching `opcode` (the fetch
/// itself, `ReadOpcode`, excluded).
pub open spec fn visits(opcode: u8, state: State) -> bool {
    let ins = decode(opcode);
    let mode = opcode_mode(opcode);
    let access = memory_access(ins);
    &&& supported(opcode)
    &&& match first_state(ins, mode).unwrap() {
        State::Implied => state == State::Implied,
        State::Immediate => state == State::Immediate,
        State::Relative => state == State::Relative || state == State::RelativeLowByte || state
            == State::RelativeHighByte,
        State::DummyReadAndIncrementPC => state == State::DummyReadAndIncrementPC || state
            == State::PushPCHighByte || state == State::PushPCLowByte || state
            == State::PushStatusRegisteWithBFlag || state == State::FetchPCLowByte || state
            == State::FetchPCHighByte,
        State::FetchSubroutineLowByte => state == State::FetchSubroutineLowByte || state
            == State::JSRMystery || state == State::PushPCHighByte || state == State::PushPCLowByte
            || state == State::FetchSubroutineHighByte,
        State::DummyRead => state == State::DummyRead || match ins {
            Instruction::Rti => state == State::IncrementSP || state
                == State::PullStatusRegisterAndIncrementSP || state == State::PullPCLowByte
                || state == State::PullPCHighByte,
            Instruction::Rts => state == State::IncrementSP || state == State::PullPCLowByte
                || state == State::PullPCHighByte || state == State::IncrementPC,
            Instruction::Pha => state == State::PushAccumulator,
            Instruction::Php => state == State::PushStatusRegister,
            Instruction::Pla => state == State::IncrementSP || state == State::PullAccumulator,
            _ => state == State::IncrementSP || state == State::PullStatusRegister,
        },
        State::OneOperandStart => state == State::OneOperandStart || is_access_state(access, state)
            || match mode {
            AddressMode::ZeroPageIndexedX => state == State::ZeroPageIndexedX,
            AddressMode::ZeroPageIndexedY => state == State::ZeroPageIndexedY,
            AddressMode::IndexedIndirectX => state == State::IndexedIndirectStart || state
                == State::IndexedIndirectLowByte || state == State::IndexedIndirectHighByte,
            AddressMode::IndirectIndexedY => state == State::IndirectIndexedLowByte || state
                == State::IndirectIndexedHighByte || state == State::FixHighByte,
            _ => false,
        },
        _ => state == State::TwoOperandStart || match mode {
            AddressMode::Absolute => if ins == Instruction::Jmp {
                state == State::JumpHighByte
            } else {
                state == State::AbsoluteAddressHighByte || is_access_state(access, state)
            },
            AddressMode::AbsoluteIndexedX => state == State::AbsoluteIndexedXHighByte || state
                == State::FixHighByte || is_access_state(access, state),
            AddressMode::AbsoluteIndexedY => state == State::AbsoluteIndexedYHighByte || state
                == State::FixHighByte || is_access_state(access, state),
            _ => state == State::AbsoluteIndirectHighByte || state
                == State::AbsoluteIndirectLowByteActual || state
                == State::AbsoluteIndirectHighByteActual,
        },
    }
}

/// The most cycles that remain of an instruction in `state`, this one included.
pub open spec fn cycles_left(state: State) -> nat {
    match state {
        State::ReadOpcode => 8,
        State::OneOperandStart | State::FetchSubroutineLowByte => 7,
        State::TwoOperandStart | State::IndexedIndirectStart | State::IndirectIndexedLowByte
        | State::DummyReadAndIncrementPC | State::JSRMystery | State::DummyRead => 6,
        State::IndexedIndirectLowByte | State::IndirectIndexedHighByte
        | State::AbsoluteIndexedXHighByte | State::AbsoluteIndexedYHighByte
        | State::PushPCHighByte | State::IncrementSP => 5,
        State::IndexedIndirectHighByte | State::FixHighByte | State::ZeroPageIndexedX
        | State::ZeroPageIndexedY | State::AbsoluteAddressHighByte | State::PushPCLowByte
        | State::PullStatusRegisterAndIncrementSP => 4,
        State::ReadWriteStart | State::AbsoluteIndirectHighByte | State::Relative
        | State::PushStatusRegisteWithBFlag | State::PullPCHighByte => 3,
        State::ReadWriteExecute | State::AbsoluteIndirectLowByteActual | State::RelativeLowByte
        | State::FetchPCLowByte | State::PullPCLowByte => 2,
        _ => 1,
    }
}

/// Fetching a supported opcode leads into its sequence of states.
pub proof fn lemma_fetch_enters_sequence(opcode: u8, alt: bool)
    requires
        supported(opcode),
    ensures
        next_state(State::ReadOpcode, opcode, alt) matches Some(s) && visits(opcode, s),
{
}

/// Once a supported opcode is fetched, every state of its sequence has a next
/// state, which is again in the sequence or is the next fetch; every step
/// brings the instruction closer to its end.
pub proof fn lemma_sequence_closed(opcode: u8, state: State, alt: bool)
    requires
        visits(opcode, state),
    ensures
        next_state(state, opcode, alt) matches Some(s) && (s == State::ReadOpcode || (visits(
            opcode,
            s,
        ) && cycles_left(s) < cycles_left(state))),
{
}

/// A branch goes back to the fetch when it is not taken; when it is taken it
/// adds the offset to the low byte, and takes one cycle more, for the high
/// byte, only when that crosses a page.
pub proof fn lemma_branch_sequence(opcode: u8, alt: bool)
    requires
        is_branch(decode(opcode)),
    ensures
        next_state(State::Relative, opcode, alt) == if alt {
            Some(State::RelativeLowByte)
        } else {
            Some(State::ReadOpcode)
        },
        next_state(State::RelativeLowByte, opcode, alt) == if alt {
            Some(State::RelativeHighByte)
        } else {
            Some(State::ReadOpcode)
        },
        next_state(State::RelativeHighByte, opcode, alt) == Some(State::ReadOpcode),
{
}

/// After an indexed address, a read that crosses no page goes straight to
/// the read; a read that crosses one, and every store and read-modify-write,
/// first fixes the high byte.
pub proof fn lemma_indexed_sequence(opcode: u8, state: State, alt: bool)
    requires
        state == State::AbsoluteIndexedXHighByte || state == State::AbsoluteIndexedYHighByte
            || state == State::IndirectIndexedHighByte,
        memory_access(decode(opcode)) is Some,
    ensures
        memory_access(decode(opcode)) == Some(InstructionType::Read) && !alt ==> next_state(
            state,
            opcode,
            alt,
        ) == Some(State::ReadStart),
        memory_access(decode(opcode)) == Some(InstructionType::Read) && alt ==> next_state(
            state,
            opcode,
            alt,
        ) == Some(State::FixHighByte),
        memory_access(decode(opcode)) != Some(InstructionType::Read) ==> next_state(
            state,
            opcode,
            alt,
        ) == Some(State::FixHighByte),
{
}

/// The stack instructions' cycles after the dummy read. RTS: increment SP,
/// pull the low byte, pull the high byte, then increment PC. RTI: increment
/// SP, pull the status, pull the two bytes, then fetch. PLA and PLP:
/// increment SP, then pull. PHA and PHP: push, then fetch. JSR and BRK push
/// the high byte, then the low byte; BRK then pushes the status and reads the
/// vector.
pub proof fn lemma_stack_sequences(opcode: u8, alt: bool)
    ensures
        decode(opcode) == Instruction::Rts ==> {
            &&& next_state(State::DummyRead, opcode, alt) == Some(State::IncrementSP)
            &&& next_state(State::IncrementSP, opcode, alt) == Some(State::PullPCHighByte)
            &&& next_state(State::PullPCHighByte, opcode, alt) == Some(State::PullPCLowByte)
            &&& next_state(State::PullPCLowByte, opcode, alt) == Some(State::IncrementPC)
            &&& next_state(State::IncrementPC, opcode, alt) == Some(State::ReadOpcode)
        },
        decode(opcode) == Instruction::Rti ==> {
            &&& next_state(State::DummyRead, opcode, alt) == Some(State::IncrementSP)
            &&& next_state(State::IncrementSP, opcode, alt) == Some(
                State::PullStatusRegisterAndIncrementSP,
            )
            &&& next_state(State::PullStatusRegisterAndIncrementSP, opcode, alt) == Some(
                State::PullPCHighByte,
            )
            &&& next_state(State::PullPCHighByte, opcode, alt) == Some(State::PullPCLowByte)
            &&& next_state(State::PullPCLowByte, opcode, alt) == Some(State::ReadOpcode)
        },
        decode(opcode) == Instruction::Pla ==> next_state(State::IncrementSP, opcode, alt) == Some(
            State::PullAccumulator,
        ),
        decode(opcode) == Instruction::Plp ==> next_state(State::IncrementSP, opcode, alt) == Some(
            State::PullStatusRegister,
        ),
        decode(opcode) == Instruction::Pha ==> next_state(State::DummyRead, opcode, alt) == Some(
            State::PushAccumulator,
        ),
        decode(opcode) == Instruction::Php ==> next_state(State::DummyRead, opcode, alt) == Some(
            State::PushStatusRegister,
        ),
        decode(opcode) == Instruction::Jsr || decode(opcode) == Instruction::Brk ==> next_state(
            State::PushPCHighByte,
            opcode,
            alt,
        ) == Some(State::PushPCLowByte),
        decode(opcode) == Instruction::Jsr ==> next_state(State::PushPCLowByte, opcode, alt)
            == Some(State::FetchSubroutineHighByte),
        decode(opcode) == Instruction::Brk ==> {
            &&& next_state(State::PushPCLowByte, opcode, alt) == Some(
                State::PushStatusRegisteWithBFlag,
            )
            &&& next_state(State::PushStatusRegisteWithBFlag, opcode, alt) == Some(
                State::FetchPCLowByte,
            )
            &&& next_state(State::FetchPCLowByte, opcode, alt) == Some(State::FetchPCHighByte)
        },
{
}

/// An instruction takes at most eight cycles, its fetch included.
pub proof fn lemma_cycles_bounded(state: State)
    ensures
        1 <= cycles_left(state) <= 8,
        state != State::ReadOpcode ==> cycles_left(state) <= 7,
{
}

fn opcode_address_mode(opcode: u8) -> (r: AddressMode)
    ensures
        r == opcode_mode(opcode),
{
    OPCODE_ADDRESS_MODES[opcode as usize]
}

fn is_implied_instruction(ins: Instruction) -> (r: bool)
    ensures
        r == is_implied_op(ins),
{
    matches!(ins, Instruction::Inx | Instruction::Iny | Instruction::Dex | Instruction::Dey
        | Instruction::Asl | Instruction::Rol | Instruction::Lsr | Instruction::Ror
        | Instruction::Txa | Instruction::Tya | Instruction::Tax | Instruction::Tay
        | Instruction::Tsx | Instruction::Txs | Instruction::Clc | Instruction::Clv
        | Instruction::Cli | Instruction::Cld | Instruction::Sec | Instruction::Sei
        | Instruction::Sed | Instruction::Nop)
}

fn is_immediate_instruction(ins: Instruction) -> (r: bool)
    ensures
        r == is_immediate_op(ins),
{
    matches!(ins, Instruction::Nop | Instruction::Lda | Instruction::Ldx | Instruction::Ldy
        | Instruction::Cmp | Instruction::Cpx | Instruction::Cpy | Instruction::And
        | Instruction::Ora | Instruction::Eor | Instruction::Adc | Instruction::Sbc)
}

fn is_branch_instruction(ins: Instruction) -> (r: bool)
    ensures
        r == is_branch(ins),
{
    matches!(ins, Instruction::Bcc | Instruction::Bcs | Instruction::Beq | Instruction::Bne
        | Instruction::Bpl | Instruction::Bmi | Instruction::Bvc | Instruction::Bvs)
}

fn memory_access_of(ins: Instruction) -> (r: Option<InstructionType>)
    ensures
        r == memory_access(ins),
{
    match ins {
        Instruction::Nop | Instruction::Lda | Instruction::Ldx | Instruction::Ldy
        | Instruction::Cmp | Instruction::Cpx | Instruction::Cpy | Instruction::And
        | Instruction::Ora | Instruction::Eor | Instruction::Adc | Instruction::Sbc
        | Instruction::Bit => Some(InstructionType::Read),
        Instruction::Asl | Instruction::Lsr | Instruction::Rol | Instruction::Ror
        | Instruction::Inc | Instruction::Dec => Some(InstructionType::ReadModifyWrite),
        Instruction::Sta | Instruction::Stx | Instruction::Sty => Some(InstructionType::Write),
        _ => None,
    }
}

fn access_state_of(access: Option<InstructionType>) -> (r: Option<State>)
    ensures
        r == access_state(access),
{
    match access {
        Some(InstructionType::Read) => Some(State::ReadStart),
        Some(InstructionType::ReadModifyWrite) => Some(State::ReadWriteStart),
        Some(InstructionType::Write) => Some(State::WriteStart),
        _ => None,
    }
}

fn first_state_of(ins: Instruction, mode: AddressMode) -> (r: Option<State>)
    ensures
        r == first_state(ins, mode),
{
    match mode {
        AddressMode::Implicit | AddressMode::Accumulator => match ins {
            Instruction::Brk => Some(State::DummyReadAndIncrementPC),
            Instruction::Rti | Instruction::Rts | Instruction::Pha | Instruction::Php
            | Instruction::Pla | Instruction::Plp => Some(State::DummyRead),
            _ => if is_implied_instruction(ins) {
                Some(State::Implied)
            } else {
                None
            },
        },
        AddressMode::Immediate => if is_immediate_instruction(ins) {
            Some(State::Immediate)
        } else {
            None
        },
        AddressMode::ZeroPage | AddressMode::ZeroPageIndexedX | AddressMode::ZeroPageIndexedY
        | AddressMode::IndexedIndirectX | AddressMode::IndirectIndexedY => if memory_access_of(
            ins,
        ).is_some() {
            Some(State::OneOperandStart)
        } else {
            None
        },
        AddressMode::Absolute => if ins == Instruction::Jsr {
            Some(State::FetchSubroutineLowByte)
        } else if ins == Instruction::Jmp || memory_access_of(ins).is_some() {
            Some(State::TwoOperandStart)
        } else {
            None
        },
        AddressMode::AbsoluteIndexedX | AddressMode::AbsoluteIndexedY => if memory_access_of(
            ins,
        ).is_some() {
            Some(State::TwoOperandStart)
        } else {
            None
        },
        AddressMode::Indirect => if ins == Instruction::Jmp {
            Some(State::TwoOperandStart)
        } else {
            None
        },
        AddressMode::Relative => if is_branch_instruction(ins) {
            Some(State::Relative)
        } else {
            None
        },
    }
}

fn after_indexed_of(access: Option<InstructionType>, crossed: bool) -> (r: Option<State>)
    ensures
        r == after_indexed(access, crossed),
{
    match access {
        Some(InstructionType::Read) => if crossed {
            Some(State::FixHighByte)
        } else {
            Some(State::ReadStart)
        },
        Some(InstructionType::ReadModifyWrite) | Some(InstructionType::Write) => Some(
            State::FixHighByte,
        ),
        _ => None,
    }
}

/// The state that follows `state` while the CPU runs `opcode`, given what the
/// cycle reported in `alt`.
pub fn transition(state: &State, opcode: u8, alt: bool) -> (r: Option<State>)
    ensures
        r == next_state(*state, opcode, alt),
{
    let ins = Instruction::from_opcode(opcode);
    let mode = opcode_address_mode(opcode);
    let access = memory_access_of(ins);
    match state {
        State::ReadOpcode => first_state_of(ins, mode),
        State::Implied | State::Immediate | State::ReadStart | State::WriteStart
        | State::ReadWriteCommit | State::JumpHighByte | State::AbsoluteIndirectHighByteActual
        | State::RelativeHighByte | State::FetchPCHighByte | State::IncrementPC
        | State::PushAccumulator | State::PushStatusRegister | State::PullAccumulator
        | State::PullStatusRegister | State::FetchSubroutineHighByte => Some(State::ReadOpcode),
        State::OneOperandStart => match mode {
            AddressMode::ZeroPage => access_state_of(access),
            AddressMode::ZeroPageIndexedX => Some(State::ZeroPageIndexedX),
            AddressMode::ZeroPageIndexedY => Some(State::ZeroPageIndexedY),
            AddressMode::IndexedIndirectX => Some(State::IndexedIndirectStart),
            AddressMode::IndirectIndexedY => Some(State::IndirectIndexedLowByte),
            _ => None,
        },
        State::TwoOperandStart => match mode {
            AddressMode::Absolute => if ins == Instruction::Jmp {
                Some(State::JumpHighByte)
            } else {
                Some(State::AbsoluteAddressHighByte)
            },
            AddressMode::AbsoluteIndexedX => Some(State::AbsoluteIndexedXHighByte),
            AddressMode::AbsoluteIndexedY => Some(State::AbsoluteIndexedYHighByte),
            AddressMode::Indirect => Some(State::AbsoluteIndirectHighByte),
            _ => None,
        },
        State::ZeroPageIndexedX | State::ZeroPageIndexedY | State::IndexedIndirectHighByte
        | State::FixHighByte | State::AbsoluteAddressHighByte => access_state_of(access),
        State::IndexedIndirectStart => Some(State::IndexedIndirectLowByte),
        State::IndexedIndirectLowByte => Some(State::IndexedIndirectHighByte),
        State::IndirectIndexedLowByte => Some(State::IndirectIndexedHighByte),
        State::IndirectIndexedHighByte | State::AbsoluteIndexedXHighByte
        | State::AbsoluteIndexedYHighByte => after_indexed_of(access, alt),
        State::AbsoluteIndirectHighByte => Some(State::AbsoluteIndirectLowByteActual),
        State::AbsoluteIndirectLowByteActual => Some(State::AbsoluteIndirectHighByteActual),
        State::ReadWriteStart => Some(State::ReadWriteExecute),
        State::ReadWriteExecute => Some(State::ReadWriteCommit),
        State::Relative => if alt {
            Some(State::RelativeLowByte)
        } else {
            Some(State::ReadOpcode)
        },
        State::RelativeLowByte => if alt {
            Some(State::RelativeHighByte)
        } else {
            Some(State::ReadOpcode)
        },
        State::DummyRead => match ins {
            Instruction::Rti | Instruction::Rts | Instruction::Pla
            | Instruction::Plp => Some(State::IncrementSP),
            Instruction::Pha => Some(State::PushAccumulator),
            Instruction::Php => Some(State::PushStatusRegister),
            _ => None,
        },
        State::DummyReadAndIncrementPC => Some(State::PushPCHighByte),
        State::PushPCHighByte => Some(State::PushPCLowByte),
        State::PushPCLowByte => match ins {
            Instruction::Brk => Some(State::PushStatusRegisteWithBFlag),
            Instruction::Jsr => Some(State::FetchSubroutineHighByte),
            _ => None,
        },
        State::PushStatusRegisteWithBFlag => Some(State::FetchPCLowByte),
        State::FetchPCLowByte => Some(State::FetchPCHighByte),
        State::IncrementSP => match ins {
            Instruction::Rti => Some(State::PullStatusRegisterAndIncrementSP),
            Instruction::Rts => Some(State::PullPCHighByte),
            Instruction::Pla => Some(State::PullAccumulator),
            Instruction::Plp => Some(State::PullStatusRegister),
            _ => None,
        },
        State::PullStatusRegisterAndIncrementSP => Some(State::PullPCHighByte),
        State::PullPCHighByte => Some(State::PullPCLowByte),
        State::PullPCLowByte => match ins {
            Instruction::Rti => Some(State::ReadOpcode),
            Instruction::Rts => Some(State::IncrementPC),
            _ => None,
        },
        State::FetchSubroutineLowByte => Some(State::JSRMystery),
        State::JSRMystery => Some(State::PushPCHighByte),
    }
}

} // verus!
