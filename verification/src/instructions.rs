use vstd::prelude::*;

verus! {

/// The instruction of each of the 256 opcodes, official and unofficial.
pub const INSTRUCTION_TABLE: [Instruction; 256] = [
    Instruction::Brk, Instruction::Ora, Instruction::Stp, Instruction::Slo, Instruction::Nop, Instruction::Ora, Instruction::Asl, Instruction::Slo, Instruction::Php, Instruction::Ora, Instruction::Asl, Instruction::Anc, Instruction::Nop, Instruction::Ora, Instruction::Asl, Instruction::Slo,
    Instruction::Bpl, Instruction::Ora, Instruction::Stp, Instruction::Slo, Instruction::Nop, Instruction::Ora, Instruction::Asl, Instruction::Slo, Instruction::Clc, Instruction::Ora, Instruction::Nop, Instruction::Slo, Instruction::Nop, Instruction::Ora, Instruction::Asl, Instruction::Slo,
    Instruction::Jsr, Instruction::And, Instruction::Stp, Instruction::Rla, Instruction::Bit, Instruction::And, Instruction::Rol, Instruction::Rla, Instruction::Plp, Instruction::And, Instruction::Rol, Instruction::Anc, Instruction::Bit, Instruction::And, Instruction::Rol, Instruction::Rla,
    Instruction::Bmi, Instruction::And, Instruction::Stp, Instruction::Rla, Instruction::Nop, Instruction::And, Instruction::Rol, Instruction::Rla, Instruction::Sec, Instruction::And, Instruction::Nop, Instruction::Rla, Instruction::Nop, Instruction::And, Instruction::Rol, Instruction::Rla,
    Instruction::Rti, Instruction::Eor, Instruction::Stp, Instruction::Sre, Instruction::Nop, Instruction::Eor, Instruction::Lsr, Instruction::Sre, Instruction::Pha, Instruction::Eor, Instruction::Lsr, Instruction::Alr, Instruction::Jmp, Instruction::Eor, Instruction::Lsr, Instruction::Sre,
    Instruction::Bvc, Instruction::Eor, Instruction::Stp, Instruction::Sre, Instruction::Nop, Instruction::Eor, Instruction::Lsr, Instruction::Sre, Instruction::Cli, Instruction::Eor, Instruction::Nop, Instruction::Sre, Instruction::Nop, Instruction::Eor, Instruction::Lsr, Instruction::Sre,
    Instruction::Rts, Instruction::Adc, Instruction::Stp, Instruction::Rra, Instruction::Nop, Instruction::Adc, Instruction::Ror, Instruction::Rra, Instruction::Pla, Instruction::Adc, Instruction::Ror, Instruction::Arr, Instruction::Jmp, Instruction::Adc, Instruction::Ror, Instruction::Rra,
    Instruction::Bvs, Instruction::Adc, Instruction::Stp, Instruction::Rra, Instruction::Nop, Instruction::Adc, Instruction::Ror, Instruction::Rra, Instruction::Sei, Instruction::Adc, Instruction::Nop, Instruction::Rra, Instruction::Nop, Instruction::Adc, Instruction::Ror, Instruction::Rra,
    Instruction::Nop, Instruction::Sta, Instruction::Nop, Instruction::Sax, Instruction::Sty, Instruction::Sta, Instruction::Stx, Instruction::Sax, Instruction::Dey, Instruction::Nop, Instruction::Txa, Instruction::Xaa, Instruction::Sty, Instruction::Sta, Instruction::Stx, Instruction::Sax,
    Instruction::Bcc, Instruction::Sta, Instruction::Stp, Instruction::Ahx, Instruction::Sty, Instruction::Sta, Instruction::Stx, Instruction::Sax, Instruction::Tya, Instruction::Sta, Instruction::Txs, Instruction::Tas, Instruction::Shy, Instruction::Sta, Instruction::Shx, Instruction::Ahx,
    Instruction::Ldy, Instruction::Lda, Instruction::Ldx, Instruction::Lax, Instruction::Ldy, Instruction::Lda, Instruction::Ldx, Instruction::Lax, Instruction::Tay, Instruction::Lda, Instruction::Tax, Instruction::Lax, Instruction::Ldy, Instruction::Lda, Instruction::Ldx, Instruction::Lax,
    Instruction::Bcs, Instruction::Lda, Instruction::Stp, Instruction::Lax, Instruction::Ldy, Instruction::Lda, Instruction::Ldx, Instruction::Lax, Instruction::Clv, Instruction::Lda, Instruction::Tsx, Instruction::Las, Instruction::Ldy, Instruction::Lda, Instruction::Ldx, Instruction::Lax,
    Instruction::Cpy, Instruction::Cmp, Instruction::Nop, Instruction::Dcp, Instruction::Cpy, Instruction::Cmp, Instruction::Dec, Instruction::Dcp, Instruction::Iny, Instruction::Cmp, Instruction::Dex, Instruction::Axs, Instruction::Cpy, Instruction::Cmp, Instruction::Dec, Instruction::Dcp,
    Instruction::Bne, Instruction::Cmp, Instruction::Stp, Instruction::Dcp, Instruction::Nop, Instruction::Cmp, Instruction::Dec, Instruction::Dcp, Instruction::Cld, Instruction::Cmp, Instruction::Nop, Instruction::Dcp, Instruction::Nop, Instruction::Cmp, Instruction::Dec, Instruction::Dcp,
    Instruction::Cpx, Instruction::Sbc, Instruction::Nop, Instruction::Isc, Instruction::Cpx, Instruction::Sbc, Instruction::Inc, Instruction::Isc, Instruction::Inx, Instruction::Sbc, Instruction::Nop, Instruction::Sbc, Instruction::Cpx, Instruction::Sbc, Instruction::Inc, Instruction::Isc,
    Instruction::Beq, Instruction::Sbc, Instruction::Stp, Instruction::Isc, Instruction::Nop, Instruction::Sbc, Instruction::Inc, Instruction::Isc, Instruction::Sed, Instruction::Sbc, Instruction::Nop, Instruction::Isc, Instruction::Nop, Instruction::Sbc, Instruction::Inc, Instruction::Isc,
];

/// The addressing modes of the first four opcodes.
pub const ADDRESS_MODE_TABLE: [AddressMode; 4] = [
    AddressMode::Implicit,
    AddressMode::ZeroPage,
    AddressMode::Implicit,
    AddressMode::Absolute,
];

/// How an instruction finds its operand.
#[derive(PartialEq, Eq, Structural, Clone, Copy, Debug)]
pub enum AddressMode {
    Implicit,
    Accumulator,
    Immediate,
    ZeroPage,
    Absolute,
    Relative,
    Indirect,
    ZeroPageIndexedX,
    ZeroPageIndexedY,
    AbsoluteIndexedX,
    AbsoluteIndexedY,
    IndexedIndirectX,
    IndirectIndexedY,
}

/// The 6502 instructions, official and unofficial.
#[derive(PartialEq, Eq, Structural, Clone, Copy, Debug)]
pub enum Instruction {
    Lda, Sta, Ldx, Stx, Ldy, Sty,
    Tax, Txa, Tay, Tya,
    Adc, Sbc, Inc, Dec, Inx, Dex, Iny, Dey,
    Asl, Lsr, Rol, Ror,
    And, Ora, Eor, Bit,
    Cmp, Cpx, Cpy,
    Bcc, Bcs, Beq, Bne, Bpl, Bmi, Bvc, Bvs,
    Jmp, Jsr, Rts, Brk, Rti,
    Pha, Pla, Php, Plp, Txs, Tsx,
    Clc, Sec, Cli, Sei, Cld, Sed, Clv,
    Nop,
    // unofficial opcodes
    Ahx, Alr, Arr, Axs, Anc, Dcp, Isc, Las, Lax, Rla, Rra, Sax, Shx, Shy, Slo, Sre, Stp, Tas, Xaa,
}

/// How an instruction uses the bus.
#[derive(PartialEq, Eq, Structural, Clone, Copy, Debug)]
pub enum InstructionType {
    NoReadWrite,
    Stack,
    Read,
    ReadModifyWrite,
    Write,
    Jump,
}

/// The instruction that `opcode` encodes.
pub open spec fn decode(opcode: u8) -> Instruction {
    INSTRUCTION_TABLE@[opcode as int]
}

/// The number of operand bytes counted for each addressing mode.
pub open spec fn operand_count(mode: AddressMode) -> usize {
    match mode {
        AddressMode::Implicit => 0,
        AddressMode::Accumulator => 0,
        AddressMode::Immediate => 1,
        AddressMode::ZeroPage => 1,
        AddressMode::Absolute => 2,
        AddressMode::Relative => 1,
        AddressMode::Indirect => 2,
        AddressMode::ZeroPageIndexedX => 1,
        AddressMode::ZeroPageIndexedY => 1,
        AddressMode::AbsoluteIndexedX => 2,
        AddressMode::AbsoluteIndexedY => 2,
        AddressMode::IndexedIndirectX => 1,
        AddressMode::IndirectIndexedY => 1,
    }
}

/// How each instruction uses the bus.
pub open spec fn instruction_type(ins: Instruction) -> InstructionType {
    match ins {
        Instruction::Lda | Instruction::Ldx | Instruction::Ldy | Instruction::Eor
        | Instruction::And | Instruction::Ora | Instruction::Adc | Instruction::Sbc
        | Instruction::Cmp | Instruction::Bit | Instruction::Lax | Instruction::Nop
        | Instruction::Las => InstructionType::Read,
        Instruction::Asl | Instruction::Lsr | Instruction::Rol | Instruction::Ror
        | Instruction::Inc | Instruction::Dec | Instruction::Slo | Instruction::Sre
        | Instruction::Rla | Instruction::Rra | Instruction::Isc
        | Instruction::Dcp => InstructionType::ReadModifyWrite,
        Instruction::Sta | Instruction::Stx | Instruction::Sty | Instruction::Sax
        | Instruction::Ahx | Instruction::Shx | Instruction::Shy
        | Instruction::Axs => InstructionType::Write,
        Instruction::Brk | Instruction::Rti | Instruction::Rts | Instruction::Pha
        | Instruction::Php | Instruction::Pla | Instruction::Plp
        | Instruction::Jsr => InstructionType::Stack,
        Instruction::Jmp => InstructionType::Jump,
        _ => InstructionType::NoReadWrite,
    }
}

impl AddressMode {
    pub fn from_opcode(opcode: u8) -> (r: AddressMode)
        requires
            opcode < 4,
        ensures
            r == ADDRESS_MODE_TABLE@[opcode as int],
    {
        ADDRESS_MODE_TABLE[opcode as usize]
    }

    pub fn get_operand_count(&self) -> (r: usize)
        ensures
            r == operand_count(*self),
    {
        let count = match self {
            AddressMode::Implicit => 0,
            AddressMode::Accumulator => 0,
            AddressMode::Immediate => 1,
            AddressMode::ZeroPage => 1,
            AddressMode::Absolute => 2,
            AddressMode::Relative => 1,
            AddressMode::Indirect => 2,
            AddressMode::ZeroPageIndexedX => 1,
            AddressMode::ZeroPageIndexedY => 1,
            AddressMode::AbsoluteIndexedX => 2,
            AddressMode::AbsoluteIndexedY => 2,
            AddressMode::IndexedIndirectX => 1,
            AddressMode::IndirectIndexedY => 1,
        };
        count
    }
}

impl Instruction {
    pub fn from_opcode(opcode: u8) -> (r: Instruction)
        ensures
            r == decode(opcode),
    {
        INSTRUCTION_TABLE[opcode as usize]
    }

    pub fn get_type(&self) -> (r: InstructionType)
        ensures
            r == instruction_type(*self),
    {
        match self {
            Instruction::Lda | Instruction::Ldx | Instruction::Ldy | Instruction::Eor
            | Instruction::And | Instruction::Ora | Instruction::Adc | Instruction::Sbc
            | Instruction::Cmp | Instruction::Bit | Instruction::Lax | Instruction::Nop
            | Instruction::Las => InstructionType::Read,
            Instruction::Asl | Instruction::Lsr | Instruction::Rol | Instruction::Ror
            | Instruction::Inc | Instruction::Dec | Instruction::Slo | Instruction::Sre
            | Instruction::Rla | Instruction::Rra | Instruction::Isc
            | Instruction::Dcp => InstructionType::ReadModifyWrite,
            Instruction::Sta | Instruction::Stx | Instruction::Sty | Instruction::Sax
            | Instruction::Ahx | Instruction::Shx | Instruction::Shy
            | Instruction::Axs => InstructionType::Write,
            Instruction::Brk | Instruction::Rti | Instruction::Rts | Instruction::Pha
            | Instruction::Php | Instruction::Pla | Instruction::Plp
            | Instruction::Jsr => InstructionType::Stack,
            Instruction::Jmp => InstructionType::Jump,
            _ => InstructionType::NoReadWrite,
        }
    }
}

} // verus!
