use vstd::prelude::*;
use crate::alu::{
    adc_status, bit_status, carry_of, compare_status, lemma_adc, lemma_compare, lemma_sbc,
    lemma_zn_flags, sbc_status, signed_byte, with_czn, with_zn,
};
use crate::cpu_model::{CpuView, branch_taken, inc16, lemma_ram_read_after_write};
use crate::instructions::decode;
use crate::instructions::Instruction;
use crate::register::{bit8, high_of, lemma_join_split, lemma_with_bit8, low_of, with_bit8};
use crate::transition::State;

verus! {

/// Every status flag outside `changed` has the same value in `before` and in `after`.
pub open spec fn other_flags_kept(before: u8, after: u8, changed: Set<u8>) -> bool {
    forall|i: u8| i < 8 && !changed.contains(i) ==> #[trigger] bit8(after, i) == bit8(before, i)
}

/// The carry flag of `p` as the number 0 or 1.
pub open spec fn carry_in(p: u8) -> int {
    if bit8(p, 0) {
        1
    } else {
        0
    }
}

/// Setting Z and N from `r`: Z tells whether `r` is zero, N whether it is at
/// least 128, and the other flags stay.
proof fn lemma_zn(p: u8, r: u8)
    ensures
        bit8(with_zn(p, r), 1) == (r == 0),
        bit8(with_zn(p, r), 7) == (r >= 128),
        other_flags_kept(p, with_zn(p, r), set![1u8, 7u8]),
{
    lemma_zn_flags(p, r, 0);
    assert forall|i: u8| i < 8 && !set![1u8, 7u8].contains(i) implies #[trigger] bit8(
        with_zn(p, r),
        i,
    ) == bit8(p, i) by {
        lemma_zn_flags(p, r, i);
    }
}

/// Setting C, Z and N: C from `c`, Z and N from `r`, the other flags stay.
proof fn lemma_czn(p: u8, c: bool, r: u8)
    ensures
        bit8(with_czn(p, c, r), 0) == c,
        bit8(with_czn(p, c, r), 1) == (r == 0),
        bit8(with_czn(p, c, r), 7) == (r >= 128),
        other_flags_kept(p, with_czn(p, c, r), set![0u8, 1u8, 7u8]),
{
    let s0 = with_bit8(p, 0, c);
    let s1 = with_bit8(s0, 1, r == 0);
    assert forall|i: u8| i < 8 implies #[trigger] bit8(with_czn(p, c, r), i) == if i == 7 {
        r >= 128
    } else if i == 1 {
        r == 0
    } else if i == 0 {
        c
    } else {
        bit8(p, i)
    } by {
        lemma_with_bit8(s1, 7, r >= 128, i);
        lemma_with_bit8(s0, 1, r == 0, i);
        lemma_with_bit8(p, 0, c, i);
    }
    assert(bit8(with_czn(p, c, r), 0) == c);
    assert(bit8(with_czn(p, c, r), 1) == (r == 0));
    assert(bit8(with_czn(p, c, r), 7) == (r >= 128));
}

/// The flags after an addition: only C, Z, V and N change.
proof fn lemma_add_flags_kept(p: u8, a: u8, m: u8, q: u8)
    requires
        q == adc_status(a, m, p),
    ensures
        other_flags_kept(p, q, set![0u8, 1u8, 6u8, 7u8]),
{
    let r = crate::alu::adc_result(a, m, p);
    let s0 = with_bit8(p, 0, a + m + carry_of(p) > 255);
    let s1 = with_bit8(s0, 1, r == 0);
    let s2 = with_bit8(s1, 6, crate::alu::signed_overflow(a, m, r));
    assert forall|i: u8| i < 8 && !set![0u8, 1u8, 6u8, 7u8].contains(i) implies #[trigger] bit8(
        q,
        i,
    ) == bit8(p, i) by {
        lemma_with_bit8(s2, 7, r >= 128, i);
        lemma_with_bit8(s1, 6, crate::alu::signed_overflow(a, m, r), i);
        lemma_with_bit8(s0, 1, r == 0, i);
        lemma_with_bit8(p, 0, a + m + carry_of(p) > 255, i);
    }
}

/// CMP, CPX and CPY compare the accumulator, X and Y with the operand: the
/// carry is set iff the register is at least the operand, Z iff they are
/// equal, N is bit 7 of their difference modulo 256; no other flag and no
/// register changes.
pub proof fn lemma_compare_laws(v: CpuView, m: u8)
    ensures
        ({
            let w = v.apply_read(Instruction::Cmp, m);
            &&& bit8(w.p, 0) == (v.a >= m)
            &&& bit8(w.p, 1) == (v.a == m)
            &&& bit8(w.p, 7) == ((v.a - m + 256) % 256 >= 128)
            &&& other_flags_kept(v.p, w.p, set![0u8, 1u8, 7u8])
            &&& w.a == v.a && w.x == v.x && w.y == v.y && w.sp == v.sp && w.pc == v.pc
        }),
        ({
            let w = v.apply_read(Instruction::Cpx, m);
            &&& bit8(w.p, 0) == (v.x >= m)
            &&& bit8(w.p, 1) == (v.x == m)
            &&& bit8(w.p, 7) == ((v.x - m + 256) % 256 >= 128)
            &&& other_flags_kept(v.p, w.p, set![0u8, 1u8, 7u8])
            &&& w.a == v.a && w.x == v.x && w.y == v.y && w.sp == v.sp && w.pc == v.pc
        }),
        ({
            let w = v.apply_read(Instruction::Cpy, m);
            &&& bit8(w.p, 0) == (v.y >= m)
            &&& bit8(w.p, 1) == (v.y == m)
            &&& bit8(w.p, 7) == ((v.y - m + 256) % 256 >= 128)
            &&& other_flags_kept(v.p, w.p, set![0u8, 1u8, 7u8])
            &&& w.a == v.a && w.x == v.x && w.y == v.y && w.sp == v.sp && w.pc == v.pc
        }),
{
    lemma_compare_register(v.p, v.a, m);
    lemma_compare_register(v.p, v.x, m);
    lemma_compare_register(v.p, v.y, m);
}

proof fn lemma_compare_register(p: u8, reg: u8, m: u8)
    ensures
        bit8(compare_status(p, reg, m), 0) == (reg >= m),
        bit8(compare_status(p, reg, m), 1) == (reg == m),
        bit8(compare_status(p, reg, m), 7) == ((reg - m + 256) % 256 >= 128),
        other_flags_kept(p, compare_status(p, reg, m), set![0u8, 1u8, 7u8]),
{
    lemma_compare(p, reg, m);
    let s0 = with_bit8(p, 0, reg >= m);
    let s1 = with_bit8(s0, 1, reg == m);
    let n = ((reg - m + 256) % 256) as u8 >= 128;
    assert forall|i: u8| i < 8 && !set![0u8, 1u8, 7u8].contains(i) implies #[trigger] bit8(
        compare_status(p, reg, m),
        i,
    ) == bit8(p, i) by {
        lemma_with_bit8(s1, 7, n, i);
        lemma_with_bit8(s0, 1, reg == m, i);
        lemma_with_bit8(p, 0, reg >= m, i);
    }
}

/// Which flag each branch tests: BCS/BCC the carry (bit 0), BEQ/BNE zero
/// (bit 1), BVS/BVC overflow (bit 6), BMI/BPL negative (bit 7); the first of
/// each pair branches when the flag is set, the second when it is clear.
pub proof fn lemma_branch_conditions(p: u8)
    ensures
        branch_taken(Instruction::Bcs, p) == bit8(p, 0),
        branch_taken(Instruction::Bcc, p) == !bit8(p, 0),
        branch_taken(Instruction::Beq, p) == bit8(p, 1),
        branch_taken(Instruction::Bne, p) == !bit8(p, 1),
        branch_taken(Instruction::Bvs, p) == bit8(p, 6),
        branch_taken(Instruction::Bvc, p) == !bit8(p, 6),
        branch_taken(Instruction::Bmi, p) == bit8(p, 7),
        branch_taken(Instruction::Bpl, p) == !bit8(p, 7),
{
}

/// A conditional branch is taken on its own flag: BCS on carry (bit 0) set,
/// BCC on it clear, BEQ on zero (bit 1) set, BNE on it clear, BVS on overflow
/// (bit 6) set, BVC on it clear, BMI on negative (bit 7) set, BPL on it clear.
/// The step reads the offset and moves the program counter past it.
pub proof fn lemma_branch_laws(v: CpuView)
    ensures
        ({
            let (w, taken) = v.step_in(State::Relative);
            &&& v.instruction == Instruction::Bcs ==> taken == bit8(v.p, 0)
            &&& v.instruction == Instruction::Bcc ==> taken == !bit8(v.p, 0)
            &&& v.instruction == Instruction::Beq ==> taken == bit8(v.p, 1)
            &&& v.instruction == Instruction::Bne ==> taken == !bit8(v.p, 1)
            &&& v.instruction == Instruction::Bvs ==> taken == bit8(v.p, 6)
            &&& v.instruction == Instruction::Bvc ==> taken == !bit8(v.p, 6)
            &&& v.instruction == Instruction::Bmi ==> taken == bit8(v.p, 7)
            &&& v.instruction == Instruction::Bpl ==> taken == !bit8(v.p, 7)
            &&& w.pc == inc16(v.pc)
            &&& w.mdr == v.at_pc()
            &&& w.p == v.p && w.a == v.a && w.sp == v.sp
        }),
{
    lemma_branch_conditions(v.p);
}

/// LDA, LDX and LDY put the operand into their register and set Z iff it is
/// zero and N iff it is at least 128; the other flags and registers stay.
pub proof fn lemma_load_laws(v: CpuView, m: u8)
    ensures
        ({
            let w = v.apply_read(Instruction::Lda, m);
            &&& w.a == m && w.x == v.x && w.y == v.y && w.sp == v.sp
            &&& bit8(w.p, 1) == (m == 0) && bit8(w.p, 7) == (m >= 128)
            &&& other_flags_kept(v.p, w.p, set![1u8, 7u8])
        }),
        ({
            let w = v.apply_read(Instruction::Ldx, m);
            &&& w.x == m && w.a == v.a && w.y == v.y && w.sp == v.sp
            &&& bit8(w.p, 1) == (m == 0) && bit8(w.p, 7) == (m >= 128)
            &&& other_flags_kept(v.p, w.p, set![1u8, 7u8])
        }),
        ({
            let w = v.apply_read(Instruction::Ldy, m);
            &&& w.y == m && w.a == v.a && w.x == v.x && w.sp == v.sp
            &&& bit8(w.p, 1) == (m == 0) && bit8(w.p, 7) == (m >= 128)
            &&& other_flags_kept(v.p, w.p, set![1u8, 7u8])
        }),
{
    lemma_zn(v.p, m);
}

/// AND, ORA and EOR combine the accumulator with the operand bit by bit, and
/// set Z and N from the result; the other flags and registers stay.
pub proof fn lemma_logic_laws(v: CpuView, m: u8)
    ensures
        ({
            let w = v.apply_read(Instruction::And, m);
            &&& w.a == v.a & m && w.x == v.x && w.y == v.y
            &&& bit8(w.p, 1) == (v.a & m == 0) && bit8(w.p, 7) == (v.a & m >= 128)
            &&& other_flags_kept(v.p, w.p, set![1u8, 7u8])
        }),
        ({
            let w = v.apply_read(Instruction::Ora, m);
            &&& w.a == v.a | m && w.x == v.x && w.y == v.y
            &&& bit8(w.p, 1) == (v.a | m == 0) && bit8(w.p, 7) == (v.a | m >= 128)
            &&& other_flags_kept(v.p, w.p, set![1u8, 7u8])
        }),
        ({
            let w = v.apply_read(Instruction::Eor, m);
            &&& w.a == v.a ^ m && w.x == v.x && w.y == v.y
            &&& bit8(w.p, 1) == (v.a ^ m == 0) && bit8(w.p, 7) == (v.a ^ m >= 128)
            &&& other_flags_kept(v.p, w.p, set![1u8, 7u8])
        }),
{
    lemma_zn(v.p, v.a & m);
    lemma_zn(v.p, v.a | m);
    lemma_zn(v.p, v.a ^ m);
}

/// ADC adds the operand and the carry: the new carry and accumulator make up
/// the nine-bit sum; Z and N describe the new accumulator; V is set iff the
/// signed sum leaves -128..=127; I, D and bits 4-5 stay.
pub proof fn lemma_adc_law(v: CpuView, m: u8)
    ensures
        ({
            let w = v.apply_read(Instruction::Adc, m);
            &&& carry_in(w.p) * 256 + w.a == v.a + m + carry_in(v.p)
            &&& bit8(w.p, 1) == (w.a == 0) && bit8(w.p, 7) == (w.a >= 128)
            &&& bit8(w.p, 6) == !(-128 <= signed_byte(v.a) + signed_byte(m) + carry_in(v.p) <= 127)
            &&& other_flags_kept(v.p, w.p, set![0u8, 1u8, 6u8, 7u8])
            &&& w.x == v.x && w.y == v.y && w.sp == v.sp
        }),
{
    lemma_adc(v.a, m, v.p);
    lemma_add_flags_kept(v.p, v.a, m, adc_status(v.a, m, v.p));
}

/// SBC subtracts the operand and the borrow (the complement of the carry):
/// the accumulator becomes `a - m - borrow` modulo 256, the carry is set iff
/// nothing is borrowed, Z and N describe the result, V is set iff the signed
/// difference leaves -128..=127; I, D and bits 4-5 stay.
pub proof fn lemma_sbc_law(v: CpuView, m: u8)
    ensures
        ({
            let w = v.apply_read(Instruction::Sbc, m);
            let d = v.a - m - (1 - carry_in(v.p));
            &&& w.a == (d + 256) % 256
            &&& bit8(w.p, 0) == (d >= 0)
            &&& bit8(w.p, 1) == (w.a == 0) && bit8(w.p, 7) == (w.a >= 128)
            &&& bit8(w.p, 6) == !(-128 <= signed_byte(v.a) - signed_byte(m) - (1 - carry_in(v.p))
                <= 127)
            &&& other_flags_kept(v.p, w.p, set![0u8, 1u8, 6u8, 7u8])
            &&& w.x == v.x && w.y == v.y && w.sp == v.sp
        }),
{
    lemma_sbc(v.a, m, v.p);
    lemma_adc(v.a, (255 - m) as u8, v.p);
    lemma_add_flags_kept(v.p, v.a, (255 - m) as u8, sbc_status(v.a, m, v.p));
    assert(signed_byte((255 - m) as u8) == -signed_byte(m) - 1);
}

/// BIT tests the accumulator against the operand: Z is set iff `a & m` is
/// zero, V and N are bits 6 and 7 of `a & m` (its base-64 digit's parity
/// and whether it is at least 128); the accumulator and the other
/// flags stay.
pub proof fn lemma_bit_law(v: CpuView, m: u8)
    ensures
        ({
            let w = v.apply_read(Instruction::Bit, m);
            &&& bit8(w.p, 1) == (v.a & m == 0)
            &&& bit8(w.p, 6) == ((v.a & m) / 64 % 2 == 1)
            &&& bit8(w.p, 7) == (v.a & m >= 128)
            &&& other_flags_kept(v.p, w.p, set![1u8, 6u8, 7u8])
            &&& w.a == v.a && w.x == v.x && w.y == v.y
        }),
{
    let r = v.a & m;
    let s0 = with_bit8(v.p, 1, r == 0);
    let s1 = with_bit8(s0, 6, (r / 64) % 2 == 1);
    crate::alu::lemma_byte_facts(r);
    assert forall|i: u8| i < 8 implies #[trigger] bit8(bit_status(v.p, v.a, m), i) == if i == 7 {
        r >= 128
    } else if i == 6 {
        (r / 64) % 2 == 1
    } else if i == 1 {
        r == 0
    } else {
        bit8(v.p, i)
    } by {
        lemma_with_bit8(s1, 7, r >= 128, i);
        lemma_with_bit8(s0, 6, (r / 64) % 2 == 1, i);
        lemma_with_bit8(v.p, 1, r == 0, i);
    }
    assert(bit8(bit_status(v.p, v.a, m), 7) == (r >= 128));
    assert(bit8(bit_status(v.p, v.a, m), 6) == ((r / 64) % 2 == 1));
    assert(bit8(bit_status(v.p, v.a, m), 1) == (r == 0));
}

/// The shifts and rotations of a read-modify-write instruction, on the
/// operand `m`, with the result in the ALU register: ASL doubles (bit 7 to the
/// carry), LSR halves (bit 0 to the carry), ROL doubles and adds the old
/// carry, ROR halves and adds 128 times the old carry; Z and N describe the
/// result; the other flags and the registers stay.
pub proof fn lemma_rmw_shift_laws(v: CpuView, m: u8)
    ensures
        ({
            let w = v.apply_rmw(Instruction::Asl, m);
            &&& w.alu == (2 * m) % 256 && bit8(w.p, 0) == (m >= 128)
            &&& bit8(w.p, 1) == (w.alu == 0) && bit8(w.p, 7) == (w.alu >= 128)
            &&& other_flags_kept(v.p, w.p, set![0u8, 1u8, 7u8])
            &&& w.a == v.a && w.x == v.x && w.y == v.y
        }),
        ({
            let w = v.apply_rmw(Instruction::Lsr, m);
            &&& w.alu == m / 2 && bit8(w.p, 0) == (m % 2 == 1)
            &&& bit8(w.p, 1) == (w.alu == 0) && bit8(w.p, 7) == (w.alu >= 128)
            &&& other_flags_kept(v.p, w.p, set![0u8, 1u8, 7u8])
            &&& w.a == v.a && w.x == v.x && w.y == v.y
        }),
        ({
            let w = v.apply_rmw(Instruction::Rol, m);
            &&& w.alu == (2 * m + carry_in(v.p)) % 256 && bit8(w.p, 0) == (m >= 128)
            &&& bit8(w.p, 1) == (w.alu == 0) && bit8(w.p, 7) == (w.alu >= 128)
            &&& other_flags_kept(v.p, w.p, set![0u8, 1u8, 7u8])
            &&& w.a == v.a && w.x == v.x && w.y == v.y
        }),
        ({
            let w = v.apply_rmw(Instruction::Ror, m);
            &&& w.alu == m / 2 + 128 * carry_in(v.p) && bit8(w.p, 0) == (m % 2 == 1)
            &&& bit8(w.p, 1) == (w.alu == 0) && bit8(w.p, 7) == (w.alu >= 128)
            &&& other_flags_kept(v.p, w.p, set![0u8, 1u8, 7u8])
            &&& w.a == v.a && w.x == v.x && w.y == v.y
        }),
{
    lemma_czn(v.p, m >= 128, crate::alu::asl_result(m));
    lemma_czn(v.p, m % 2 == 1, crate::alu::lsr_result(m));
    lemma_czn(v.p, m >= 128, crate::alu::rol_result(m, v.p));
    lemma_czn(v.p, m % 2 == 1, crate::alu::ror_result(m, v.p));
}

/// INC and DEC on memory: the ALU register gets the operand plus or minus one
/// modulo 256, Z and N describe it, the other flags and the registers stay.
pub proof fn lemma_rmw_step_laws(v: CpuView, m: u8)
    ensures
        ({
            let w = v.apply_rmw(Instruction::Inc, m);
            &&& w.alu == (m + 1) % 256
            &&& bit8(w.p, 1) == (w.alu == 0) && bit8(w.p, 7) == (w.alu >= 128)
            &&& other_flags_kept(v.p, w.p, set![1u8, 7u8])
            &&& w.a == v.a && w.x == v.x && w.y == v.y
        }),
        ({
            let w = v.apply_rmw(Instruction::Dec, m);
            &&& w.alu == (m + 255) % 256
            &&& bit8(w.p, 1) == (w.alu == 0) && bit8(w.p, 7) == (w.alu >= 128)
            &&& other_flags_kept(v.p, w.p, set![1u8, 7u8])
            &&& w.a == v.a && w.x == v.x && w.y == v.y
        }),
{
    lemma_zn(v.p, crate::cpu_model::inc8(m));
    lemma_zn(v.p, crate::cpu_model::dec8(m));
}

/// The shifts and rotations of the accumulator, as for memory but on `a`.
pub proof fn lemma_accumulator_shift_laws(v: CpuView)
    ensures
        ({
            let w = v.apply_implied(Instruction::Asl);
            &&& w.a == (2 * v.a) % 256 && bit8(w.p, 0) == (v.a >= 128)
            &&& bit8(w.p, 1) == (w.a == 0) && bit8(w.p, 7) == (w.a >= 128)
            &&& other_flags_kept(v.p, w.p, set![0u8, 1u8, 7u8])
            &&& w.x == v.x && w.y == v.y
        }),
        ({
            let w = v.apply_implied(Instruction::Lsr);
            &&& w.a == v.a / 2 && bit8(w.p, 0) == (v.a % 2 == 1)
            &&& bit8(w.p, 1) == (w.a == 0) && bit8(w.p, 7) == (w.a >= 128)
            &&& other_flags_kept(v.p, w.p, set![0u8, 1u8, 7u8])
            &&& w.x == v.x && w.y == v.y
        }),
        ({
            let w = v.apply_implied(Instruction::Rol);
            &&& w.a == (2 * v.a + carry_in(v.p)) % 256 && bit8(w.p, 0) == (v.a >= 128)
            &&& bit8(w.p, 1) == (w.a == 0) && bit8(w.p, 7) == (w.a >= 128)
            &&& other_flags_kept(v.p, w.p, set![0u8, 1u8, 7u8])
            &&& w.x == v.x && w.y == v.y
        }),
        ({
            let w = v.apply_implied(Instruction::Ror);
            &&& w.a == v.a / 2 + 128 * carry_in(v.p) && bit8(w.p, 0) == (v.a % 2 == 1)
            &&& bit8(w.p, 1) == (w.a == 0) && bit8(w.p, 7) == (w.a >= 128)
            &&& other_flags_kept(v.p, w.p, set![0u8, 1u8, 7u8])
            &&& w.x == v.x && w.y == v.y
        }),
{
    let a = v.a;
    lemma_czn(v.p, a >= 128, crate::alu::asl_result(a));
    lemma_czn(v.p, a % 2 == 1, crate::alu::lsr_result(a));
    lemma_czn(v.p, a >= 128, crate::alu::rol_result(a, v.p));
    lemma_czn(v.p, a % 2 == 1, crate::alu::ror_result(a, v.p));
}

/// INX, INY, DEX and DEY add or subtract one, modulo 256, to their own
/// register; Z and N describe the result; the other flags and registers stay.
pub proof fn lemma_index_step_laws(v: CpuView)
    ensures
        ({
            let w = v.apply_implied(Instruction::Inx);
            &&& w.x == (v.x + 1) % 256 && w.a == v.a && w.y == v.y && w.sp == v.sp
            &&& bit8(w.p, 1) == (w.x == 0) && bit8(w.p, 7) == (w.x >= 128)
            &&& other_flags_kept(v.p, w.p, set![1u8, 7u8])
        }),
        ({
            let w = v.apply_implied(Instruction::Iny);
            &&& w.y == (v.y + 1) % 256 && w.a == v.a && w.x == v.x && w.sp == v.sp
            &&& bit8(w.p, 1) == (w.y == 0) && bit8(w.p, 7) == (w.y >= 128)
            &&& other_flags_kept(v.p, w.p, set![1u8, 7u8])
        }),
        ({
            let w = v.apply_implied(Instruction::Dex);
            &&& w.x == (v.x + 255) % 256 && w.a == v.a && w.y == v.y && w.sp == v.sp
            &&& bit8(w.p, 1) == (w.x == 0) && bit8(w.p, 7) == (w.x >= 128)
            &&& other_flags_kept(v.p, w.p, set![1u8, 7u8])
        }),
        ({
            let w = v.apply_implied(Instruction::Dey);
            &&& w.y == (v.y + 255) % 256 && w.a == v.a && w.x == v.x && w.sp == v.sp
            &&& bit8(w.p, 1) == (w.y == 0) && bit8(w.p, 7) == (w.y >= 128)
            &&& other_flags_kept(v.p, w.p, set![1u8, 7u8])
        }),
{
    lemma_zn(v.p, crate::cpu_model::inc8(v.x));
    lemma_zn(v.p, crate::cpu_model::inc8(v.y));
    lemma_zn(v.p, crate::cpu_model::dec8(v.x));
    lemma_zn(v.p, crate::cpu_model::dec8(v.y));
}

/// The transfers copy one register into another (TAX, TAY, TXA, TYA, TSX,
/// TXS) and set Z and N from the value copied; the source and the other
/// registers and flags stay.
pub proof fn lemma_transfer_laws(v: CpuView)
    ensures
        ({
            let w = v.apply_implied(Instruction::Tax);
            &&& w.x == v.a && w.a == v.a && w.y == v.y && w.sp == v.sp
            &&& bit8(w.p, 1) == (v.a == 0) && bit8(w.p, 7) == (v.a >= 128)
            &&& other_flags_kept(v.p, w.p, set![1u8, 7u8])
        }),
        ({
            let w = v.apply_implied(Instruction::Tay);
            &&& w.y == v.a && w.a == v.a && w.x == v.x && w.sp == v.sp
            &&& bit8(w.p, 1) == (v.a == 0) && bit8(w.p, 7) == (v.a >= 128)
            &&& other_flags_kept(v.p, w.p, set![1u8, 7u8])
        }),
        ({
            let w = v.apply_implied(Instruction::Txa);
            &&& w.a == v.x && w.x == v.x && w.y == v.y && w.sp == v.sp
            &&& bit8(w.p, 1) == (v.x == 0) && bit8(w.p, 7) == (v.x >= 128)
            &&& other_flags_kept(v.p, w.p, set![1u8, 7u8])
        }),
        ({
            let w = v.apply_implied(Instruction::Tya);
            &&& w.a == v.y && w.x == v.x && w.y == v.y && w.sp == v.sp
            &&& bit8(w.p, 1) == (v.y == 0) && bit8(w.p, 7) == (v.y >= 128)
            &&& other_flags_kept(v.p, w.p, set![1u8, 7u8])
        }),
        ({
            let w = v.apply_implied(Instruction::Tsx);
            &&& w.x == v.sp && w.a == v.a && w.y == v.y && w.sp == v.sp
            &&& bit8(w.p, 1) == (v.sp == 0) && bit8(w.p, 7) == (v.sp >= 128)
            &&& other_flags_kept(v.p, w.p, set![1u8, 7u8])
        }),
        ({
            let w = v.apply_implied(Instruction::Txs);
            &&& w.sp == v.x && w.a == v.a && w.x == v.x && w.y == v.y
            &&& bit8(w.p, 1) == (v.x == 0) && bit8(w.p, 7) == (v.x >= 128)
            &&& other_flags_kept(v.p, w.p, set![1u8, 7u8])
        }),
{
    lemma_zn(v.p, v.a);
    lemma_zn(v.p, v.x);
    lemma_zn(v.p, v.y);
    lemma_zn(v.p, v.sp);
}

/// The flag instructions set or clear one flag and keep the others: CLC and
/// SEC the carry (bit 0), CLI and SEI interrupt disable (bit 2), CLD and SED
/// decimal (bit 3), CLV overflow (bit 6).
pub proof fn lemma_flag_instruction_laws(v: CpuView)
    ensures
        !bit8(v.apply_implied(Instruction::Clc).p, 0),
        other_flags_kept(v.p, v.apply_implied(Instruction::Clc).p, set![0u8]),
        bit8(v.apply_implied(Instruction::Sec).p, 0),
        other_flags_kept(v.p, v.apply_implied(Instruction::Sec).p, set![0u8]),
        !bit8(v.apply_implied(Instruction::Cli).p, 2),
        other_flags_kept(v.p, v.apply_implied(Instruction::Cli).p, set![2u8]),
        bit8(v.apply_implied(Instruction::Sei).p, 2),
        other_flags_kept(v.p, v.apply_implied(Instruction::Sei).p, set![2u8]),
        !bit8(v.apply_implied(Instruction::Cld).p, 3),
        other_flags_kept(v.p, v.apply_implied(Instruction::Cld).p, set![3u8]),
        bit8(v.apply_implied(Instruction::Sed).p, 3),
        other_flags_kept(v.p, v.apply_implied(Instruction::Sed).p, set![3u8]),
        !bit8(v.apply_implied(Instruction::Clv).p, 6),
        other_flags_kept(v.p, v.apply_implied(Instruction::Clv).p, set![6u8]),
{
    lemma_one_flag(v.p, 0, false);
    lemma_one_flag(v.p, 0, true);
    lemma_one_flag(v.p, 2, false);
    lemma_one_flag(v.p, 2, true);
    lemma_one_flag(v.p, 3, false);
    lemma_one_flag(v.p, 3, true);
    lemma_one_flag(v.p, 6, false);
}

proof fn lemma_one_flag(p: u8, bit: u8, on: bool)
    requires
        bit < 8,
    ensures
        bit8(with_bit8(p, bit, on), bit) == on,
        other_flags_kept(p, with_bit8(p, bit, on), set![bit]),
{
    lemma_with_bit8(p, bit, on, bit);
    assert forall|i: u8| i < 8 && !set![bit].contains(i) implies #[trigger] bit8(
        with_bit8(p, bit, on),
        i,
    ) == bit8(p, i) by {
        lemma_with_bit8(p, bit, on, i);
    }
}

/// Fetching an opcode reads the byte at the program counter into the
/// instruction register, decodes it, and moves the program counter on.
pub proof fn lemma_fetch_law(v: CpuView)
    ensures
        ({
            let w = v.step_in(State::ReadOpcode).0;
            &&& w.ir == v.at_pc() && w.instruction == decode(v.at_pc())
            &&& w.pc == inc16(v.pc)
            &&& w.a == v.a && w.x == v.x && w.y == v.y && w.p == v.p && w.sp == v.sp
        }),
{
}

/// The operand of an immediate instruction is the byte at the program
/// counter, which the step then passes; the operand of a read from memory is
/// the byte at the memory address register. Shown for the loads.
pub proof fn lemma_operand_laws(v: CpuView)
    ensures
        ({
            let w = v.step_in(State::Immediate).0;
            &&& w.pc == inc16(v.pc)
            &&& v.instruction == Instruction::Lda ==> w.a == v.at_pc()
            &&& v.instruction == Instruction::Ldx ==> w.x == v.at_pc()
            &&& v.instruction == Instruction::Ldy ==> w.y == v.at_pc()
        }),
        ({
            let w = v.step_in(State::ReadStart).0;
            &&& w.pc == v.pc
            &&& v.instruction == Instruction::Lda ==> w.a == v.at_mar()
            &&& v.instruction == Instruction::Ldx ==> w.x == v.at_mar()
            &&& v.instruction == Instruction::Ldy ==> w.y == v.at_mar()
        }),
{
}

/// STA, STX and STY write their own register to the memory address
/// register's address: a read there gives it back below $2000, and above
/// that RAM is left alone; no register changes.
pub proof fn lemma_store_laws(v: CpuView)
    requires
        v.ram.len() == 2048,
    ensures
        ({
            let w = v.step_in(State::WriteStart).0;
            &&& high_of(v.mar) < 0x20 && v.instruction == Instruction::Sta ==> w.at_mar() == v.a
            &&& high_of(v.mar) < 0x20 && v.instruction == Instruction::Stx ==> w.at_mar() == v.x
            &&& high_of(v.mar) < 0x20 && v.instruction == Instruction::Sty ==> w.at_mar() == v.y
            &&& high_of(v.mar) >= 0x20 ==> w.ram == v.ram
            &&& w.a == v.a && w.x == v.x && w.y == v.y && w.p == v.p && w.mar == v.mar
        }),
{
    let (low, high) = (low_of(v.mar), high_of(v.mar));
    let w = v.step_in(State::WriteStart).0;
    assert(w == v.written(low, high, v.store_value(v.instruction)));
    if high < 0x20 {
        lemma_ram_read_after_write(v, low, high, v.store_value(v.instruction), high);
    }
}

/// The last cycle of a read-modify-write instruction writes the ALU register
/// back to the address: a read there gives it back below $2000.
pub proof fn lemma_modify_commit_law(v: CpuView)
    requires
        v.ram.len() == 2048,
    ensures
        ({
            let w = v.step_in(State::ReadWriteCommit).0;
            &&& high_of(v.mar) < 0x20 ==> w.at_mar() == v.alu
            &&& high_of(v.mar) >= 0x20 ==> w.ram == v.ram
            &&& w.a == v.a && w.p == v.p && w.mar == v.mar
        }),
{
    let (low, high) = (low_of(v.mar), high_of(v.mar));
    assert(v.step_in(State::ReadWriteCommit).0 == v.written(low, high, v.alu));
    if high < 0x20 {
        lemma_ram_read_after_write(v, low, high, v.alu, high);
    }
}

/// The jumps: JMP absolute and JSR take the new program counter's low byte
/// from the memory address register and its high byte from the program;
/// JMP indirect takes the low byte from the data register and the high byte
/// from the pointer; BRK fetches the vector from $FFFE and $FFFF.
pub proof fn lemma_jump_laws(v: CpuView)
    ensures
        ({
            let w = v.step_in(State::JumpHighByte).0;
            low_of(w.pc) == low_of(v.mar) && high_of(w.pc) == v.at_pc()
        }),
        ({
            let w = v.step_in(State::FetchSubroutineHighByte).0;
            low_of(w.pc) == low_of(v.mar) && high_of(w.pc) == v.at_pc()
        }),
        ({
            let w = v.step_in(State::AbsoluteIndirectHighByteActual).0;
            low_of(w.pc) == v.mdr && high_of(w.pc) == v.at_mar()
        }),
        ({
            let w = v.step_in(State::FetchPCLowByte).0;
            low_of(w.pc) == v.bus(0xfe, 0xff) && high_of(w.pc) == high_of(v.pc)
        }),
        ({
            let w = v.step_in(State::FetchPCHighByte).0;
            low_of(w.pc) == low_of(v.pc) && high_of(w.pc) == v.bus(0xff, 0xff)
        }),
{
    lemma_join_split(low_of(v.mar), v.at_pc());
    lemma_join_split(v.mdr, v.at_mar());
    lemma_join_split(v.bus(0xfe, 0xff), high_of(v.pc));
    lemma_join_split(low_of(v.pc), v.bus(0xff, 0xff));
}

/// Zero-page indexing adds the index to the zero-page address and wraps
/// within the page: X for zero page,X and (zero page,X), Y for zero page,Y.
pub proof fn lemma_zero_page_index_laws(v: CpuView)
    ensures
        ({
            let w = v.step_in(State::ZeroPageIndexedX).0;
            low_of(w.mar) == (low_of(v.mar) + v.x) % 256 && high_of(w.mar) == high_of(v.mar)
        }),
        ({
            let w = v.step_in(State::IndexedIndirectStart).0;
            low_of(w.mar) == (low_of(v.mar) + v.x) % 256 && high_of(w.mar) == high_of(v.mar)
        }),
        ({
            let w = v.step_in(State::ZeroPageIndexedY).0;
            low_of(w.mar) == (low_of(v.mar) + v.y) % 256 && high_of(w.mar) == high_of(v.mar)
        }),
{
    lemma_join_split(((low_of(v.mar) + v.x) % 256) as u8, high_of(v.mar));
    lemma_join_split(((low_of(v.mar) + v.y) % 256) as u8, high_of(v.mar));
}

} // verus!
