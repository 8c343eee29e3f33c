use vstd::prelude::*;
use crate::register::{bit8, lemma_with_bit8, with_bit8};

verus! {

/// Status flag bits.
pub const CARRY: u8 = 0;
pub const ZERO: u8 = 1;
pub const INTERRUPT_DISABLE: u8 = 2;
pub const DECIMAL: u8 = 3;
pub const OVERFLOW: u8 = 6;
pub const NEGATIVE: u8 = 7;

/// Whether a byte is negative as a two's complement number.
pub open spec fn negative(v: u8) -> bool {
    v >= 128
}

/// A byte read as a two's complement number.
pub open spec fn signed_byte(v: u8) -> int {
    if v < 128 {
        v as int
    } else {
        v - 256
    }
}

/// The carry flag of `p` as 0 or 1.
pub open spec fn carry_of(p: u8) -> int {
    if bit8(p, CARRY) {
        1
    } else {
        0
    }
}

/// `p` with the zero and negative flags set from `r`.
pub open spec fn with_zn(p: u8, r: u8) -> u8 {
    with_bit8(with_bit8(p, ZERO, r == 0), NEGATIVE, negative(r))
}

/// `p` with carry, zero and negative set from a shift's carry out and result.
pub open spec fn with_czn(p: u8, carry: bool, r: u8) -> u8 {
    with_bit8(with_bit8(with_bit8(p, CARRY, carry), ZERO, r == 0), NEGATIVE, negative(r))
}

/// Signed overflow of `a + m = r`: both operands have one sign and the result the other.
pub open spec fn signed_overflow(a: u8, m: u8, r: u8) -> bool {
    negative(a) == negative(m) && negative(r) != negative(a)
}

/// `p` after an addition `a + m + carry = r` whose unsigned sum exceeded a byte iff `carry_out`.
pub open spec fn with_add_flags(p: u8, a: u8, m: u8, r: u8, carry_out: bool) -> u8 {
    with_bit8(
        with_bit8(with_bit8(with_bit8(p, CARRY, carry_out), ZERO, r == 0), OVERFLOW, signed_overflow(a, m, r)),
        NEGATIVE,
        negative(r),
    )
}

/// ADC: the accumulator after adding `m` and the carry.
pub open spec fn adc_result(a: u8, m: u8, p: u8) -> u8 {
    ((a + m + carry_of(p)) % 256) as u8
}

/// ADC: the status after adding `m` and the carry.
pub open spec fn adc_status(a: u8, m: u8, p: u8) -> u8 {
    with_add_flags(p, a, m, adc_result(a, m, p), a + m + carry_of(p) > 255)
}

/// SBC: the accumulator after adding the complement of `m` and the carry.
pub open spec fn sbc_result(a: u8, m: u8, p: u8) -> u8 {
    ((a + (255 - m) + carry_of(p)) % 256) as u8
}

/// SBC: the status. The carry flag is set iff nothing is borrowed, that is iff
/// `a - m - (1 - carry)` is not negative; the overflow flag as for adding the
/// complement of `m`.
pub open spec fn sbc_status(a: u8, m: u8, p: u8) -> u8 {
    with_add_flags(
        p,
        a,
        (255 - m) as u8,
        sbc_result(a, m, p),
        a - m - (1 - carry_of(p)) >= 0,
    )
}

/// CMP, CPX, CPY: the status after comparing `reg` with `m`.
pub open spec fn compare_status(p: u8, reg: u8, m: u8) -> u8 {
    with_bit8(
        with_bit8(with_bit8(p, CARRY, reg >= m), ZERO, reg == m),
        NEGATIVE,
        negative(((reg - m + 256) % 256) as u8),
    )
}

/// BIT: zero, overflow and negative all from `a & m` (zero when it is 0,
/// overflow and negative from its bits 6 and 7).
pub open spec fn bit_status(p: u8, a: u8, m: u8) -> u8 {
    with_bit8(
        with_bit8(with_bit8(p, ZERO, a & m == 0), OVERFLOW, ((a & m) / 64) % 2 == 1),
        NEGATIVE,
        negative(a & m),
    )
}

/// ASL: shift left, bit 7 to the carry.
pub open spec fn asl_result(m: u8) -> u8 {
    ((m * 2) % 256) as u8
}

/// LSR: shift right, bit 0 to the carry.
pub open spec fn lsr_result(m: u8) -> u8 {
    m / 2
}

/// ROL: shift left, the carry into bit 0.
pub open spec fn rol_result(m: u8, p: u8) -> u8 {
    ((m * 2 + carry_of(p)) % 256) as u8
}

/// ROR: shift right, the carry into bit 7.
pub open spec fn ror_result(m: u8, p: u8) -> u8 {
    (m / 2 + carry_of(p) * 128) as u8
}

/// Bit facts of a byte: bit 7 is its sign, bit 6 is its second digit in
/// base 64, and its complement is 255 minus it.
pub proof fn lemma_byte_facts(r: u8)
    ensures
        (r >> 7 == 1) == negative(r),
        ((r >> 6) & 1 == 1) == ((r / 64) % 2 == 1),
        !r == 255 - r,
{
    assert((r >> 7 == 1) == (r >= 128) && ((r >> 6) & 1 == 1) == ((r / 64) % 2 == 1) && !r == 255
        - r) by (bit_vector);
}

/// The overflow test on the result's sign bits is the signed overflow of the sum.
pub proof fn lemma_add_overflow(a: u8, m: u8, r: u8)
    ensures
        (((r ^ a) & (r ^ m)) >> 7 == 1) == signed_overflow(a, m, r),
{
    assert((((r ^ a) & (r ^ m)) >> 7 == 1) == ((a >= 128) == (m >= 128) && (r >= 128) != (a
        >= 128))) by (bit_vector);
}

/// The shift operators on a byte, and the bits they move into the carry.
pub proof fn lemma_shifts(m: u8, c: u8)
    requires
        c <= 1,
    ensures
        m << 1 == asl_result(m),
        m >> 1 == lsr_result(m),
        (m << 1 | c) == ((m * 2 + c) % 256) as u8,
        (m >> 1 | c << 7) == (m / 2 + c * 128) as u8,
        (m >> 7 == 1) == (m >= 128),
        (m & 1 == 1) == (m % 2 == 1),
{
    assert(m << 1 == ((m * 2) % 256) as u8 && m >> 1 == m / 2 && (m << 1 | c) == ((m * 2 + c)
        % 256) as u8 && (m >> 1 | c << 7) == (m / 2 + c * 128) as u8 && (m >> 7 == 1) == (m >= 128)
        && (m & 1 == 1) == (m % 2 == 1)) by (bit_vector)
        requires
            c <= 1,
    ;
}

/// After Z and N are set from a result, Z tells whether it is zero, N gives
/// its sign, and the other flags are kept.
pub proof fn lemma_zn_flags(p: u8, r: u8, other: u8)
    requires
        other < 8,
        other != ZERO,
        other != NEGATIVE,
    ensures
        bit8(with_zn(p, r), ZERO) == (r == 0),
        bit8(with_zn(p, r), NEGATIVE) == negative(r),
        bit8(with_zn(p, r), other) == bit8(p, other),
{
    lemma_with_bit8(with_bit8(p, ZERO, r == 0), NEGATIVE, negative(r), ZERO);
    lemma_with_bit8(p, ZERO, r == 0, ZERO);
    lemma_with_bit8(with_bit8(p, ZERO, r == 0), NEGATIVE, negative(r), NEGATIVE);
    lemma_with_bit8(with_bit8(p, ZERO, r == 0), NEGATIVE, negative(r), other);
    lemma_with_bit8(p, ZERO, r == 0, other);
}

/// ADC adds the operand and the carry: the carry flag and the result make
/// up the nine-bit sum; Z and N describe the result; V is set iff the sum of
/// the operands as signed numbers does not fit a signed byte.
pub proof fn lemma_adc(a: u8, m: u8, p: u8)
    ensures
        (if bit8(adc_status(a, m, p), CARRY) {
            256int
        } else {
            0
        }) + adc_result(a, m, p) == a + m + carry_of(p),
        bit8(adc_status(a, m, p), ZERO) == (adc_result(a, m, p) == 0),
        bit8(adc_status(a, m, p), NEGATIVE) == negative(adc_result(a, m, p)),
        bit8(adc_status(a, m, p), OVERFLOW) == !(-128 <= signed_byte(a) + signed_byte(m)
            + carry_of(p) <= 127),
{
    let r = adc_result(a, m, p);
    let s0 = with_bit8(p, CARRY, a + m + carry_of(p) > 255);
    let s1 = with_bit8(s0, ZERO, r == 0);
    let s2 = with_bit8(s1, OVERFLOW, signed_overflow(a, m, r));
    lemma_with_bit8(s2, NEGATIVE, negative(r), CARRY);
    lemma_with_bit8(s1, OVERFLOW, signed_overflow(a, m, r), CARRY);
    lemma_with_bit8(s0, ZERO, r == 0, CARRY);
    lemma_with_bit8(p, CARRY, a + m + carry_of(p) > 255, CARRY);
    lemma_with_bit8(s2, NEGATIVE, negative(r), ZERO);
    lemma_with_bit8(s1, OVERFLOW, signed_overflow(a, m, r), ZERO);
    lemma_with_bit8(s0, ZERO, r == 0, ZERO);
    lemma_with_bit8(s2, NEGATIVE, negative(r), OVERFLOW);
    lemma_with_bit8(s1, OVERFLOW, signed_overflow(a, m, r), OVERFLOW);
    lemma_with_bit8(s2, NEGATIVE, negative(r), NEGATIVE);
}

/// SBC is ADC of the operand's complement: it subtracts the operand and the
/// borrow (the complement of the carry) modulo 256, and sets the carry iff
/// nothing is borrowed.
pub proof fn lemma_sbc(a: u8, m: u8, p: u8)
    ensures
        sbc_result(a, m, p) == (a - m - (1 - carry_of(p)) + 256) % 256,
        sbc_result(a, m, p) == adc_result(a, (255 - m) as u8, p),
        sbc_status(a, m, p) == adc_status(a, (255 - m) as u8, p),
        bit8(sbc_status(a, m, p), CARRY) == (a - m - (1 - carry_of(p)) >= 0),
{
    lemma_adc(a, (255 - m) as u8, p);
}

/// A comparison sets the carry iff the register is at least the operand, Z
/// iff they are equal, and N from bit 7 of their difference.
pub proof fn lemma_compare(p: u8, reg: u8, m: u8)
    ensures
        bit8(compare_status(p, reg, m), CARRY) == (reg >= m),
        bit8(compare_status(p, reg, m), ZERO) == (reg == m),
        bit8(compare_status(p, reg, m), NEGATIVE) == negative(((reg - m + 256) % 256) as u8),
{
    let s0 = with_bit8(p, CARRY, reg >= m);
    let s1 = with_bit8(s0, ZERO, reg == m);
    let n = negative(((reg - m + 256) % 256) as u8);
    lemma_with_bit8(s1, NEGATIVE, n, CARRY);
    lemma_with_bit8(s0, ZERO, reg == m, CARRY);
    lemma_with_bit8(p, CARRY, reg >= m, CARRY);
    lemma_with_bit8(s1, NEGATIVE, n, ZERO);
    lemma_with_bit8(s0, ZERO, reg == m, ZERO);
    lemma_with_bit8(s1, NEGATIVE, n, NEGATIVE);
}

} // verus!
