use vstd::prelude::*;

verus! {

/// Bit `bit` of an 8-bit value.
pub open spec fn bit8(value: u8, bit: u8) -> bool {
    (value >> bit) & 1 == 1
}

/// Bit `bit` of a 16-bit value.
pub open spec fn bit16(value: u16, bit: u8) -> bool {
    (value >> bit) & 1 == 1
}

/// `value` with bit `bit` set to `on` and every other bit kept.
pub open spec fn with_bit8(value: u8, bit: u8, on: bool) -> u8 {
    if on {
        value | (1u8 << bit)
    } else {
        value & !(1u8 << bit)
    }
}

/// `value` with bit `bit` set to `on` and every other bit kept.
pub open spec fn with_bit16(value: u16, bit: u8, on: bool) -> u16 {
    if on {
        value | (1u16 << bit)
    } else {
        value & !(1u16 << bit)
    }
}

/// The low byte of a 16-bit value.
pub open spec fn low_of(value: u16) -> u8 {
    (value % 256) as u8
}

/// The high byte of a 16-bit value.
pub open spec fn high_of(value: u16) -> u8 {
    (value / 256) as u8
}

/// The 16-bit value made of a low and a high byte.
pub open spec fn join_bytes(low: u8, high: u8) -> u16 {
    (high as int * 256 + low as int) as u16
}

/// An 8-bit register.
pub struct Register8 {
    value: u8,
}

/// A 16-bit register, addressable as a whole or as a low and a high byte.
pub struct Register16 {
    value: u16,
}

impl View for Register8 {
    type V = u8;

    closed spec fn view(&self) -> u8 {
        self.value
    }
}

impl View for Register16 {
    type V = u16;

    closed spec fn view(&self) -> u16 {
        self.value
    }
}

impl Register8 {
    pub fn new() -> (r: Register8)
        ensures
            r@ == 0,
    {
        Register8 { value: 0 }
    }

    pub fn read(&self) -> (r: u8)
        ensures
            r == self@,
    {
        self.value
    }

    pub fn read_bit(&self, bit: u8) -> (r: bool)
        requires
            bit < 8,
        ensures
            r == bit8(self@, bit),
    {
        (self.value >> bit) & 1 == 1
    }

    pub fn write(&mut self, value: u8)
        ensures
            final(self)@ == value,
    {
        self.value = value;
    }

    pub fn write_bit(&mut self, bit: u8, value: bool)
        requires
            bit < 8,
        ensures
            final(self)@ == with_bit8(old(self)@, bit, value),
    {
        self.unset_bit(bit);
        let v = self.value;
        self.value = v | (value as u8) << bit;
        proof {
            let o = old(self)@;
            if value {
                assert((o & !(1u8 << bit)) | (1u8 << bit) == o | (1u8 << bit)) by (bit_vector)
                    requires
                        bit < 8,
                ;
            } else {
                assert(v | (0u8 << bit) == v) by (bit_vector);
            }
        }
    }

    pub fn set_bit(&mut self, bit: u8)
        requires
            bit < 8,
        ensures
            final(self)@ == with_bit8(old(self)@, bit, true),
    {
        self.value = self.value | 1 << bit;
    }

    pub fn unset_bit(&mut self, bit: u8)
        requires
            bit < 8,
        ensures
            final(self)@ == with_bit8(old(self)@, bit, false),
    {
        self.value = self.value & !(1 << bit);
    }

    pub fn increment(&mut self)
        ensures
            final(self)@ == (old(self)@ + 1) % 256,
    {
        self.value = self.value.wrapping_add(1);
    }

    pub fn decrement(&mut self)
        ensures
            final(self)@ == (old(self)@ + 255) % 256,
    {
        self.value = self.value.wrapping_sub(1);
    }
}

impl Register16 {
    pub fn new() -> (r: Register16)
        ensures
            r@ == 0,
    {
        Register16 { value: 0 }
    }

    pub fn read(&self) -> (r: u16)
        ensures
            r == self@,
    {
        self.value
    }

    /// Reads bit `bit`, counting the bits of this register from 1.
    pub fn read_bit(&self, bit: u8) -> (r: bool)
        requires
            1 <= bit <= 16,
        ensures
            r == bit16(self@, (bit - 1) as u8),
    {
        (self.value >> (bit - 1)) & 1 == 1
    }

    pub fn read_low(&self) -> (r: u8)
        ensures
            r == low_of(self@),
    {
        let v = self.value;
        assert(v as u8 == (v % 256) as u8) by (bit_vector);
        v as u8
    }

    pub fn read_high(&self) -> (r: u8)
        ensures
            r == high_of(self@),
    {
        let v = self.value;
        assert((v >> 8) as u8 == (v / 256) as u8) by (bit_vector);
        (v >> 8) as u8
    }

    pub fn write(&mut self, value: u16)
        ensures
            final(self)@ == value,
    {
        self.value = value;
    }

    pub fn write_low(&mut self, value: u8)
        ensures
            final(self)@ == join_bytes(value, high_of(old(self)@)),
    {
        let v = self.value;
        assert(v & 0xff00 | (value as u16) == (((v / 256) as u8) as int * 256 + value as int) as u16)
            by (bit_vector);
        self.value = v & 0xff00 | (value as u16);
    }

    pub fn write_high(&mut self, value: u8)
        ensures
            final(self)@ == join_bytes(low_of(old(self)@), value),
    {
        let v = self.value;
        assert(v & 0xff | (value as u16) << 8 == (value as int * 256 + ((v % 256) as u8) as int) as u16)
            by (bit_vector);
        self.value = v & 0xff | (value as u16) << 8;
    }

    /// Writes bit `bit`, counting the bits of this register from 1; the
    /// register then holds that bit alone.
    pub fn write_bit(&mut self, bit: u8, value: bool)
        requires
            1 <= bit <= 16,
        ensures
            final(self)@ == (if value {
                1u16 << ((bit - 1) as u8)
            } else {
                0u16
            }),
    {
        self.value = (value as u16) << (bit - 1);
        proof {
            if !value {
                assert(0u16 << ((bit - 1) as u8) == 0) by (bit_vector);
            }
        }
    }

    pub fn set_bit(&mut self, bit: u8)
        requires
            bit < 16,
        ensures
            final(self)@ == with_bit16(old(self)@, bit, true),
    {
        self.value = self.value | 1 << bit;
    }

    pub fn unset_bit(&mut self, bit: u8)
        requires
            bit < 16,
        ensures
            final(self)@ == with_bit16(old(self)@, bit, false),
    {
        self.value = self.value & !(1 << bit);
    }

    pub fn increment(&mut self)
        ensures
            final(self)@ == (old(self)@ + 1) % 65536,
    {
        self.value = self.value.wrapping_add(1);
    }

    pub fn increment_low(&mut self)
        ensures
            final(self)@ == join_bytes(
                ((low_of(old(self)@) + 1) % 256) as u8,
                high_of(old(self)@),
            ),
    {
        let v = self.value;
        let w = v.wrapping_add(1);
        assert((v & 0xff00) + (w & 0x00ff) == ((((v % 256) as u8 + 1) % 256) as u8 as int + ((
        v / 256) as u8) as int * 256) as u16) by (bit_vector)
            requires
                w == (if v == 0xffff { 0 } else { v + 1 }),
        ;
        self.value = (v & 0xff00) + (w & 0x00ff);
    }

    pub fn increment_high(&mut self)
        ensures
            final(self)@ == join_bytes(
                low_of(old(self)@),
                ((high_of(old(self)@) + 1) % 256) as u8,
            ),
    {
        let v = self.value;
        assert(v.wrapping_add(0x0100) == ((v % 256) as u8 as int + ((((v / 256) as u8 + 1) % 256)
            as u8) as int * 256) as u16) by (bit_vector);
        self.value = v.wrapping_add(0x0100);
    }
}

/// Splitting a joined value gives back its bytes.
pub broadcast proof fn lemma_join_split(low: u8, high: u8)
    ensures
        #[trigger] low_of(join_bytes(low, high)) == low,
        high_of(join_bytes(low, high)) == high,
{
    assert(((high as int * 256 + low as int) as u16 % 256) as u8 == low && ((high as int * 256
        + low as int) as u16 / 256) as u8 == high) by (bit_vector);
}

/// Joining the bytes of a value gives back the value.
pub broadcast proof fn lemma_split_join(value: u16)
    ensures
        #[trigger] join_bytes(low_of(value), high_of(value)) == value,
{
    assert((((value / 256) as u8) as int * 256 + ((value % 256) as u8) as int) as u16 == value)
        by (bit_vector);
}

pub broadcast group group_bytes {
    lemma_join_split,
    lemma_split_join,
}

/// Setting or clearing one bit of a byte: that bit reads back as written and
/// every other bit keeps its value.
pub proof fn lemma_with_bit8(value: u8, bit: u8, on: bool, other: u8)
    requires
        bit < 8,
        other < 8,
    ensures
        bit8(with_bit8(value, bit, on), other) == if other == bit {
            on
        } else {
            bit8(value, other)
        },
{
    if on {
        assert(((value | (1u8 << bit)) >> other) & 1 == 1 <==> (other == bit || (value >> other) & 1
            == 1)) by (bit_vector)
            requires
                bit < 8,
                other < 8,
        ;
    } else {
        assert(((value & !(1u8 << bit)) >> other) & 1 == 1 <==> (other != bit && (value >> other) & 1
            == 1)) by (bit_vector)
            requires
                bit < 8,
                other < 8,
        ;
    }
}

/// Setting or clearing one bit of a 16-bit value: that bit reads back as
/// written and every other bit keeps its value.
pub proof fn lemma_with_bit16(value: u16, bit: u8, on: bool, other: u8)
    requires
        bit < 16,
        other < 16,
    ensures
        bit16(with_bit16(value, bit, on), other) == if other == bit {
            on
        } else {
            bit16(value, other)
        },
{
    if on {
        assert(((value | (1u16 << bit)) >> other) & 1 == 1 <==> (other == bit || (value >> other)
            & 1 == 1)) by (bit_vector)
            requires
                bit < 16,
                other < 16,
        ;
    } else {
        assert(((value & !(1u16 << bit)) >> other) & 1 == 1 <==> (other != bit && (value >> other)
            & 1 == 1)) by (bit_vector)
            requires
                bit < 16,
                other < 16,
        ;
    }
}

/// Writing a bit of a 16-bit register reads back through `read_bit` with the
/// same bit number.
pub proof fn lemma_register16_bit_round_trip(bit: u8, on: bool)
    requires
        1 <= bit <= 16,
    ensures
        bit16(
            if on {
                1u16 << ((bit - 1) as u8)
            } else {
                0u16
            },
            (bit - 1) as u8,
        ) == on,
{
    let b = (bit - 1) as u8;
    assert(b < 16 ==> ((1u16 << b) >> b) & 1 == 1 && ((0u16 >> b) & 1 == 1) == false)
        by (bit_vector);
}

/// A 16-bit value is its high byte times 256 plus its low byte.
pub proof fn lemma_bytes_value(value: u16)
    ensures
        value == high_of(value) as int * 256 + low_of(value) as int,
        low_of(value) < 256,
{
}

} // verus!
