use vstd::prelude::*;

verus! {

/// Number of bytes of internal RAM.
pub const RAM_SIZE: usize = 2048;

/// The cell of a 2 KiB RAM that the address `high:low` reaches: the RAM is
/// mirrored through the whole address space, so the address is taken modulo 0x800.
pub open spec fn ram_index(low: u8, high: u8) -> int {
    (high as int * 256 + low as int) % 2048
}

/// 2 KiB of RAM, mirrored every 0x800 bytes.
pub struct Ram {
    values: [u8; 2048],
}

/// Packing the address bytes and keeping 11 bits gives the RAM cell.
proof fn lemma_packed_address(low_byte: u8, high_byte: u8)
    ensures
        (((low_byte as usize) | ((high_byte as usize) << 8)) & 0x7ff) as int == ram_index(
            low_byte,
            high_byte,
        ),
{
    assert((((low_byte as usize) | ((high_byte as usize) << 8)) & 0x7ff) as int == (high_byte as int
        * 256 + low_byte as int) % 2048) by (bit_vector);
}

impl View for Ram {
    type V = Seq<u8>;

    closed spec fn view(&self) -> Seq<u8> {
        self.values@
    }
}

impl Ram {
    pub fn new() -> (r: Ram)
        ensures
            r@ == Seq::new(2048, |i: int| 0u8),
    {
        let r = Ram { values: [0u8; 2048] };
        assert(r@ =~= Seq::new(2048, |i: int| 0u8));
        r
    }

    /// Every RAM has 2048 cells.
    pub proof fn lemma_len(&self)
        ensures
            self@.len() == 2048,
    {
    }

    pub fn read(&self, low_byte: u8, high_byte: u8) -> (r: u8)
        ensures
            self@.len() == 2048,
            r == self@[ram_index(low_byte, high_byte)],
    {
        let mut addr: usize = low_byte as usize;
        addr |= (high_byte as usize) << 8;  // pack low and high bytes together
        addr &= 0x7ff;  // ensure correct mirroring
        proof {
            lemma_packed_address(low_byte, high_byte);
        }
        self.values[addr]
    }

    pub fn write(&mut self, low_byte: u8, high_byte: u8, value: u8)
        ensures
            final(self)@ == old(self)@.update(ram_index(low_byte, high_byte), value),
    {
        let mut addr: usize = low_byte as usize;
        addr |= (high_byte as usize) << 8;  // pack low and high bytes together
        addr &= 0x7ff;  // ensure correct mirroring
        proof {
            lemma_packed_address(low_byte, high_byte);
        }
        self.values[addr] = value;
    }
}

/// Every address reaches one of the 2048 cells, and addresses 0x800 apart
/// reach the same cell.
pub proof fn lemma_ram_mirroring(low: u8, high: u8)
    ensures
        0 <= ram_index(low, high) < 2048,
        ram_index(low, high) == ram_index(low, ((high + 8) % 256) as u8),
        ram_index(low, high) == ram_index(low, high % 8),
{
}

/// A read gives back the last value written to the same cell (any mirror of
/// the written address), and a write leaves every other cell as it was.
pub proof fn lemma_ram_read_after_write(
    ram: Seq<u8>,
    low: u8,
    high: u8,
    value: u8,
    read_low: u8,
    read_high: u8,
)
    requires
        ram.len() == 2048,
    ensures
        ram.update(ram_index(low, high), value)[ram_index(read_low, read_high)] == if ram_index(
            low,
            high,
        ) == ram_index(read_low, read_high) {
            value
        } else {
            ram[ram_index(read_low, read_high)]
        },
{
}

} // verus!
