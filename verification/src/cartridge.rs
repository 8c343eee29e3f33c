use vstd::prelude::*;
use crate::ppu::Mirroring;

verus! {

/// The 16-bit address `high:low` as an integer.
pub open spec fn address_of(low: u8, high: u8) -> int {
    high as int * 256 + low as int
}

/// A game cartridge: 8 KiB of program RAM at $6000-$7FFF, 32 KiB of program
/// ROM at $8000-$FFFF (CPU side), 8 KiB of character ROM at $0000-$1FFF (PPU
/// side), and the nametable mirroring it wires.
pub struct Cartridge {
    program_ram: [u8; 8192],
    program_rom: [u8; 32768],
    character_rom: [u8; 8192],
    mirroring: Mirroring,
}

impl Cartridge {
    pub closed spec fn program_ram(&self) -> Seq<u8> {
        self.program_ram@
    }

    pub closed spec fn program_rom(&self) -> Seq<u8> {
        self.program_rom@
    }

    pub closed spec fn character_rom(&self) -> Seq<u8> {
        self.character_rom@
    }

    pub closed spec fn mirroring(&self) -> Mirroring {
        self.mirroring
    }

    /// The byte that a CPU read of `high:low`, at or above $6000, gives:
    /// program RAM below $8000, program ROM from there on.
    pub open spec fn cpu_byte(&self, low: u8, high: u8) -> u8 {
        let a = address_of(low, high);
        if a < 0x8000 {
            self.program_ram()[a - 0x6000]
        } else {
            self.program_rom()[a - 0x8000]
        }
    }

    /// A cartridge with the given ROM contents and zeroed program RAM.
    pub fn new(program_rom: [u8; 32768], character_rom: [u8; 8192], mirroring: Mirroring) -> (r:
        Cartridge)
        ensures
            r.program_rom() == program_rom@,
            r.character_rom() == character_rom@,
            r.mirroring() == mirroring,
            r.program_ram() == Seq::new(8192, |i: int| 0u8),
    {
        let r = Cartridge { program_ram: [0u8; 8192], program_rom, character_rom, mirroring };
        assert(r.program_ram() =~= Seq::new(8192, |i: int| 0u8));
        r
    }

    pub fn read_cpu_mapped(&self, low_byte: u8, high_byte: u8) -> (r: u8)
        requires
            address_of(low_byte, high_byte) >= 0x6000,
        ensures
            self.program_ram().len() == 8192,
            self.program_rom().len() == 32768,
            r == self.cpu_byte(low_byte, high_byte),
    {
        proof {
            lemma_shift_byte(high_byte);
        }
        let address = ((high_byte as usize) << 8) + (low_byte as usize);
        if address < 0x8000 {
            self.program_ram[address - 0x6000]
        } else {
            self.program_rom[address - 0x8000]
        }
    }

    pub fn write_cpu_mapped(&mut self, low_byte: u8, high_byte: u8, value: u8)
        requires
            address_of(low_byte, high_byte) >= 0x6000,
        ensures
            final(self).program_ram() == if address_of(low_byte, high_byte) < 0x8000 {
                old(self).program_ram().update(address_of(low_byte, high_byte) - 0x6000, value)
            } else {
                old(self).program_ram()
            },
            final(self).program_rom() == old(self).program_rom(),
            final(self).character_rom() == old(self).character_rom(),
            final(self).mirroring() == old(self).mirroring(),
    {
        proof {
            lemma_shift_byte(high_byte);
        }
        let address = ((high_byte as usize) << 8) + (low_byte as usize);
        if address < 0x8000 {
            self.program_ram[address - 0x6000] = value;
        }
    }

    pub fn read_ppu_mapped(&self, low_byte: u8, high_byte: u8) -> (r: u8)
        requires
            address_of(low_byte, high_byte) < 0x2000,
        ensures
            self.character_rom().len() == 8192,
            r == self.character_rom()[address_of(low_byte, high_byte)],
    {
        proof {
            lemma_shift_byte(high_byte);
        }
        let address = ((high_byte as usize) << 8) + (low_byte as usize);
        self.character_rom[address]
    }

    pub fn get_mirroring(&self) -> (r: Mirroring)
        ensures
            r == self.mirroring(),
    {
        self.mirroring
    }
}

impl Cartridge {
    /// A cartridge's memories have their fixed sizes.
    pub proof fn lemma_sizes(&self)
        ensures
            self.program_ram().len() == 8192,
            self.program_rom().len() == 32768,
            self.character_rom().len() == 8192,
    {
    }
}

/// A CPU write to the cartridge, then a CPU read: the read of the address
/// written gives the byte written where that address is program RAM
/// ($6000-$7FFF); every other read, and every read of program ROM, gives what
/// it gave before the write.
pub proof fn lemma_cpu_write_then_read(
    before: Cartridge,
    after: Cartridge,
    low: u8,
    high: u8,
    value: u8,
    read_low: u8,
    read_high: u8,
)
    requires
        address_of(low, high) >= 0x6000,
        address_of(read_low, read_high) >= 0x6000,
        after.program_ram() == if address_of(low, high) < 0x8000 {
            before.program_ram().update(address_of(low, high) - 0x6000, value)
        } else {
            before.program_ram()
        },
        after.program_rom() == before.program_rom(),
    ensures
        after.cpu_byte(read_low, read_high) == if address_of(read_low, read_high) == address_of(
            low,
            high,
        ) && address_of(low, high) < 0x8000 {
            value
        } else {
            before.cpu_byte(read_low, read_high)
        },
{
    before.lemma_sizes();
}

/// Shifting a byte left by 8 multiplies it by 256.
pub proof fn lemma_shift_byte(high: u8)
    ensures
        ((high as usize) << 8) == high as usize * 256,
{
    assert(((high as usize) << 8) == high as usize * 256) by (bit_vector);
}

} // verus!
