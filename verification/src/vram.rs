use vstd::prelude::*;

verus! {

/// Object attribute memory: 256 bytes of sprite data, which reads as 0xff
/// while it is unreadable.
pub struct Oam {
    values: [u8; 256],
    readable: bool,
}

/// The 32 bytes that hold the sprites found for the next scanline.
pub struct SecondaryOam {
    values: [u8; 32],
}

/// The 32 bytes of palette memory, mirrored through every address.
pub struct PaletteRam {
    values: [u8; 32],
}

impl Oam {
    /// The 256 bytes held.
    pub closed spec fn contents(&self) -> Seq<u8> {
        self.values@
    }

    /// Whether reads see the contents.
    pub closed spec fn is_readable(&self) -> bool {
        self.readable
    }

    /// What a read of `address` gives: the stored byte while OAM is readable,
    /// 0xff while it is not.
    pub open spec fn read_value(&self, address: u8) -> u8 {
        if self.is_readable() {
            self.contents()[address as int]
        } else {
            0xffu8
        }
    }

    pub fn new() -> (r: Oam)
        ensures
            r.contents() == Seq::new(256, |i: int| 0u8),
            r.is_readable(),
    {
        let r = Oam { values: [0u8; 256], readable: true };
        assert(r.contents() =~= Seq::new(256, |i: int| 0u8));
        r
    }

    pub fn read(&self, address: u8) -> (r: u8)
        ensures
            self.contents().len() == 256,
            r == self.read_value(address),
    {
        if self.readable {
            self.values[address as usize]
        } else {
            0xff
        }
    }

    pub fn write(&mut self, address: u8, value: u8)
        ensures
            final(self).contents() == old(self).contents().update(address as int, value),
            final(self).is_readable() == old(self).is_readable(),
    {
        self.values[address as usize] = value;
    }

    pub fn make_readable(&mut self)
        ensures
            final(self).contents() == old(self).contents(),
            final(self).is_readable(),
    {
        self.readable = true;
    }

    pub fn make_unreadable(&mut self)
        ensures
            final(self).contents() == old(self).contents(),
            !final(self).is_readable(),
    {
        self.readable = false;
    }
}

impl Oam {
    /// OAM always holds 256 bytes.
    pub proof fn lemma_size(&self)
        ensures
            self.contents().len() == 256,
    {
    }
}

/// A byte written to OAM is what a later read of that address gives while OAM
/// is readable, and 0xff while it is not; the write changes no read of another
/// address.
pub proof fn lemma_oam_read_after_write(before: Oam, after: Oam, address: u8, value: u8, other: u8)
    requires
        after.contents() == before.contents().update(address as int, value),
        after.is_readable() == before.is_readable(),
    ensures
        after.read_value(address) == if after.is_readable() {
            value
        } else {
            0xffu8
        },
        other != address ==> after.read_value(other) == before.read_value(other),
{
    before.lemma_size();
}

/// Making OAM unreadable hides every byte behind 0xff, and making it readable
/// again gives back what it held before: readability never alters the bytes.
pub proof fn lemma_oam_readability_round_trip(before: Oam, hidden: Oam, shown: Oam, address: u8)
    requires
        before.is_readable(),
        hidden.contents() == before.contents(),
        !hidden.is_readable(),
        shown.contents() == hidden.contents(),
        shown.is_readable(),
    ensures
        hidden.read_value(address) == 0xffu8,
        shown.read_value(address) == before.read_value(address),
{
}

impl View for SecondaryOam {
    type V = Seq<u8>;

    closed spec fn view(&self) -> Seq<u8> {
        self.values@
    }
}

impl SecondaryOam {
    pub fn new() -> (r: SecondaryOam)
        ensures
            r@ == Seq::new(32, |i: int| 0u8),
    {
        let r = SecondaryOam { values: [0u8; 32] };
        assert(r@ =~= Seq::new(32, |i: int| 0u8));
        r
    }

    pub fn read(&self, address: u8) -> (r: u8)
        requires
            address < 32,
        ensures
            self@.len() == 32,
            r == self@[address as int],
    {
        self.values[address as usize]
    }

    pub fn write(&mut self, address: u8, value: u8)
        requires
            address < 32,
        ensures
            final(self)@ == old(self)@.update(address as int, value),
    {
        self.values[address as usize] = value;
    }
}

/// The palette cell that `address` reaches: palette memory repeats every 32 bytes.
pub open spec fn palette_index(address: u8) -> int {
    address as int % 32
}

/// Keeping the low five bits of an address gives its palette cell.
proof fn lemma_palette_mask(address: u8)
    ensures
        ((address as usize) & 0x1f) as int == palette_index(address),
{
    assert(((address as usize) & 0x1f) as int == address as int % 32) by (bit_vector);
}

impl View for PaletteRam {
    type V = Seq<u8>;

    closed spec fn view(&self) -> Seq<u8> {
        self.values@
    }
}

impl PaletteRam {
    pub fn new() -> (r: PaletteRam)
        ensures
            r@ == Seq::new(32, |i: int| 0u8),
    {
        let r = PaletteRam { values: [0u8; 32] };
        assert(r@ =~= Seq::new(32, |i: int| 0u8));
        r
    }

    pub fn read(&self, address: u8) -> (r: u8)
        ensures
            self@.len() == 32,
            r == self@[palette_index(address)],
    {
        let i = (address as usize) & 0x1f;
        proof {
            lemma_palette_mask(address);
        }
        self.values[i]
    }

    pub fn write(&mut self, address: u8, value: u8)
        ensures
            final(self)@ == old(self)@.update(palette_index(address), value),
    {
        let i = (address as usize) & 0x1f;
        proof {
            lemma_palette_mask(address);
        }
        self.values[i] = value;
    }
}

} // verus!
