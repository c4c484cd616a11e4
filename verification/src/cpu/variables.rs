use vstd::prelude::*;

verus! {

/// The CPU status flags, named after their 6502 mnemonic letters.
/// Bit 5 of the status word belongs to no flag: it always reads 1.
#[derive(Debug, Copy, Clone, PartialEq, Eq, Structural)]
pub enum Flag {
    N,
    V,
    B,
    D,
    I,
    Z,
    C,
}

impl Flag {
    /// The single-bit mask of this flag inside the status word.
    pub open spec fn spec_mask(self) -> u8 {
        match self {
            Flag::N => 0x80,
            Flag::V => 0x40,
            Flag::B => 0x10,
            Flag::D => 0x08,
            Flag::I => 0x04,
            Flag::Z => 0x02,
            Flag::C => 0x01,
        }
    }

    pub fn mask(self) -> (m: u8)
        ensures
            m == self.spec_mask(),
    {
        match self {
            Flag::N => 0x80,
            Flag::V => 0x40,
            Flag::B => 0x10,
            Flag::D => 0x08,
            Flag::I => 0x04,
            Flag::Z => 0x02,
            Flag::C => 0x01,
        }
    }
}

/// No flag owns bit 5 of the status word, so no flag assignment can clear it.
pub proof fn lemma_flag_mask_avoids_bit5(f: Flag)
    ensures
        f.spec_mask() & 0x20 == 0,
{
    let m = f.spec_mask();
    assert((m == 0x80 || m == 0x40 || m == 0x10 || m == 0x08 || m == 0x04 || m == 0x02 || m
        == 0x01) ==> m & 0x20 == 0) by (bit_vector);
}

/// The three general-purpose registers a load instruction can target.
#[derive(Debug, Copy, Clone, PartialEq, Eq, Structural)]
pub enum Register {
    A,
    X,
    Y,
}

} // verus!
