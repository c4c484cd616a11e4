use vstd::prelude::*;

verus! {

/// Bit-level read / modify / write operations on the unsigned words the
/// machine uses (8- and 16-bit). Each executable method is pinned to the
/// spec-level function of the same name.
pub trait BitOps: Sized {
    /// Number of bits in the word.
    spec fn spec_width() -> usize;

    spec fn spec_is_bit_set(&self, val: usize) -> bool;

    spec fn spec_set_bit(&self, val: usize) -> Self;

    spec fn spec_clear_bit(&self, val: usize) -> Self;

    spec fn spec_assign_bit(&self, bit: usize, val: bool) -> Self;

    spec fn spec_replace_bits(&self, mask: Self, new_bits: Self) -> Self;

    fn is_bit_set(&self, val: usize) -> (r: bool)
        requires
            val < Self::spec_width(),
        ensures
            r == self.spec_is_bit_set(val),
    ;

    fn set_bit(&mut self, val: usize)
        requires
            val < Self::spec_width(),
        ensures
            *final(self) == old(self).spec_set_bit(val),
    ;

    fn clear_bit(&mut self, val: usize)
        requires
            val < Self::spec_width(),
        ensures
            *final(self) == old(self).spec_clear_bit(val),
    ;

    fn assign_bit(&mut self, bit: usize, val: bool)
        requires
            bit < Self::spec_width(),
        ensures
            *final(self) == old(self).spec_assign_bit(bit, val),
    ;

    fn replace_bits(&self, mask: Self, new_bits: Self) -> (r: Self)
        ensures
            r == self.spec_replace_bits(mask, new_bits),
    ;
}

impl BitOps for u8 {
    open spec fn spec_width() -> usize {
        8
    }

    open spec fn spec_is_bit_set(&self, val: usize) -> bool {
        *self & (1u8 << val) != 0
    }

    open spec fn spec_set_bit(&self, val: usize) -> u8 {
        *self | (1u8 << val)
    }

    open spec fn spec_clear_bit(&self, val: usize) -> u8 {
        *self & !(1u8 << val)
    }

    open spec fn spec_assign_bit(&self, bit: usize, val: bool) -> u8 {
        if val {
            self.spec_set_bit(bit)
        } else {
            self.spec_clear_bit(bit)
        }
    }

    open spec fn spec_replace_bits(&self, mask: u8, new_bits: u8) -> u8 {
        (*self & !mask) | (mask & new_bits)
    }

    #[inline]
    fn is_bit_set(&self, val: usize) -> (r: bool) {
        (*self & (1u8 << val)) != 0
    }

    #[inline]
    fn set_bit(&mut self, val: usize) {
        *self = *self | (1u8 << val);
    }

    #[inline]
    fn clear_bit(&mut self, val: usize) {
        *self = *self & !(1u8 << val);
    }

    #[inline]
    fn assign_bit(&mut self, bit: usize, val: bool) {
        if val {
            self.set_bit(bit);
        } else {
            self.clear_bit(bit);
        }
    }

    #[inline]
    fn replace_bits(&self, mask: u8, new_bits: u8) -> (r: u8) {
        (*self & !mask) | (mask & new_bits)
    }
}

impl BitOps for u16 {
    open spec fn spec_width() -> usize {
        16
    }

    open spec fn spec_is_bit_set(&self, val: usize) -> bool {
        *self & (1u16 << val) != 0
    }

    open spec fn spec_set_bit(&self, val: usize) -> u16 {
        *self | (1u16 << val)
    }

    open spec fn spec_clear_bit(&self, val: usize) -> u16 {
        *self & !(1u16 << val)
    }

    open spec fn spec_assign_bit(&self, bit: usize, val: bool) -> u16 {
        if val {
            self.spec_set_bit(bit)
        } else {
            self.spec_clear_bit(bit)
        }
    }

    open spec fn spec_replace_bits(&self, mask: u16, new_bits: u16) -> u16 {
        (*self & !mask) | (mask & new_bits)
    }

    #[inline]
    fn is_bit_set(&self, val: usize) -> (r: bool) {
        (*self & (1u16 << val)) != 0
    }

    #[inline]
    fn set_bit(&mut self, val: usize) {
        *self = *self | (1u16 << val);
    }

    #[inline]
    fn clear_bit(&mut self, val: usize) {
        *self = *self & !(1u16 << val);
    }

    #[inline]
    fn assign_bit(&mut self, bit: usize, val: bool) {
        if val {
            self.set_bit(bit);
        } else {
            self.clear_bit(bit);
        }
    }

    #[inline]
    fn replace_bits(&self, mask: u16, new_bits: u16) -> (r: u16) {
        (*self & !mask) | (mask & new_bits)
    }
}

/// Setting a bit right after clearing it gives the same word as setting it
/// directly: the cleared-then-set word and the set word agree everywhere.
pub proof fn lemma_set_clear_set_u8(b: u8, i: usize)
    requires
        i < 8,
    ensures
        b.spec_clear_bit(i).spec_set_bit(i) == b.spec_set_bit(i),
{
    assert((b & !(1u8 << i)) | (1u8 << i) == b | (1u8 << i)) by (bit_vector);
}

/// Setting a bit right after clearing it gives the same word as setting it
/// directly, on 16-bit words.
pub proof fn lemma_set_clear_set_u16(b: u16, i: usize)
    requires
        i < 16,
    ensures
        b.spec_clear_bit(i).spec_set_bit(i) == b.spec_set_bit(i),
{
    assert((b & !(1u16 << i)) | (1u16 << i) == b | (1u16 << i)) by (bit_vector);
}

/// Replacing the bits under a mask leaves every bit outside the mask as it
/// was.
pub proof fn lemma_replace_bits_outside_mask_u8(b: u8, m: u8, n: u8)
    ensures
        b.spec_replace_bits(m, n) & !m == b & !m,
{
    assert(((b & !m) | (m & n)) & !m == b & !m) by (bit_vector);
}

/// Replacing the bits under a mask leaves every bit outside the mask as it
/// was, on 16-bit words.
pub proof fn lemma_replace_bits_outside_mask_u16(b: u16, m: u16, n: u16)
    ensures
        b.spec_replace_bits(m, n) & !m == b & !m,
{
    assert(((b & !m) | (m & n)) & !m == b & !m) by (bit_vector);
}

} // verus!
