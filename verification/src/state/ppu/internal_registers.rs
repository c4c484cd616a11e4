use vstd::prelude::*;

verus! {

/// The PPU's internal scroll and address state: the 15-bit current VRAM
/// address `v`, its 15-bit staging copy `t`, the 3-bit fine horizontal
/// scroll `x`, and the shared write toggle `w` for the two-write registers.
pub struct InternalRegisters {
    pub v: u16,
    pub t: u16,
    pub x: u8,
    pub w: bool,
}

/// Bit-level bounds of the scroll-address arithmetic: every update keeps
/// `v` and `t` inside 15 bits, and fine Y stays under 8.
pub proof fn lemma_loopy_bounds(v: u16, t: u16, y: u16)
    by (bit_vector)
    ensures
        v < 0x8000 ==> ((v & !0x001F) ^ 0x0400) < 0x8000,
        (v < 0x8000 && (v & 0x001F) != 31) ==> v + 1 < 0x8000,
        (v < 0x8000 && v & 0x7000 != 0x7000) ==> v + 0x1000 < 0x8000,
        ((v & !0x7000) & 0x03E0) >> 5 < 32,
        v & !0x7000 < 0x8000 || v >= 0x8000,
        (((v & !0x7000) & !0x03E0) ^ 0x0800) < 0x8000 || v >= 0x8000,
        ((v & !0x7000) & !0x03E0) < 0x8000 || v >= 0x8000,
        (y < 32 ==> (((v & !0x7000) & !0x03E0) | (y << 5)) < 0x8000) || v >= 0x8000,
        (v < 0x8000 && t < 0x8000) ==> ((v & !0x041F) | (t & 0x041F)) < 0x8000,
        (v < 0x8000 && t < 0x8000) ==> ((v & !0x7BE0) | (t & 0x7BE0)) < 0x8000,
        (v >> 12) & 7 < 8,
{
}

impl InternalRegisters {
    /// Both address words fit in 15 bits and the fine scroll in 3.
    pub open spec fn wf(&self) -> bool {
        &&& self.v < 0x8000
        &&& self.t < 0x8000
        &&& self.x < 8
    }

    pub fn new() -> (r: Self)
        ensures
            r == (InternalRegisters { v: 0, t: 0, x: 0, w: false }),
            r.wf(),
    {
        InternalRegisters { v: 0, t: 0, x: 0, w: false }
    }

    /// The coarse-X step of the rendering-time address increment: coarse X
    /// advances by one, and wraps into the other horizontal nametable.
    pub open spec fn spec_increment_x(v: u16) -> u16 {
        if v & 0x001F == 31 {
            (v & !0x001F) ^ 0x0400
        } else {
            (v + 1) as u16
        }
    }

    /// The Y step of the rendering-time address increment: fine Y advances
    /// by one; on overflow it clears and coarse Y advances, wrapping from
    /// row 29 into the other vertical nametable (row 31 wraps without the
    /// nametable switch).
    pub open spec fn spec_increment_y(v: u16) -> u16 {
        if v & 0x7000 != 0x7000 {
            (v + 0x1000) as u16
        } else {
            let v2 = v & !0x7000;
            let y = (v2 & 0x03E0) >> 5;
            if y == 29 {
                (v2 & !0x03E0) ^ 0x0800
            } else if y == 31 {
                v2 & !0x03E0
            } else {
                (v2 & !0x03E0) | (((y + 1) as u16) << 5)
            }
        }
    }

    /// Copy of the horizontal bits (coarse X and the horizontal nametable
    /// bit) from `t` into `v`.
    pub open spec fn spec_reset_x(v: u16, t: u16) -> u16 {
        (v & !0x041F) | (t & 0x041F)
    }

    /// Copy of the vertical bits (fine Y, coarse Y and the vertical
    /// nametable bit) from `t` into `v`.
    pub open spec fn spec_reset_y(v: u16, t: u16) -> u16 {
        (v & !0x7BE0) | (t & 0x7BE0)
    }

    pub open spec fn spec_fine_y(&self) -> u16 {
        (self.v >> 12) & 7
    }

    pub fn increment_x(&mut self)
        requires
            old(self).wf(),
        ensures
            *final(self) == (InternalRegisters { v: Self::spec_increment_x(old(self).v), ..*old(self) }),
            final(self).wf(),
    {
        proof {
            lemma_loopy_bounds(self.v, self.t, 0);
        }
        if self.v & 0x001F == 31 {
            self.v = (self.v & !0x001F) ^ 0x0400;
        } else {
            self.v = self.v + 1;
        }
    }

    pub fn increment_y(&mut self)
        requires
            old(self).wf(),
        ensures
            *final(self) == (InternalRegisters { v: Self::spec_increment_y(old(self).v), ..*old(self) }),
            final(self).wf(),
    {
        proof {
            lemma_loopy_bounds(self.v, self.t, 0);
        }
        if self.v & 0x7000 != 0x7000 {
            self.v = self.v + 0x1000;
        } else {
            let v2: u16 = self.v & !0x7000;
            let y: u16 = (v2 & 0x03E0) >> 5;
            proof {
                lemma_loopy_bounds(old(self).v, self.t, (y + 1) as u16);
            }
            if y == 29 {
                self.v = (v2 & !0x03E0) ^ 0x0800;
            } else if y == 31 {
                self.v = v2 & !0x03E0;
            } else {
                self.v = (v2 & !0x03E0) | ((y + 1) << 5);
            }
        }
    }

    pub fn reset_x(&mut self)
        requires
            old(self).wf(),
        ensures
            *final(self) == (InternalRegisters { v: Self::spec_reset_x(old(self).v, old(self).t), ..*old(self) }),
            final(self).wf(),
    {
        proof {
            lemma_loopy_bounds(self.v, self.t, 0);
        }
        self.v = (self.v & !0x041F) | (self.t & 0x041F);
    }

    pub fn reset_y(&mut self)
        requires
            old(self).wf(),
        ensures
            *final(self) == (InternalRegisters { v: Self::spec_reset_y(old(self).v, old(self).t), ..*old(self) }),
            final(self).wf(),
    {
        proof {
            lemma_loopy_bounds(self.v, self.t, 0);
        }
        self.v = (self.v & !0x7BE0) | (self.t & 0x7BE0);
    }

    /// The fine-Y row (0..=7) encoded in bits 12-14 of `v`.
    pub fn fine_y(&self) -> (r: u16)
        ensures
            r == self.spec_fine_y(),
            r < 8,
    {
        proof {
            lemma_loopy_bounds(self.v, self.t, 0);
        }
        (self.v >> 12) & 7
    }
}

} // verus!
