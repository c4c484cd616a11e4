use crate::state::ppu::Background;
use crate::state::NES;
use vstd::prelude::*;

verus! {

impl Background for NES {
    /// The nametable byte for the tile `v` points at: $2000 plus the low
    /// 12 bits of `v`.
    fn get_nametable_addr(&self) -> (r: u16)
        ensures
            r == 0x2000 | (self.ppu.internal_registers.v & 0x0FFF),
            0x2000 <= r < 0x3000,
    {
        proof {
            lemma_background_addr_bounds(self.ppu.internal_registers.v, 0);
        }
        0x2000 | (self.ppu.internal_registers.v & 0x0FFF)
    }

    /// The attribute byte for the tile `v` points at: the attribute table
    /// of `v`'s nametable, indexed by coarse X / 4 and coarse Y / 4.
    fn get_attribute_addr(&self) -> (r: u16)
        ensures
            r == 0x23C0 | (self.ppu.internal_registers.v & 0x0C00) | ((self.ppu.internal_registers.v
                >> 4) & 0x38) | ((self.ppu.internal_registers.v >> 2) & 0x07),
            0x2000 <= r < 0x3000,
    {
        proof {
            lemma_background_addr_bounds(self.ppu.internal_registers.v, 0);
        }
        0x23C0 | (self.ppu.internal_registers.v & 0x0C00) | ((self.ppu.internal_registers.v >> 4)
            & 0x38) | ((self.ppu.internal_registers.v >> 2) & 0x07)
    }

    /// Pattern-table address of the low bit-plane row of background tile
    /// `index`: 16 bytes per tile, plus the fine-Y row.
    fn get_background_tile_addr_low(&self, index: u8) -> (r: u16)
        ensures
            r == self.ppu.ctrl.spec_background_pattern_table_addr() + index * 16
                + self.ppu.internal_registers.spec_fine_y(),
            r < 0x2000,
    {
        let table: u16 = self.ppu.ctrl.get_background_pattern_table_addr();
        table + (index as u16) * 16 + self.ppu.internal_registers.fine_y()
    }

    /// Pattern-table address of the high bit-plane row of background tile
    /// `index`: eight bytes past the low plane.
    fn get_background_tile_addr_high(&self, index: u8) -> (r: u16)
        ensures
            r == self.ppu.ctrl.spec_background_pattern_table_addr() + index * 16 + 8
                + self.ppu.internal_registers.spec_fine_y(),
            r < 0x2000,
    {
        let table: u16 = self.ppu.ctrl.get_background_pattern_table_addr();
        table + (index as u16) * 16 + 8 + self.ppu.internal_registers.fine_y()
    }
}

/// The composed nametable and attribute addresses stay inside $2000-$2FFF.
pub proof fn lemma_background_addr_bounds(v: u16, unused: u16)
    by (bit_vector)
    ensures
        0x2000 <= (0x2000 | (v & 0x0FFF)) < 0x3000,
        0x2000 <= (0x23C0 | (v & 0x0C00) | ((v >> 4) & 0x38) | ((v >> 2) & 0x07)) < 0x3000,
{
}

} // verus!
