use crate::state::ppu::pipeline::BackgroundPipeline;
use crate::state::ppu::PPUState;
use crate::state::ppu::{Background, Memory};
use crate::state::NES;
use vstd::prelude::*;

verus! {

/// All four background shift registers advanced one bit.
pub open spec fn spec_bg_shift(bg: BackgroundPipeline) -> BackgroundPipeline {
    BackgroundPipeline {
        pattern_low: bg.pattern_low << 1,
        pattern_high: bg.pattern_high << 1,
        attr_low: bg.attr_low << 1,
        attr_high: bg.attr_high << 1,
        ..bg
    }
}

/// The freshly fetched tile loaded into the low halves of the shift
/// registers; the attribute halves take the latched attribute pair,
/// repeated across all eight pixels of the tile.
pub open spec fn spec_bg_reload(bg: BackgroundPipeline) -> BackgroundPipeline {
    BackgroundPipeline {
        pattern_low: (bg.pattern_low & 0xFF00) | (bg.low_latch as u16),
        pattern_high: (bg.pattern_high & 0xFF00) | (bg.high_latch as u16),
        attr_low: (bg.attr_low & 0xFF00) | (if bg.at_latch & 1 != 0 {
            0xFFu16
        } else {
            0
        }),
        attr_high: (bg.attr_high & 0xFF00) | (if bg.at_latch & 2 != 0 {
            0xFFu16
        } else {
            0
        }),
        ..bg
    }
}

/// The two attribute bits governing the tile `v` points at: the attribute
/// byte holds four such pairs, picked by bit 1 of coarse X and bit 1 of
/// coarse Y.
pub open spec fn spec_attr_shift(v: u16) -> u16 {
    ((v >> 4) & 4) | (v & 2)
}

/// The attribute-pair shift distance stays under 8.
pub proof fn lemma_attr_shift_bound(v: u16)
    by (bit_vector)
    ensures
        ((v >> 4) & 4) | (v & 2) < 8,
{
}

impl NES {
    /// Advances the background shift registers one dot.
    pub fn bg_shift(&mut self)
        requires
            old(self).wf(),
        ensures
            *final(self) == (NES {
                ppu: PPUState {
                    background: spec_bg_shift(old(self).ppu.background),
                    ..old(self).ppu
                },
                ..*old(self)
            }),
            final(self).wf(),
    {
        self.ppu.background.pattern_low = self.ppu.background.pattern_low << 1;
        self.ppu.background.pattern_high = self.ppu.background.pattern_high << 1;
        self.ppu.background.attr_low = self.ppu.background.attr_low << 1;
        self.ppu.background.attr_high = self.ppu.background.attr_high << 1;
    }

    /// Loads the latched tile into the shift registers' low halves.
    pub fn bg_reload(&mut self)
        requires
            old(self).wf(),
        ensures
            *final(self) == (NES {
                ppu: PPUState {
                    background: spec_bg_reload(old(self).ppu.background),
                    ..old(self).ppu
                },
                ..*old(self)
            }),
            final(self).wf(),
    {
        self.ppu.background.pattern_low = (self.ppu.background.pattern_low & 0xFF00) | (
        self.ppu.background.low_latch as u16);
        self.ppu.background.pattern_high = (self.ppu.background.pattern_high & 0xFF00) | (
        self.ppu.background.high_latch as u16);
        self.ppu.background.attr_low = (self.ppu.background.attr_low & 0xFF00) | (
        if self.ppu.background.at_latch & 1 != 0 {
            0xFFu16
        } else {
            0
        });
        self.ppu.background.attr_high = (self.ppu.background.attr_high & 0xFF00) | (
        if self.ppu.background.at_latch & 2 != 0 {
            0xFFu16
        } else {
            0
        });
    }

    /// Fetches the nametable byte for the tile `v` points at.
    pub fn bg_fetch_nametable(&mut self)
        requires
            old(self).wf(),
        ensures
            *final(self) == (NES {
                ppu: PPUState {
                    background: BackgroundPipeline {
                        nt_latch: old(self).spec_ppu_get(
                            0x2000 | (old(self).ppu.internal_registers.v & 0x0FFF),
                        ),
                        ..old(self).ppu.background
                    },
                    ..old(self).ppu
                },
                ..*old(self)
            }),
            final(self).wf(),
    {
        let addr: u16 = self.get_nametable_addr();
        let b: u8 = self.get(addr);
        self.ppu.background.nt_latch = b;
    }

    /// Fetches the attribute byte for the tile `v` points at and latches
    /// the two bits that govern this tile.
    pub fn bg_fetch_attribute(&mut self)
        requires
            old(self).wf(),
        ensures
            *final(self) == (NES {
                ppu: PPUState {
                    background: BackgroundPipeline {
                        at_latch: ({
                            let v = old(self).ppu.internal_registers.v;
                            let byte = old(self).spec_ppu_get(
                                0x23C0 | (v & 0x0C00) | ((v >> 4) & 0x38) | ((v >> 2) & 0x07),
                            );
                            ((byte as u16) >> spec_attr_shift(v)) as u8 & 3
                        }),
                        ..old(self).ppu.background
                    },
                    ..old(self).ppu
                },
                ..*old(self)
            }),
            final(self).wf(),
    {
        let addr: u16 = self.get_attribute_addr();
        let byte: u8 = self.get(addr);
        let v: u16 = self.ppu.internal_registers.v;
        proof {
            lemma_attr_shift_bound(v);
        }
        let shift: u16 = ((v >> 4) & 4) | (v & 2);
        self.ppu.background.at_latch = (((byte as u16) >> shift) as u8) & 3;
    }

    /// Fetches the low bit-plane row of the latched tile.
    pub fn bg_fetch_pattern_low(&mut self)
        requires
            old(self).wf(),
        ensures
            *final(self) == (NES {
                ppu: PPUState {
                    background: BackgroundPipeline {
                        low_latch: old(self).spec_ppu_get(
                            (old(self).ppu.ctrl.spec_background_pattern_table_addr() + old(
                                self,
                            ).ppu.background.nt_latch * 16
                                + old(self).ppu.internal_registers.spec_fine_y()) as u16,
                        ),
                        ..old(self).ppu.background
                    },
                    ..old(self).ppu
                },
                ..*old(self)
            }),
            final(self).wf(),
    {
        let index: u8 = self.ppu.background.nt_latch;
        let addr: u16 = self.get_background_tile_addr_low(index);
        let b: u8 = self.get(addr);
        self.ppu.background.low_latch = b;
    }

    /// Fetches the high bit-plane row of the latched tile.
    pub fn bg_fetch_pattern_high(&mut self)
        requires
            old(self).wf(),
        ensures
            *final(self) == (NES {
                ppu: PPUState {
                    background: BackgroundPipeline {
                        high_latch: old(self).spec_ppu_get(
                            (old(self).ppu.ctrl.spec_background_pattern_table_addr() + old(
                                self,
                            ).ppu.background.nt_latch * 16 + 8
                                + old(self).ppu.internal_registers.spec_fine_y()) as u16,
                        ),
                        ..old(self).ppu.background
                    },
                    ..old(self).ppu
                },
                ..*old(self)
            }),
            final(self).wf(),
    {
        let index: u8 = self.ppu.background.nt_latch;
        let addr: u16 = self.get_background_tile_addr_high(index);
        let b: u8 = self.get(addr);
        self.ppu.background.high_latch = b;
    }
}

} // verus!
