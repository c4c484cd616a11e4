use crate::state::ppu::mapped_registers::SpriteHeight;
use crate::state::ppu::oam::OAM;
use crate::state::ppu::pipeline::{SpritePipeline, SpriteSlot};
use crate::state::ppu::PPUState;
use crate::state::ppu::Memory;
use crate::state::NES;
use vstd::prelude::*;

verus! {

/// A byte with its bits reversed, for horizontally flipped sprites.
pub open spec fn spec_reverse_bits(b: u8) -> u8 {
    ((b >> 7) & 1) | ((b >> 5) & 2) | ((b >> 3) & 4) | ((b >> 1) & 8) | ((b << 1) & 16) | ((b << 3)
        & 32) | ((b << 5) & 64) | ((b << 7) & 128)
}

/// The two fields a tile index splits into for 8x16 sprites stay small.
pub proof fn lemma_sprite_tile_bits(tile: u8)
    by (bit_vector)
    ensures
        tile & 1 <= 1,
        tile & 0xFE <= 0xFE,
{
}

pub fn reverse_bits(b: u8) -> (r: u8)
    ensures
        r == spec_reverse_bits(b),
{
    ((b >> 7) & 1) | ((b >> 5) & 2) | ((b >> 3) & 4) | ((b >> 1) & 8) | ((b << 1) & 16) | ((b << 3)
        & 32) | ((b << 5) & 64) | ((b << 7) & 128)
}

impl NES {
    /// The configured sprite height, in pixels.
    pub open spec fn spec_sprite_height_px(&self) -> int {
        self.ppu.ctrl.spec_sprite_height().spec_pixels() as int
    }

    /// Whether primary sprite `n` covers the scanline being evaluated.
    pub open spec fn spec_sprite_in_range(&self, n: int) -> bool {
        let y = self.ppu.oam.memory@[4 * n];
        &&& self.ppu.current_cycle.scanline >= y
        &&& self.ppu.current_cycle.scanline < y + self.spec_sprite_height_px()
    }

    /// Clears secondary OAM to $FF and resets the evaluation state, the
    /// one-step form of the clear that occupies the scanline's first dots.
    pub fn clear_secondary_oam(&mut self)
        requires
            old(self).wf(),
        ensures
            final(self).ppu.oam.secondary@ == Seq::<u8>::new(0x20, |i: int| 0xFFu8),
            *final(self) == (NES {
                ppu: PPUState {
                    oam: OAM { secondary: final(self).ppu.oam.secondary, ..old(self).ppu.oam },
                    sprites: SpritePipeline {
                        count: 0,
                        sprite0_next: false,
                        ..old(self).ppu.sprites
                    },
                    ..old(self).ppu
                },
                ..*old(self)
            }),
            final(self).wf(),
    {
        let mut i: usize = 0;
        while i < 0x20
            invariant
                i <= 0x20,
                self.ppu.oam.secondary@.len() == 0x20,
                forall|j: int| 0 <= j < i ==> self.ppu.oam.secondary@[j] == 0xFFu8,
                *self == (NES {
                    ppu: PPUState {
                        oam: OAM { secondary: self.ppu.oam.secondary, ..old(self).ppu.oam },
                        ..old(self).ppu
                    },
                    ..*old(self)
                }),
            decreases 0x20 - i,
        {
            self.ppu.oam.secondary.set(i, 0xFF);
            i = i + 1;
        }
        proof {
            assert(self.ppu.oam.secondary@ =~= Seq::<u8>::new(0x20, |i: int| 0xFFu8));
        }
        self.ppu.sprites.count = 0;
        self.ppu.sprites.sprite0_next = false;
    }

    /// What one evaluation step does for primary sprite `n`: a sprite off
    /// this scanline changes nothing; an in-range sprite is copied into the
    /// next free secondary-OAM record (marking sprite 0 when `n` is 0); a
    /// ninth in-range sprite raises the overflow flag instead.
    pub open spec fn sprite_eval_rel(pre: NES, post: NES, n: int) -> bool {
        let c = pre.ppu.sprites.count as int;
        if !pre.spec_sprite_in_range(n) {
            post == pre
        } else if c < 8 {
            &&& post.ppu.oam.secondary@ == pre.ppu.oam.secondary@.update(
                4 * c,
                pre.ppu.oam.memory@[4 * n],
            ).update(4 * c + 1, pre.ppu.oam.memory@[4 * n + 1]).update(
                4 * c + 2,
                pre.ppu.oam.memory@[4 * n + 2],
            ).update(4 * c + 3, pre.ppu.oam.memory@[4 * n + 3])
            &&& post == (NES {
                ppu: PPUState {
                    oam: OAM { secondary: post.ppu.oam.secondary, ..pre.ppu.oam },
                    sprites: SpritePipeline {
                        count: (pre.ppu.sprites.count + 1) as u8,
                        sprite0_next: pre.ppu.sprites.sprite0_next || n == 0,
                        ..pre.ppu.sprites
                    },
                    ..pre.ppu
                },
                ..pre
            })
        } else {
            post == (NES {
                ppu: PPUState {
                    status: crate::state::ppu::mapped_registers::PPUSTATUS {
                        sprite_overflow: true,
                        ..pre.ppu.status
                    },
                    ..pre.ppu
                },
                ..pre
            })
        }
    }

    /// One sprite-evaluation step: considers primary sprite `n` for the
    /// scanline now being drawn (the picked sprites appear on the next
    /// scanline).
    pub fn evaluate_sprite(&mut self, n: usize)
        requires
            old(self).wf(),
            n < 64,
        ensures
            NES::sprite_eval_rel(*old(self), *final(self), n as int),
            final(self).wf(),
    {
        let y: u8 = self.ppu.oam.memory[4 * n];
        let height: usize = match self.ppu.ctrl.get_sprite_height() {
            SpriteHeight::Eight => 8,
            SpriteHeight::Sixteen => 16,
        };
        let scanline: usize = self.ppu.current_cycle.scanline;
        if !(scanline >= y as usize && scanline < y as usize + height) {
            return ;
        }
        let c: usize = self.ppu.sprites.count as usize;
        if c < 8 {
            self.ppu.oam.secondary.set(4 * c, self.ppu.oam.memory[4 * n]);
            self.ppu.oam.secondary.set(4 * c + 1, self.ppu.oam.memory[4 * n + 1]);
            self.ppu.oam.secondary.set(4 * c + 2, self.ppu.oam.memory[4 * n + 2]);
            self.ppu.oam.secondary.set(4 * c + 3, self.ppu.oam.memory[4 * n + 3]);
            self.ppu.sprites.count = self.ppu.sprites.count + 1;
            if n == 0 {
                self.ppu.sprites.sprite0_next = true;
            }
        } else {
            self.ppu.status.sprite_overflow = true;
        }
    }

    /// The pattern-table row address of the secondary-OAM sprite record
    /// {y, tile, attr} for the scanline being drawn, vertical flip applied;
    /// 8x16 sprites take their pattern table from bit 0 of the tile index
    /// and their second half from the next tile.
    pub open spec fn spec_sprite_row_addr(&self, y: u8, tile: u8, attr: u8) -> u16 {
        let h = self.spec_sprite_height_px();
        let sl = self.ppu.current_cycle.scanline as int;
        let row = if y <= sl < y + h {
            sl - y
        } else {
            0
        };
        let row2 = if attr & 0x80 != 0 {
            h - 1 - row
        } else {
            row
        };
        if h == 8 {
            (self.ppu.ctrl.spec_sprite_pattern_table_addr() + tile * 16 + row2) as u16
        } else {
            let table = ((tile & 1) as int) * 0x1000;
            let base = (tile & 0xFE) as int;
            if row2 >= 8 {
                (table + (base + 1) * 16 + (row2 - 8)) as u16
            } else {
                (table + base * 16 + row2) as u16
            }
        }
    }

    /// The slot that sprite fetching fills for secondary-OAM record `j`:
    /// its X and attributes, and the two pattern bytes of the row the next
    /// scanline will draw, bit-reversed for a horizontal flip. Slots past
    /// the evaluated count are empty.
    pub open spec fn spec_slot_value(&self, j: int) -> SpriteSlot {
        if j < self.ppu.sprites.count {
            let sec = self.ppu.oam.secondary@;
            let y = sec[4 * j];
            let tile = sec[4 * j + 1];
            let attr = sec[4 * j + 2];
            let x = sec[4 * j + 3];
            let addr = self.spec_sprite_row_addr(y, tile, attr);
            let low = self.spec_ppu_get(addr);
            let high = self.spec_ppu_get((addr + 8) as u16);
            SpriteSlot {
                x,
                attr,
                pattern_low: if attr & 0x40 != 0 {
                    spec_reverse_bits(low)
                } else {
                    low
                },
                pattern_high: if attr & 0x40 != 0 {
                    spec_reverse_bits(high)
                } else {
                    high
                },
                active: true,
            }
        } else {
            SpriteSlot::spec_empty()
        }
    }

    /// One sprite-fetch step: fills rendering slot `j` from secondary OAM;
    /// at the first slot the sprite-0 mark moves from the evaluation to the
    /// rendering side.
    pub fn load_sprite_slot(&mut self, j: usize)
        requires
            old(self).wf(),
            j < 8,
        ensures
            final(self).ppu.sprites.slots@ == old(self).ppu.sprites.slots@.update(
                j as int,
                old(self).spec_slot_value(j as int),
            ),
            *final(self) == (NES {
                ppu: PPUState {
                    sprites: SpritePipeline {
                        slots: final(self).ppu.sprites.slots,
                        sprite0_line: if j == 0 {
                            old(self).ppu.sprites.sprite0_next
                        } else {
                            old(self).ppu.sprites.sprite0_line
                        },
                        ..old(self).ppu.sprites
                    },
                    ..old(self).ppu
                },
                ..*old(self)
            }),
            final(self).wf(),
    {
        let slot: SpriteSlot;
        if j < self.ppu.sprites.count as usize {
            let y: u8 = self.ppu.oam.secondary[4 * j];
            let tile: u8 = self.ppu.oam.secondary[4 * j + 1];
            let attr: u8 = self.ppu.oam.secondary[4 * j + 2];
            let x: u8 = self.ppu.oam.secondary[4 * j + 3];
            let height: usize = match self.ppu.ctrl.get_sprite_height() {
                SpriteHeight::Eight => 8,
                SpriteHeight::Sixteen => 16,
            };
            let sl: usize = self.ppu.current_cycle.scanline;
            let row: usize = if y as usize <= sl && sl < y as usize + height {
                sl - y as usize
            } else {
                0
            };
            let row2: usize = if attr & 0x80 != 0 {
                height - 1 - row
            } else {
                row
            };
            let addr: u16;
            if height == 8 {
                addr = self.ppu.ctrl.get_sprite_pattern_table_addr() + (tile as u16) * 16
                    + row2 as u16;
            } else {
                proof {
                    lemma_sprite_tile_bits(tile);
                }
                let table: u16 = ((tile & 1) as u16) * 0x1000;
                let base: u16 = (tile & 0xFE) as u16;
                if row2 >= 8 {
                    addr = table + (base + 1) * 16 + (row2 as u16 - 8);
                } else {
                    addr = table + base * 16 + row2 as u16;
                }
            }
            let low: u8 = self.get(addr);
            let high: u8 = self.get(addr + 8);
            slot = SpriteSlot {
                x,
                attr,
                pattern_low: if attr & 0x40 != 0 {
                    reverse_bits(low)
                } else {
                    low
                },
                pattern_high: if attr & 0x40 != 0 {
                    reverse_bits(high)
                } else {
                    high
                },
                active: true,
            };
        } else {
            slot = SpriteSlot::empty();
        }
        self.ppu.sprites.slots.set(j, slot);
        if j == 0 {
            self.ppu.sprites.sprite0_line = self.ppu.sprites.sprite0_next;
        }
    }

    /// Empties the rendering slots and both sprite-0 marks; the pre-render
    /// line starts the frame with no sprites in flight.
    pub fn deactivate_sprite_slots(&mut self)
        requires
            old(self).wf(),
        ensures
            final(self).ppu.sprites.slots@ == Seq::<SpriteSlot>::new(
                8,
                |i: int| SpriteSlot::spec_empty(),
            ),
            *final(self) == (NES {
                ppu: PPUState {
                    sprites: SpritePipeline {
                        slots: final(self).ppu.sprites.slots,
                        sprite0_line: false,
                        sprite0_next: false,
                        count: 0,
                        ..old(self).ppu.sprites
                    },
                    ..old(self).ppu
                },
                ..*old(self)
            }),
            final(self).wf(),
    {
        let mut i: usize = 0;
        while i < 8
            invariant
                i <= 8,
                self.ppu.sprites.slots@.len() == 8,
                forall|j: int| 0 <= j < i ==> self.ppu.sprites.slots@[j] == SpriteSlot::spec_empty(),
                *self == (NES {
                    ppu: PPUState {
                        sprites: SpritePipeline {
                            slots: self.ppu.sprites.slots,
                            ..old(self).ppu.sprites
                        },
                        ..old(self).ppu
                    },
                    ..*old(self)
                }),
            decreases 8 - i,
        {
            self.ppu.sprites.slots.set(i, SpriteSlot::empty());
            i = i + 1;
        }
        proof {
            assert(self.ppu.sprites.slots@ =~= Seq::<SpriteSlot>::new(
                8,
                |i: int| SpriteSlot::spec_empty(),
            ));
        }
        self.ppu.sprites.count = 0;
        self.ppu.sprites.sprite0_next = false;
        self.ppu.sprites.sprite0_line = false;
    }
}

} // verus!
