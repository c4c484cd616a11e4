use crate::state::ppu::pipeline::{BackgroundPipeline, SpriteSlot};
use crate::state::NES;
use vstd::prelude::*;

verus! {

/// A single extracted bit is 0 or 1, and the attribute shift distance
/// stays under 8.
pub proof fn lemma_mux_bits(v: u16, b: u16, s: u8, w: u16)
    by (bit_vector)
    ensures
        b < 16 ==> (v >> b) & 1 <= 1,
        s < 8 ==> (w >> ((15 - s) as u16)) & 1 <= 1,
        (v & 3) <= 3,
        (s & 3) <= 3,
{
}

/// The opaque sprite pixel the sprite pipeline contributes at one column.
#[derive(Debug, Copy, Clone, PartialEq, Eq, Structural)]
pub struct SpritePixel {
    pub pattern: u8,
    pub palette: u8,
    pub behind: bool,
    pub sprite0: bool,
}

/// The 4-bit background palette index under the fine-X window: two
/// attribute bits over two pattern bits, each taken from bit `15 - fine_x`
/// of its shift register.
pub open spec fn spec_bg_palette_index(bg: BackgroundPipeline, fine_x: u8) -> u8 {
    let bit = (15 - fine_x) as u16;
    let p0 = (bg.pattern_low >> bit) & 1;
    let p1 = (bg.pattern_high >> bit) & 1;
    let a0 = (bg.attr_low >> bit) & 1;
    let a1 = (bg.attr_high >> bit) & 1;
    (a1 * 8 + a0 * 4 + p1 * 2 + p0) as u8
}

pub fn bg_palette_index(bg: &BackgroundPipeline, fine_x: u8) -> (r: u8)
    requires
        fine_x < 8,
    ensures
        r == spec_bg_palette_index(*bg, fine_x),
        r < 16,
{
    let bit: u16 = (15 - fine_x) as u16;
    proof {
        lemma_mux_bits(bg.pattern_low, bit, fine_x, 0);
        lemma_mux_bits(bg.pattern_high, bit, fine_x, 0);
        lemma_mux_bits(bg.attr_low, bit, fine_x, 0);
        lemma_mux_bits(bg.attr_high, bit, fine_x, 0);
    }
    let p0: u16 = (bg.pattern_low >> bit) & 1;
    let p1: u16 = (bg.pattern_high >> bit) & 1;
    let a0: u16 = (bg.attr_low >> bit) & 1;
    let a1: u16 = (bg.attr_high >> bit) & 1;
    (a1 * 8 + a0 * 4 + p1 * 2 + p0) as u8
}

/// The 2-bit pattern a sprite slot contributes at screen column `col`: its
/// row bytes hold the column in bit `7 - (col - x)`; a slot that is
/// inactive or does not cover the column contributes 0 (transparent).
pub open spec fn spec_slot_pattern(slot: SpriteSlot, col: int) -> u8 {
    if slot.active && slot.x <= col < slot.x + 8 {
        let bit = (7 - (col - slot.x)) as u8;
        ((((slot.pattern_high as u16) >> (bit as u16)) & 1) * 2 + (((slot.pattern_low as u16) >> (
        bit as u16)) & 1)) as u8
    } else {
        0
    }
}

pub fn slot_pattern(slot: &SpriteSlot, col: usize) -> (r: u8)
    requires
        col < 256,
    ensures
        r == spec_slot_pattern(*slot, col as int),
        r < 4,
{
    if slot.active && slot.x as usize <= col && col < slot.x as usize + 8 {
        let bit: u16 = (7 - (col - slot.x as usize)) as u16;
        proof {
            lemma_mux_bits(slot.pattern_high as u16, bit, 0, 0);
            lemma_mux_bits(slot.pattern_low as u16, bit, 0, 0);
        }
        ((((slot.pattern_high as u16) >> bit) & 1) * 2 + (((slot.pattern_low as u16) >> bit) & 1))
            as u8
    } else {
        0
    }
}

/// The first sprite slot, in priority order, whose pattern is opaque at
/// column `col`; slot 0 carries the sprite-0 mark when sprite 0 was among
/// the sprites picked for this scanline.
pub open spec fn spec_sprite_sample(
    slots: Seq<SpriteSlot>,
    sprite0_line: bool,
    i: int,
    col: int,
) -> Option<SpritePixel>
    decreases 8 - i,
{
    if i < 0 || i >= 8 {
        Option::None
    } else if spec_slot_pattern(slots[i], col) != 0 {
        Option::Some(
            SpritePixel {
                pattern: spec_slot_pattern(slots[i], col),
                palette: slots[i].attr & 3,
                behind: slots[i].attr & 0x20 != 0,
                sprite0: i == 0 && sprite0_line,
            },
        )
    } else {
        spec_sprite_sample(slots, sprite0_line, i + 1, col)
    }
}

pub fn sprite_sample(slots: &Vec<SpriteSlot>, sprite0_line: bool, col: usize) -> (r: Option<
    SpritePixel,
>)
    requires
        slots@.len() == 8,
        col < 256,
    ensures
        r == spec_sprite_sample(slots@, sprite0_line, 0, col as int),
        (match r {
            Option::Some(spx) => spx.palette <= 3 && 0 < spx.pattern <= 3,
            Option::None => true,
        }),
{
    let mut i: usize = 0;
    while i < 8
        invariant
            i <= 8,
            slots@.len() == 8,
            col < 256,
            spec_sprite_sample(slots@, sprite0_line, 0, col as int) == spec_sprite_sample(
                slots@,
                sprite0_line,
                i as int,
                col as int,
            ),
        decreases 8 - i,
    {
        let pat: u8 = slot_pattern(&slots[i], col);
        if pat != 0 {
            let slot: SpriteSlot = slots[i];
            proof {
                lemma_mux_bits(0, 0, slot.attr, 0);
            }
            return Option::Some(
                SpritePixel {
                    pattern: pat,
                    palette: slot.attr & 3,
                    behind: slot.attr & 0x20 != 0,
                    sprite0: i == 0 && sprite0_line,
                },
            );
        }
        i = i + 1;
    }
    Option::None
}

/// The background contribution at column `col`: the muxed 4-bit index when
/// the background is enabled and the column is outside a masked left edge,
/// else transparent.
pub open spec fn spec_bg_contribution(s: NES, col: int) -> u8 {
    if s.ppu.mask.spec_should_render_background() && (col >= 8 || s.ppu.mask.register & 0x02
        != 0) {
        spec_bg_palette_index(s.ppu.background, s.ppu.internal_registers.x)
    } else {
        0
    }
}

/// The sprite contribution at column `col`: the first opaque slot when
/// sprites are enabled and the column is outside a masked left edge.
pub open spec fn spec_sprite_contribution(s: NES, col: int) -> Option<SpritePixel> {
    if s.ppu.mask.spec_should_render_sprites() && (col >= 8 || s.ppu.mask.register & 0x04 != 0) {
        spec_sprite_sample(s.ppu.sprites.slots@, s.ppu.sprites.sprite0_line, 0, col)
    } else {
        Option::None
    }
}

/// The palette-space index (0..=31) of the pixel at column `col`: the
/// universal background when both contributions are transparent, the
/// opaque one when only one is, and sprite priority (attribute bit 5)
/// when both are.
pub open spec fn spec_pixel_palette_index(s: NES, col: int) -> u8 {
    let bg = spec_bg_contribution(s, col);
    let bg_opaque = bg & 3 != 0;
    match spec_sprite_contribution(s, col) {
        Option::None => if bg_opaque {
            bg
        } else {
            0
        },
        Option::Some(sp) => {
            let sp_index = (0x10 + sp.palette * 4 + sp.pattern) as u8;
            if !bg_opaque {
                sp_index
            } else if sp.behind {
                bg
            } else {
                sp_index
            }
        },
    }
}

/// Whether the pixel at column `col` scores a sprite-0 hit: both pipelines
/// enabled, both contributions opaque, the sprite one from sprite 0, and
/// not in the last column.
pub open spec fn spec_sprite0_hit_at(s: NES, col: int) -> bool {
    &&& s.ppu.mask.spec_should_render_background()
    &&& s.ppu.mask.spec_should_render_sprites()
    &&& col != 255
    &&& spec_bg_contribution(s, col) & 3 != 0
    &&& match spec_sprite_contribution(s, col) {
        Option::None => false,
        Option::Some(sp) => sp.sprite0,
    }
}

/// The colour of the pixel at column `col`: the muxed palette entry,
/// looked up through palette RAM and the fixed colour table.
pub open spec fn spec_pixel_color(s: NES, col: int) -> crate::ppu::Color {
    crate::ppu::palette::spec_nes_color(
        s.spec_ppu_get((0x3F00 + spec_pixel_palette_index(s, col)) as u16),
    )
}

} // verus!
