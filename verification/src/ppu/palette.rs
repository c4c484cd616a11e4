use crate::ppu::Color;
use vstd::prelude::*;

verus! {

/// The fixed 64-entry colour table of the PPU: the colour each six-bit
/// palette value drives out of the composite encoder, as 24-bit RGB.
pub open spec fn spec_nes_color(idx: u8) -> Color {
    let i = idx & 0x3F;
    if i == 0 {
        Color { r: 84, g: 84, b: 84 }
    } else if i == 1 {
        Color { r: 0, g: 30, b: 116 }
    } else if i == 2 {
        Color { r: 8, g: 16, b: 144 }
    } else if i == 3 {
        Color { r: 48, g: 0, b: 136 }
    } else if i == 4 {
        Color { r: 68, g: 0, b: 100 }
    } else if i == 5 {
        Color { r: 92, g: 0, b: 48 }
    } else if i == 6 {
        Color { r: 84, g: 4, b: 0 }
    } else if i == 7 {
        Color { r: 60, g: 24, b: 0 }
    } else if i == 8 {
        Color { r: 32, g: 42, b: 0 }
    } else if i == 9 {
        Color { r: 8, g: 58, b: 0 }
    } else if i == 10 {
        Color { r: 0, g: 64, b: 0 }
    } else if i == 11 {
        Color { r: 0, g: 60, b: 0 }
    } else if i == 12 {
        Color { r: 0, g: 50, b: 60 }
    } else if i == 13 {
        Color { r: 0, g: 0, b: 0 }
    } else if i == 14 {
        Color { r: 0, g: 0, b: 0 }
    } else if i == 15 {
        Color { r: 0, g: 0, b: 0 }
    } else if i == 16 {
        Color { r: 152, g: 150, b: 152 }
    } else if i == 17 {
        Color { r: 8, g: 76, b: 196 }
    } else if i == 18 {
        Color { r: 48, g: 50, b: 236 }
    } else if i == 19 {
        Color { r: 92, g: 30, b: 228 }
    } else if i == 20 {
        Color { r: 136, g: 20, b: 176 }
    } else if i == 21 {
        Color { r: 160, g: 20, b: 100 }
    } else if i == 22 {
        Color { r: 152, g: 34, b: 32 }
    } else if i == 23 {
        Color { r: 120, g: 60, b: 0 }
    } else if i == 24 {
        Color { r: 84, g: 90, b: 0 }
    } else if i == 25 {
        Color { r: 40, g: 114, b: 0 }
    } else if i == 26 {
        Color { r: 8, g: 124, b: 0 }
    } else if i == 27 {
        Color { r: 0, g: 118, b: 40 }
    } else if i == 28 {
        Color { r: 0, g: 102, b: 120 }
    } else if i == 29 {
        Color { r: 0, g: 0, b: 0 }
    } else if i == 30 {
        Color { r: 0, g: 0, b: 0 }
    } else if i == 31 {
        Color { r: 0, g: 0, b: 0 }
    } else if i == 32 {
        Color { r: 236, g: 238, b: 236 }
    } else if i == 33 {
        Color { r: 76, g: 154, b: 236 }
    } else if i == 34 {
        Color { r: 120, g: 124, b: 236 }
    } else if i == 35 {
        Color { r: 176, g: 98, b: 236 }
    } else if i == 36 {
        Color { r: 228, g: 84, b: 236 }
    } else if i == 37 {
        Color { r: 236, g: 88, b: 180 }
    } else if i == 38 {
        Color { r: 236, g: 106, b: 100 }
    } else if i == 39 {
        Color { r: 212, g: 136, b: 32 }
    } else if i == 40 {
        Color { r: 160, g: 170, b: 0 }
    } else if i == 41 {
        Color { r: 116, g: 196, b: 0 }
    } else if i == 42 {
        Color { r: 76, g: 208, b: 32 }
    } else if i == 43 {
        Color { r: 56, g: 204, b: 108 }
    } else if i == 44 {
        Color { r: 56, g: 180, b: 204 }
    } else if i == 45 {
        Color { r: 60, g: 60, b: 60 }
    } else if i == 46 {
        Color { r: 0, g: 0, b: 0 }
    } else if i == 47 {
        Color { r: 0, g: 0, b: 0 }
    } else if i == 48 {
        Color { r: 236, g: 238, b: 236 }
    } else if i == 49 {
        Color { r: 168, g: 204, b: 236 }
    } else if i == 50 {
        Color { r: 188, g: 188, b: 236 }
    } else if i == 51 {
        Color { r: 212, g: 178, b: 236 }
    } else if i == 52 {
        Color { r: 236, g: 174, b: 236 }
    } else if i == 53 {
        Color { r: 236, g: 174, b: 212 }
    } else if i == 54 {
        Color { r: 236, g: 180, b: 176 }
    } else if i == 55 {
        Color { r: 228, g: 196, b: 144 }
    } else if i == 56 {
        Color { r: 204, g: 210, b: 120 }
    } else if i == 57 {
        Color { r: 180, g: 222, b: 120 }
    } else if i == 58 {
        Color { r: 168, g: 226, b: 144 }
    } else if i == 59 {
        Color { r: 152, g: 226, b: 180 }
    } else if i == 60 {
        Color { r: 160, g: 214, b: 228 }
    } else if i == 61 {
        Color { r: 160, g: 162, b: 160 }
    } else if i == 62 {
        Color { r: 0, g: 0, b: 0 }
    } else {
        Color { r: 0, g: 0, b: 0 }
    }
}

/// Looks a six-bit palette value up in the colour table; the two top bits
/// of the byte are ignored, as the encoder ignores them.
pub fn nes_color(idx: u8) -> (c: Color)
    ensures
        c == spec_nes_color(idx),
{
    let i: u8 = idx & 0x3F;
    proof {
        lemma_color_index_bound(idx);
    }
    if i == 0 {
        Color { r: 84, g: 84, b: 84 }
    } else if i == 1 {
        Color { r: 0, g: 30, b: 116 }
    } else if i == 2 {
        Color { r: 8, g: 16, b: 144 }
    } else if i == 3 {
        Color { r: 48, g: 0, b: 136 }
    } else if i == 4 {
        Color { r: 68, g: 0, b: 100 }
    } else if i == 5 {
        Color { r: 92, g: 0, b: 48 }
    } else if i == 6 {
        Color { r: 84, g: 4, b: 0 }
    } else if i == 7 {
        Color { r: 60, g: 24, b: 0 }
    } else if i == 8 {
        Color { r: 32, g: 42, b: 0 }
    } else if i == 9 {
        Color { r: 8, g: 58, b: 0 }
    } else if i == 10 {
        Color { r: 0, g: 64, b: 0 }
    } else if i == 11 {
        Color { r: 0, g: 60, b: 0 }
    } else if i == 12 {
        Color { r: 0, g: 50, b: 60 }
    } else if i == 13 {
        Color { r: 0, g: 0, b: 0 }
    } else if i == 14 {
        Color { r: 0, g: 0, b: 0 }
    } else if i == 15 {
        Color { r: 0, g: 0, b: 0 }
    } else if i == 16 {
        Color { r: 152, g: 150, b: 152 }
    } else if i == 17 {
        Color { r: 8, g: 76, b: 196 }
    } else if i == 18 {
        Color { r: 48, g: 50, b: 236 }
    } else if i == 19 {
        Color { r: 92, g: 30, b: 228 }
    } else if i == 20 {
        Color { r: 136, g: 20, b: 176 }
    } else if i == 21 {
        Color { r: 160, g: 20, b: 100 }
    } else if i == 22 {
        Color { r: 152, g: 34, b: 32 }
    } else if i == 23 {
        Color { r: 120, g: 60, b: 0 }
    } else if i == 24 {
        Color { r: 84, g: 90, b: 0 }
    } else if i == 25 {
        Color { r: 40, g: 114, b: 0 }
    } else if i == 26 {
        Color { r: 8, g: 124, b: 0 }
    } else if i == 27 {
        Color { r: 0, g: 118, b: 40 }
    } else if i == 28 {
        Color { r: 0, g: 102, b: 120 }
    } else if i == 29 {
        Color { r: 0, g: 0, b: 0 }
    } else if i == 30 {
        Color { r: 0, g: 0, b: 0 }
    } else if i == 31 {
        Color { r: 0, g: 0, b: 0 }
    } else if i == 32 {
        Color { r: 236, g: 238, b: 236 }
    } else if i == 33 {
        Color { r: 76, g: 154, b: 236 }
    } else if i == 34 {
        Color { r: 120, g: 124, b: 236 }
    } else if i == 35 {
        Color { r: 176, g: 98, b: 236 }
    } else if i == 36 {
        Color { r: 228, g: 84, b: 236 }
    } else if i == 37 {
        Color { r: 236, g: 88, b: 180 }
    } else if i == 38 {
        Color { r: 236, g: 106, b: 100 }
    } else if i == 39 {
        Color { r: 212, g: 136, b: 32 }
    } else if i == 40 {
        Color { r: 160, g: 170, b: 0 }
    } else if i == 41 {
        Color { r: 116, g: 196, b: 0 }
    } else if i == 42 {
        Color { r: 76, g: 208, b: 32 }
    } else if i == 43 {
        Color { r: 56, g: 204, b: 108 }
    } else if i == 44 {
        Color { r: 56, g: 180, b: 204 }
    } else if i == 45 {
        Color { r: 60, g: 60, b: 60 }
    } else if i == 46 {
        Color { r: 0, g: 0, b: 0 }
    } else if i == 47 {
        Color { r: 0, g: 0, b: 0 }
    } else if i == 48 {
        Color { r: 236, g: 238, b: 236 }
    } else if i == 49 {
        Color { r: 168, g: 204, b: 236 }
    } else if i == 50 {
        Color { r: 188, g: 188, b: 236 }
    } else if i == 51 {
        Color { r: 212, g: 178, b: 236 }
    } else if i == 52 {
        Color { r: 236, g: 174, b: 236 }
    } else if i == 53 {
        Color { r: 236, g: 174, b: 212 }
    } else if i == 54 {
        Color { r: 236, g: 180, b: 176 }
    } else if i == 55 {
        Color { r: 228, g: 196, b: 144 }
    } else if i == 56 {
        Color { r: 204, g: 210, b: 120 }
    } else if i == 57 {
        Color { r: 180, g: 222, b: 120 }
    } else if i == 58 {
        Color { r: 168, g: 226, b: 144 }
    } else if i == 59 {
        Color { r: 152, g: 226, b: 180 }
    } else if i == 60 {
        Color { r: 160, g: 214, b: 228 }
    } else if i == 61 {
        Color { r: 160, g: 162, b: 160 }
    } else if i == 62 {
        Color { r: 0, g: 0, b: 0 }
    } else {
        Color { r: 0, g: 0, b: 0 }
    }
}

/// Masking with 0x3F keeps the index under 64.
pub proof fn lemma_color_index_bound(idx: u8)
    by (bit_vector)
    ensures
        idx & 0x3F < 64,
{
}

} // verus!
