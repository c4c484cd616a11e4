use vstd::prelude::*;

verus! {

/// The background fetch pipeline: the four latches filled over each
/// eight-dot fetch cycle, and the 16-bit shift registers the pixel
/// multiplexer reads through the fine-X window.
pub struct BackgroundPipeline {
    pub pattern_low: u16,
    pub pattern_high: u16,
    pub attr_low: u16,
    pub attr_high: u16,
    pub nt_latch: u8,
    pub at_latch: u8,
    pub low_latch: u8,
    pub high_latch: u8,
}

impl BackgroundPipeline {
    pub fn new() -> (r: Self)
        ensures
            r == Self::spec_new(),
    {
        BackgroundPipeline {
            pattern_low: 0,
            pattern_high: 0,
            attr_low: 0,
            attr_high: 0,
            nt_latch: 0,
            at_latch: 0,
            low_latch: 0,
            high_latch: 0,
        }
    }

    pub open spec fn spec_new() -> Self {
        BackgroundPipeline {
            pattern_low: 0,
            pattern_high: 0,
            attr_low: 0,
            attr_high: 0,
            nt_latch: 0,
            at_latch: 0,
            low_latch: 0,
            high_latch: 0,
        }
    }
}

/// One of the eight sprite rendering slots filled for the current
/// scanline: the sprite's X position, its attribute byte, and the two
/// pattern bytes for the row being drawn.
#[derive(Debug, Copy, Clone, PartialEq, Eq, Structural)]
pub struct SpriteSlot {
    pub x: u8,
    pub attr: u8,
    pub pattern_low: u8,
    pub pattern_high: u8,
    pub active: bool,
}

impl SpriteSlot {
    pub open spec fn spec_empty() -> Self {
        SpriteSlot { x: 0, attr: 0, pattern_low: 0, pattern_high: 0, active: false }
    }

    pub fn empty() -> (r: Self)
        ensures
            r == Self::spec_empty(),
    {
        SpriteSlot { x: 0, attr: 0, pattern_low: 0, pattern_high: 0, active: false }
    }
}

/// The sprite half of the rendering pipeline: the eight slots for the
/// scanline being drawn, how many secondary-OAM entries the last
/// evaluation found, and whether sprite 0 is among them.
pub struct SpritePipeline {
    pub slots: Vec<SpriteSlot>,
    pub count: u8,
    pub sprite0_next: bool,
    pub sprite0_line: bool,
}

impl SpritePipeline {
    pub open spec fn wf(&self) -> bool {
        &&& self.slots@.len() == 8
        &&& self.count <= 8
    }

    pub fn new() -> (r: Self)
        ensures
            r.wf(),
            r.count == 0,
            !r.sprite0_next,
            !r.sprite0_line,
            forall|i: int| 0 <= i < 8 ==> r.slots@[i] == SpriteSlot::spec_empty(),
    {
        let mut slots: Vec<SpriteSlot> = Vec::new();
        let mut i: usize = 0;
        while i < 8
            invariant
                i <= 8,
                slots@.len() == i,
                forall|j: int| 0 <= j < i ==> slots@[j] == SpriteSlot::spec_empty(),
            decreases 8 - i,
        {
            slots.push(SpriteSlot::empty());
            i = i + 1;
        }
        SpritePipeline { slots, count: 0, sprite0_next: false, sprite0_line: false }
    }
}

} // verus!
