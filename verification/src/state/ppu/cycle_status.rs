use vstd::prelude::*;

verus! {

/// Where the PPU stands on its timing grid: the current dot within the
/// scanline, the current scanline within the frame, and whether the frame
/// now being drawn is an odd one (odd frames may skip one dot).
#[derive(Debug, Clone, Copy, PartialEq, Eq, Structural)]
pub struct CycleStatus {
    pub cycle: usize,
    pub scanline: usize,
    pub is_odd_frame: bool,
}

impl CycleStatus {
    /// A frame is 262 scanlines of 341 dots each.
    pub open spec fn wf(&self) -> bool {
        &&& self.cycle < 341
        &&& self.scanline < 262
    }

    pub fn new() -> (r: Self)
        ensures
            r == (CycleStatus { cycle: 0, scanline: 0, is_odd_frame: false }),
            r.wf(),
    {
        CycleStatus { cycle: 0, scanline: 0, is_odd_frame: false }
    }

    /// The scanlines on which the rendering pipeline works: the visible
    /// lines and the pre-render line.
    pub open spec fn spec_is_on_render_line(&self) -> bool {
        self.scanline <= 239 || self.scanline == 261
    }

    pub fn is_on_render_line(&self) -> (r: bool)
        ensures
            r == self.spec_is_on_render_line(),
    {
        self.scanline <= 239 || self.scanline == 261
    }
}

} // verus!
