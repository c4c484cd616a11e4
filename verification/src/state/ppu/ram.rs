use crate::state::zeroed;
use vstd::prelude::*;

verus! {

/// The PPU's own memories: 4 KiB of nametable RAM (enough for four-screen
/// carts; two-screen mirroring folds addresses into the first 2 KiB) and
/// the 32-byte palette RAM.
pub struct RAM {
    pub vram: Vec<u8>,
    pub palette: Vec<u8>,
}

impl RAM {
    pub open spec fn wf(&self) -> bool {
        &&& self.vram@.len() == 0x1000
        &&& self.palette@.len() == 0x20
    }

    pub fn new() -> (r: Self)
        ensures
            r.wf(),
            r.vram@ == Seq::<u8>::new(0x1000, |i: int| 0u8),
            r.palette@ == Seq::<u8>::new(0x20, |i: int| 0u8),
    {
        RAM { vram: zeroed(0x1000), palette: zeroed(0x20) }
    }
}

} // verus!
