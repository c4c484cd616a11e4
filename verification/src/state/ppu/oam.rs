use crate::state::zeroed;
use vstd::prelude::*;

verus! {

/// Object attribute memory: 256 bytes holding 64 four-byte sprite records
/// {Y, tile, attributes, X}, the externally visible OAM address, and the
/// 32-byte secondary OAM that holds the sprites picked for one scanline.
pub struct OAM {
    pub addr: u8,
    pub memory: Vec<u8>,
    pub secondary: Vec<u8>,
}

impl OAM {
    pub open spec fn wf(&self) -> bool {
        &&& self.memory@.len() == 0x100
        &&& self.secondary@.len() == 0x20
    }

    pub fn new() -> (r: Self)
        ensures
            r.wf(),
            r.addr == 0,
            r.memory@ == Seq::<u8>::new(0x100, |i: int| 0u8),
            r.secondary@ == Seq::<u8>::new(0x20, |i: int| 0u8),
    {
        OAM { addr: 0, memory: zeroed(0x100), secondary: zeroed(0x20) }
    }
}

} // verus!
