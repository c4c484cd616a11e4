use vstd::prelude::*;

verus! {

/// A simple down-counter: the channels clock their waveform step each time
/// it reaches zero.
pub struct Timer {
    pub counter: u16,
}

impl Timer {
    pub fn new() -> (r: Self)
        ensures
            r.counter == 0,
    {
        Timer { counter: 0 }
    }

    pub fn set(&mut self, val: u16)
        ensures
            final(self).counter == val,
    {
        self.counter = val;
    }

    pub fn is_zero(&self) -> (r: bool)
        ensures
            r == (self.counter == 0),
    {
        self.counter == 0
    }

    pub fn decrement(&mut self)
        requires
            old(self).counter > 0,
        ensures
            final(self).counter == old(self).counter - 1,
    {
        self.counter = self.counter - 1;
    }
}

} // verus!
