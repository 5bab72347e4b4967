use vstd::prelude::*;

verus! {

/// PPUSCROLL ($2005): written twice, X first, then Y.
pub struct ScrollRegister {
    pub scroll_x: u8,
    pub scroll_y: u8,
    /// Set after the X write: the next write goes to Y.
    pub latch: bool,
}

impl ScrollRegister {
    pub fn new() -> (r: Self)
        ensures
            r.scroll_x == 0,
            r.scroll_y == 0,
            !r.latch,
    {
        ScrollRegister { scroll_x: 0, scroll_y: 0, latch: false }
    }

    /// Stores X when the latch is clear, Y when it is set, and flips the latch.
    pub fn write(&mut self, data: u8)
        ensures
            final(self).scroll_x == if old(self).latch { old(self).scroll_x } else { data },
            final(self).scroll_y == if old(self).latch { data } else { old(self).scroll_y },
            final(self).latch == !old(self).latch,
    {
        if !self.latch {
            self.scroll_x = data;
        } else {
            self.scroll_y = data;
        }
        self.latch = !self.latch;
    }

    pub fn reset_latch(&mut self)
        ensures
            final(self).scroll_x == old(self).scroll_x,
            final(self).scroll_y == old(self).scroll_y,
            !final(self).latch,
    {
        self.latch = false;
    }
}

} // verus!
