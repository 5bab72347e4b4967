use vstd::prelude::*;

verus! {

/// A half-open rectangle [x1, x2) x [y1, y2) of pixels.
pub struct Rect {
    pub x1: usize,
    pub y1: usize,
    pub x2: usize,
    pub y2: usize,
}

impl Rect {
    pub fn new(x1: usize, y1: usize, x2: usize, y2: usize) -> (r: Rect)
        ensures
            r.x1 == x1,
            r.y1 == y1,
            r.x2 == x2,
            r.y2 == y2,
    {
        Rect { x1, y1, x2, y2 }
    }

    pub open spec fn contains(self, x: int, y: int) -> bool {
        self.x1 <= x < self.x2 && self.y1 <= y < self.y2
    }
}

} // verus!
