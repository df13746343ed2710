use vstd::prelude::*;

verus! {

/// A two-dimensional size in pixels.
#[derive(Clone, Copy, Debug, PartialEq, Eq, Structural)]
pub struct Size2D {
    pub width: i64,
    pub height: i64,
}

impl Size2D {
    /// Both dimensions are positive: the only sizes a render target can have.
    pub open spec fn is_drawable(&self) -> bool {
        self.width > 0 && self.height > 0
    }

    pub fn new(width: i64, height: i64) -> (r: Size2D)
        ensures
            r.width == width,
            r.height == height,
    {
        Size2D { width, height }
    }
}

} // verus!
