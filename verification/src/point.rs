use vstd::prelude::*;

verus! {

/// A position on screen, in pixels.
#[derive(Debug, Clone, Copy, PartialEq, Eq, Structural)]
pub struct Point {
    pub x: i32,
    pub y: i32,
}

impl View for Point {
    type V = (int, int);

    /// The point as a pair of unbounded integers, `x` first.
    open spec fn view(&self) -> (int, int) {
        (self.x as int, self.y as int)
    }
}

} // verus!
