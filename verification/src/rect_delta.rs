use vstd::prelude::*;

use crate::length_value::{LengthUnit, LengthValue, Ratio};

verus! {

/// How far each edge of a rectangle lies inside the matching edge of a
/// reference rectangle, in whole pixels over the unbounded integers. A
/// negative entry is an edge that lies outside.
pub struct EdgeOffsets {
    pub left: int,
    pub top: int,
    pub right: int,
    pub bottom: int,
}

/// How far each edge of a rectangle is to move relative to a reference
/// rectangle, as four lengths. A positive length is an edge that lies, or
/// is to move, inwards; a negative one, outwards.
#[derive(Debug, Clone, Copy, PartialEq, Eq)]
pub struct RectDelta {
    /// The delta in x-coordinates on the left of the rectangle.
    pub left: LengthValue,
    /// The delta in y-coordinates on the top of the rectangle.
    pub top: LengthValue,
    /// The delta in x-coordinates on the right of the rectangle.
    pub right: LengthValue,
    /// The delta in y-coordinates on the bottom of the rectangle.
    pub bottom: LengthValue,
}

impl RectDelta {
    /// The four lengths in pixels for a rectangle of the given size: the
    /// horizontal ones against `width`, the vertical ones against `height`.
    pub open spec fn px(self, width: int, height: int, scale_factor: Option<Ratio>) -> EdgeOffsets {
        EdgeOffsets {
            left: self.left.px(width, scale_factor),
            top: self.top.px(height, scale_factor),
            right: self.right.px(width, scale_factor),
            bottom: self.bottom.px(height, scale_factor),
        }
    }

    /// Whether each of the four lengths is an absolute amount of pixels,
    /// none a share of a reference dimension.
    pub open spec fn is_absolute(self) -> bool {
        &&& self.left.unit == LengthUnit::Pixel
        &&& self.top.unit == LengthUnit::Pixel
        &&& self.right.unit == LengthUnit::Pixel
        &&& self.bottom.unit == LengthUnit::Pixel
    }

    /// Whether each of the four lengths is a whole number of pixels.
    pub open spec fn is_whole_px(self) -> bool {
        &&& self.left.is_whole_px()
        &&& self.top.is_whole_px()
        &&& self.right.is_whole_px()
        &&& self.bottom.is_whole_px()
    }

    /// Whether each of the four amounts is a well-formed fraction.
    pub open spec fn wf(self) -> bool {
        &&& self.left.amount.wf()
        &&& self.top.amount.wf()
        &&& self.right.amount.wf()
        &&& self.bottom.amount.wf()
    }

    #[must_use]
    pub fn new(left: LengthValue, top: LengthValue, right: LengthValue, bottom: LengthValue) -> (r:
        RectDelta)
        ensures
            r.left == left,
            r.top == top,
            r.right == right,
            r.bottom == bottom,
    {
        RectDelta { left, top, right, bottom }
    }
}

} // verus!
