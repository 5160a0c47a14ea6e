use vstd::prelude::*;

use crate::direction::Direction;
use crate::length_value::{LengthValue, Ratio};
use crate::point::Point;
use crate::rect_delta::{EdgeOffsets, RectDelta};
use crate::rounding::{div_toward_zero, fits_i32};
use vstd::math::{abs, max, min};

verus! {

/// An axis-aligned rectangle over the unbounded integers: the mathematical
/// value that a [`Rect`] stands for, and the domain over which the geometry
/// is specified. Nothing asks that `right >= left` or `bottom >= top`;
/// a rectangle of negative size is a value like any other.
pub struct Region {
    pub left: int,
    pub top: int,
    pub right: int,
    pub bottom: int,
}

impl Region {
    /// The rectangle with origin `(x, y)` and the given size.
    pub open spec fn from_xy(x: int, y: int, width: int, height: int) -> Region {
        Region { left: x, top: y, right: x + width, bottom: y + height }
    }

    pub open spec fn width(self) -> int {
        self.right - self.left
    }

    pub open spec fn height(self) -> int {
        self.bottom - self.top
    }

    /// Whether all four edges fit in an `i32`, that is, whether some
    /// [`Rect`] has this value.
    pub open spec fn representable(self) -> bool {
        &&& fits_i32(self.left)
        &&& fits_i32(self.top)
        &&& fits_i32(self.right)
        &&& fits_i32(self.bottom)
    }

    /// Whether this rectangle lies inside `outer`, edges included.
    pub open spec fn is_within(self, outer: Region) -> bool {
        &&& outer.left <= self.left
        &&& outer.top <= self.top
        &&& self.right <= outer.right
        &&& self.bottom <= outer.bottom
    }

    /// Same size, origin moved to `(x, y)`.
    pub open spec fn translate_to_coordinates(self, x: int, y: int) -> Region {
        Region::from_xy(x, y, self.width(), self.height())
    }

    /// Same size, placed so that the centers of the two rectangles agree up
    /// to the rounding of each half size towards zero.
    pub open spec fn translate_to_center(self, outer: Region) -> Region {
        self.translate_to_coordinates(
            outer.left + div_toward_zero(outer.width(), 2) - div_toward_zero(self.width(), 2),
            outer.top + div_toward_zero(outer.height(), 2) - div_toward_zero(self.height(), 2),
        )
    }

    /// Same size, shifted by `distance` pixels in `direction`.
    pub open spec fn translate_in_direction(self, direction: Direction, distance: int) -> Region {
        Region {
            left: self.left + direction.step_x() * distance,
            top: self.top + direction.step_y() * distance,
            right: self.right + direction.step_x() * distance,
            bottom: self.bottom + direction.step_y() * distance,
        }
    }

    /// Origin raised to at least that of `outer` on each axis, size capped
    /// by that of `outer`. The far edges may still lie beyond `outer`.
    pub open spec fn clamp(self, outer: Region) -> Region {
        Region::from_xy(
            max(self.left, outer.left),
            max(self.top, outer.top),
            min(self.width(), outer.width()),
            min(self.height(), outer.height()),
        )
    }

    /// Size capped by that of `outer`, then moved the least distance that
    /// brings the far edges inside `outer`, then the near edges.
    pub open spec fn clamp_within_bounds(self, outer: Region) -> Region {
        let width = min(self.width(), outer.width());
        let height = min(self.height(), outer.height());
        Region::from_xy(
            max(outer.left, min(self.left, outer.right - width)),
            max(outer.top, min(self.top, outer.bottom - height)),
            width,
            height,
        )
    }

    /// Same origin, size capped by `width` and `height`.
    pub open spec fn clamp_size(self, width: int, height: int) -> Region {
        Region::from_xy(
            self.left,
            self.top,
            min(self.width(), width),
            min(self.height(), height),
        )
    }

    /// The center, each half size rounded towards zero.
    pub open spec fn center_point(self) -> (int, int) {
        (
            self.left + div_toward_zero(self.width(), 2),
            self.top + div_toward_zero(self.height(), 2),
        )
    }

    /// Whether the horizontal extents share more than an edge.
    pub open spec fn has_overlap_x(self, other: Region) -> bool {
        self.right > other.left && other.right > self.left
    }

    /// Whether the vertical extents share more than an edge.
    pub open spec fn has_overlap_y(self, other: Region) -> bool {
        self.bottom > other.top && other.bottom > self.top
    }

    /// Whether `point` lies inside, all four edges included.
    pub open spec fn contains_point(self, point: (int, int)) -> bool {
        &&& self.left <= point.0 <= self.right
        &&& self.top <= point.1 <= self.bottom
    }

    /// How far each edge of `other` lies inside the matching edge of this
    /// rectangle.
    pub open spec fn delta(self, other: Region) -> EdgeOffsets {
        EdgeOffsets {
            left: other.left - self.left,
            top: other.top - self.top,
            right: self.right - other.right,
            bottom: self.bottom - other.bottom,
        }
    }

    /// Each edge moved inwards by its offset, so that the delta to a
    /// rectangle, applied, gives that rectangle.
    pub open spec fn apply_delta(self, offsets: EdgeOffsets) -> Region {
        Region {
            left: self.left + offsets.left,
            top: self.top + offsets.top,
            right: self.right - offsets.right,
            bottom: self.bottom - offsets.bottom,
        }
    }

    /// Each edge moved outwards by its offset: what undoes
    /// [`Self::apply_delta`].
    pub open spec fn apply_inverse_delta(self, offsets: EdgeOffsets) -> Region {
        Region {
            left: self.left - offsets.left,
            top: self.top - offsets.top,
            right: self.right + offsets.right,
            bottom: self.bottom + offsets.bottom,
        }
    }

    /// The horizontal distance from `x` to the vertical edge that is
    /// farther from it.
    pub open spec fn farthest_span_x(self, x: int) -> int {
        max(abs(self.left - x) as int, abs(self.right - x) as int)
    }

    /// The vertical distance from `y` to the horizontal edge that is
    /// farther from it.
    pub open spec fn farthest_span_y(self, y: int) -> int {
        max(abs(self.top - y) as int, abs(self.bottom - y) as int)
    }

    /// The square of the Euclidean distance from `point` to the corner
    /// that is farthest from it.
    pub open spec fn squared_distance_to_point(self, point: (int, int)) -> int {
        self.farthest_span_x(point.0) * self.farthest_span_x(point.0) + self.farthest_span_y(
            point.1,
        ) * self.farthest_span_y(point.1)
    }
}

/// An axis-aligned rectangle in pixels, given by its four edges.
#[derive(Debug, Clone, Copy, PartialEq, Eq, Structural)]
pub struct Rect {
    /// X-coordinate of the left edge of the rectangle.
    pub left: i32,
    /// Y-coordinate of the top edge of the rectangle.
    pub top: i32,
    /// X-coordinate of the right edge of the rectangle.
    pub right: i32,
    /// Y-coordinate of the bottom edge of the rectangle.
    pub bottom: i32,
}

impl View for Rect {
    type V = Region;

    open spec fn view(&self) -> Region {
        Region {
            left: self.left as int,
            top: self.top as int,
            right: self.right as int,
            bottom: self.bottom as int,
        }
    }
}

impl Rect {
    /// Creates a new `Rect` instance from the coordinates of its left, top,
    /// right, and bottom edges.
    #[must_use]
    pub fn from_ltrb(left: i32, top: i32, right: i32, bottom: i32) -> (r: Rect)
        ensures
            r.left == left,
            r.top == top,
            r.right == right,
            r.bottom == bottom,
    {
        Rect { left, top, right, bottom }
    }

    /// Creates a new `Rect` instance from its X/Y coordinates and size. The
    /// far edges `x + width` and `y + height` have to fit in an `i32`.
    #[must_use]
    pub fn from_xy(x: i32, y: i32, width: i32, height: i32) -> (r: Rect)
        requires
            Region::from_xy(x as int, y as int, width as int, height as int).representable(),
        ensures
            r@ == Region::from_xy(x as int, y as int, width as int, height as int),
    {
        Rect { left: x, top: y, right: x + width, bottom: y + height }
    }

    /// The rectangle with the given edges, each of which has to fit in an
    /// `i32`.
    fn from_wide(left: i64, top: i64, right: i64, bottom: i64) -> (r: Rect)
        requires
            (Region { left: left as int, top: top as int, right: right as int, bottom: bottom as int })
                .representable(),
        ensures
            r@ == (Region {
                left: left as int,
                top: top as int,
                right: right as int,
                bottom: bottom as int,
            }),
    {
        Rect { left: left as i32, top: top as i32, right: right as i32, bottom: bottom as i32 }
    }

    #[must_use]
    pub fn x(&self) -> (r: i32)
        ensures
            r == self@.left,
    {
        self.left
    }

    #[must_use]
    pub fn y(&self) -> (r: i32)
        ensures
            r == self@.top,
    {
        self.top
    }

    /// The width `right - left`, which has to fit in an `i32`.
    #[must_use]
    pub fn width(&self) -> (r: i32)
        requires
            fits_i32(self@.width()),
        ensures
            r == self@.width(),
    {
        self.right - self.left
    }

    /// The height `bottom - top`, which has to fit in an `i32`.
    #[must_use]
    pub fn height(&self) -> (r: i32)
        requires
            fits_i32(self@.height()),
        ensures
            r == self@.height(),
    {
        self.bottom - self.top
    }

    /// The width as a wide integer; it always fits.
    fn wide_width(&self) -> (r: i64)
        ensures
            r == self@.width(),
    {
        self.right as i64 - self.left as i64
    }

    /// The height as a wide integer; it always fits.
    fn wide_height(&self) -> (r: i64)
        ensures
            r == self@.height(),
    {
        self.bottom as i64 - self.top as i64
    }

    /// Moves the origin to `(x, y)` and keeps the size. The far edges of
    /// the result have to fit in an `i32`.
    #[must_use]
    pub fn translate_to_coordinates(&self, x: i32, y: i32) -> (r: Rect)
        requires
            self@.translate_to_coordinates(x as int, y as int).representable(),
        ensures
            r@ == self@.translate_to_coordinates(x as int, y as int),
    {
        Rect::from_wide(
            x as i64,
            y as i64,
            x as i64 + self.wide_width(),
            y as i64 + self.wide_height(),
        )
    }

    /// Centers this rectangle inside `outer_rect` and keeps its size. The
    /// edges of the result have to fit in an `i32`.
    #[must_use]
    pub fn translate_to_center(&self, outer_rect: &Rect) -> (r: Rect)
        requires
            self@.translate_to_center(outer_rect@).representable(),
        ensures
            r@ == self@.translate_to_center(outer_rect@),
    {
        let x: i64 = outer_rect.left as i64 + outer_rect.wide_width() / 2 - self.wide_width() / 2;
        let y: i64 = outer_rect.top as i64 + outer_rect.wide_height() / 2 - self.wide_height() / 2;
        Rect::from_wide(x, y, x + self.wide_width(), y + self.wide_height())
    }

    /// Shifts the rectangle by `distance` pixels in `direction` and keeps
    /// its size. The edges of the result have to fit in an `i32`.
    #[must_use]
    pub fn translate_in_direction(&self, direction: &Direction, distance: i32) -> (r: Rect)
        requires
            self@.translate_in_direction(*direction, distance as int).representable(),
        ensures
            r@ == self@.translate_in_direction(*direction, distance as int),
    {
        let (delta_x, delta_y): (i64, i64) = match direction {
            Direction::Up => (0, -(distance as i64)),
            Direction::Down => (0, distance as i64),
            Direction::Left => (-(distance as i64), 0),
            Direction::Right => (distance as i64, 0),
        };
        Rect::from_wide(
            self.left as i64 + delta_x,
            self.top as i64 + delta_y,
            self.right as i64 + delta_x,
            self.bottom as i64 + delta_y,
        )
    }

    /// Returns a new `Rect` whose origin is raised to at least the origin
    /// of the outer rectangle and whose size is capped by the size of the
    /// outer rectangle. The far edges may still lie beyond the outer
    /// rectangle.
    #[must_use]
    pub fn clamp(&self, outer_rect: &Rect) -> (r: Rect)
        ensures
            r@ == self@.clamp(outer_rect@),
    {
        let x: i64 = self.left.max(outer_rect.left) as i64;
        let y: i64 = self.top.max(outer_rect.top) as i64;
        let width: i64 = self.wide_width().min(outer_rect.wide_width());
        let height: i64 = self.wide_height().min(outer_rect.wide_height());
        Rect::from_wide(x, y, x + width, y + height)
    }

    /// Returns a new `Rect` that is strictly constrained within the bounds
    /// of the given outer rectangle. If the window would extend beyond the
    /// bounds, it is repositioned to fit entirely within the outer
    /// rectangle. Keeps the width and height where the outer rectangle has
    /// room for them.
    #[must_use]
    pub fn clamp_within_bounds(&self, outer_rect: &Rect) -> (r: Rect)
        ensures
            r@ == self@.clamp_within_bounds(outer_rect@),
            r@.is_within(outer_rect@),
    {
        let clamped_width: i64 = self.wide_width().min(outer_rect.wide_width());
        let clamped_height: i64 = self.wide_height().min(outer_rect.wide_height());

        let mut x: i64 = self.left as i64;
        let mut y: i64 = self.top as i64;

        // Ensure window doesn't overflow right edge
        if x + clamped_width > outer_rect.right as i64 {
            x = outer_rect.right as i64 - clamped_width;
        }
        // Ensure window doesn't overflow bottom edge
        if y + clamped_height > outer_rect.bottom as i64 {
            y = outer_rect.bottom as i64 - clamped_height;
        }
        // Ensure window doesn't underflow left/top edges
        x = x.max(outer_rect.left as i64);
        y = y.max(outer_rect.top as i64);

        Rect::from_wide(x, y, x + clamped_width, y + clamped_height)
    }

    /// Keeps the origin and caps the size by `width` and `height`. The far
    /// edges of the result have to fit in an `i32`.
    #[must_use]
    pub fn clamp_size(&self, width: i32, height: i32) -> (r: Rect)
        requires
            self@.clamp_size(width as int, height as int).representable(),
        ensures
            r@ == self@.clamp_size(width as int, height as int),
    {
        let capped_width: i64 = self.wide_width().min(width as i64);
        let capped_height: i64 = self.wide_height().min(height as i64);
        Rect::from_wide(
            self.left as i64,
            self.top as i64,
            self.left as i64 + capped_width,
            self.top as i64 + capped_height,
        )
    }

    /// The center of the rectangle, each half size rounded towards zero.
    #[must_use]
    pub fn center_point(&self) -> (r: Point)
        ensures
            r@ == self@.center_point(),
    {
        let x: i64 = self.left as i64 + self.wide_width() / 2;
        let y: i64 = self.top as i64 + self.wide_height() / 2;
        Point { x: x as i32, y: y as i32 }
    }

    /// Gets the delta between this rect and another rect: how far each
    /// edge of `other` lies inside the matching edge of this one, in whole
    /// pixels. Each of the four differences has to fit in an `i32`.
    #[must_use]
    pub fn delta(&self, other: &Rect) -> (r: RectDelta)
        requires
            fits_i32(self@.delta(other@).left),
            fits_i32(self@.delta(other@).top),
            fits_i32(self@.delta(other@).right),
            fits_i32(self@.delta(other@).bottom),
        ensures
            r.wf(),
            r.is_whole_px(),
            forall|width: int, height: int| #[trigger]
                r.px(width, height, None) == self@.delta(other@),
    {
        RectDelta {
            left: LengthValue::from_px(other.left - self.left),
            top: LengthValue::from_px(other.top - self.top),
            right: LengthValue::from_px(self.right - other.right),
            bottom: LengthValue::from_px(self.bottom - other.bottom),
        }
    }

    /// Moves each edge inwards by the matching length of `delta`, taken in
    /// pixels against this rectangle's own width and height; a negative
    /// length moves its edge outwards. With the delta from this rectangle
    /// to another one, in whole pixels and without a scale factor, the
    /// result is that other rectangle. The edges of the result have to fit
    /// in an `i32`.
    #[must_use]
    pub fn apply_delta(&self, delta: &RectDelta, scale_factor: Option<Ratio>) -> (r: Rect)
        requires
            self@.apply_delta(
                delta.px(self@.width(), self@.height(), scale_factor),
            ).representable(),
        ensures
            r@ == self@.apply_delta(delta.px(self@.width(), self@.height(), scale_factor)),
    {
        let width: i64 = self.wide_width();
        let height: i64 = self.wide_height();
        Rect::from_wide(
            self.left as i64 + delta.left.resolve(width, scale_factor) as i64,
            self.top as i64 + delta.top.resolve(height, scale_factor) as i64,
            self.right as i64 - delta.right.resolve(width, scale_factor) as i64,
            self.bottom as i64 - delta.bottom.resolve(height, scale_factor) as i64,
        )
    }

    /// Moves each edge outwards by the matching length of `delta`, taken in
    /// pixels against this rectangle's own width and height; a negative
    /// length moves its edge inwards. This undoes `apply_delta` of a delta
    /// of absolute lengths with the same scale factor. The edges of the
    /// result have to fit in an `i32`.
    #[must_use]
    pub fn apply_inverse_delta(&self, delta: &RectDelta, scale_factor: Option<Ratio>) -> (r: Rect)
        requires
            self@.apply_inverse_delta(
                delta.px(self@.width(), self@.height(), scale_factor),
            ).representable(),
        ensures
            r@ == self@.apply_inverse_delta(delta.px(self@.width(), self@.height(), scale_factor)),
    {
        let width: i64 = self.wide_width();
        let height: i64 = self.wide_height();
        Rect::from_wide(
            self.left as i64 - delta.left.resolve(width, scale_factor) as i64,
            self.top as i64 - delta.top.resolve(height, scale_factor) as i64,
            self.right as i64 + delta.right.resolve(width, scale_factor) as i64,
            self.bottom as i64 + delta.bottom.resolve(height, scale_factor) as i64,
        )
    }

    /// Gets whether the x-coordinate overlaps with the x-coordinate of the
    /// other rect. Rectangles that merely touch do not overlap.
    #[must_use]
    pub fn has_overlap_x(&self, other: &Rect) -> (r: bool)
        ensures
            r == self@.has_overlap_x(other@),
    {
        !(self.right <= other.left || other.right <= self.left)
    }

    /// Gets whether the y-coordinate overlaps with the y-coordinate of the
    /// other rect. Rectangles that merely touch do not overlap.
    #[must_use]
    pub fn has_overlap_y(&self, other: &Rect) -> (r: bool)
        ensures
            r == self@.has_overlap_y(other@),
    {
        !(self.bottom <= other.top || other.bottom <= self.top)
    }

    /// Whether the point lies inside the rectangle, edges included.
    #[must_use]
    pub fn contains_point(&self, point: &Point) -> (r: bool)
        ensures
            r == self@.contains_point(point@),
    {
        let is_in_x = point.x >= self.left && point.x <= self.right;
        let is_in_y = point.y >= self.top && point.y <= self.bottom;
        is_in_x && is_in_y
    }

    /// The distance from `point` to the edge of the interval `[low, high]`
    /// that is farther from it.
    fn farthest_span(low: i32, high: i32, point: i32) -> (r: u64)
        ensures
            r == max(abs(low - point) as int, abs(high - point) as int),
            r <= 0xffff_ffff,
    {
        let to_low: i64 = low as i64 - point as i64;
        let to_high: i64 = high as i64 - point as i64;
        let to_low: i64 = if to_low < 0 { -to_low } else { to_low };
        let to_high: i64 = if to_high < 0 { -to_high } else { to_high };
        to_low.max(to_high) as u64
    }

    /// The square of the distance from `point` to the corner of the
    /// rectangle that is farthest from it. The square orders points as the
    /// distance itself does.
    #[must_use]
    pub fn squared_distance_to_point(&self, point: &Point) -> (r: u128)
        ensures
            r == self@.squared_distance_to_point(point@),
    {
        let dx: u128 = Rect::farthest_span(self.left, self.right, point.x) as u128;
        let dy: u128 = Rect::farthest_span(self.top, self.bottom, point.y) as u128;
        assert(dx * dx <= 0xffff_ffff * 0xffff_ffff) by (nonlinear_arith)
            requires
                0 <= dx <= 0xffff_ffff,
        ;
        assert(dy * dy <= 0xffff_ffff * 0xffff_ffff) by (nonlinear_arith)
            requires
                0 <= dy <= 0xffff_ffff,
        ;
        dx * dx + dy * dy
    }
}

} // verus!
