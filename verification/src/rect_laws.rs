//! Laws of the rectangle arithmetic, stated over the mathematical model
//! and so of every rectangle, degenerate ones and those of negative size
//! included.

use vstd::prelude::*;

use crate::direction::Direction;
use crate::length_value::Ratio;
use crate::rect::{Rect, Region};
use crate::rect_delta::{EdgeOffsets, RectDelta};

verus! {

/// Whatever the two rectangles, the result of `clamp_within_bounds` lies
/// within the outer one: no edge of it is beyond the matching edge of
/// `outer`.
pub proof fn lemma_clamp_within_bounds_is_within(rect: Region, outer: Region)
    ensures
        rect.clamp_within_bounds(outer).left >= outer.left,
        rect.clamp_within_bounds(outer).top >= outer.top,
        rect.clamp_within_bounds(outer).right <= outer.right,
        rect.clamp_within_bounds(outer).bottom <= outer.bottom,
        rect.clamp_within_bounds(outer).is_within(outer),
{
}

/// `clamp_within_bounds` of two rectangles whose edges fit in an `i32`
/// has edges that fit in an `i32`: the operation is total on [`Rect`].
///
/// [`Rect`]: crate::rect::Rect
pub proof fn lemma_clamp_within_bounds_representable(rect: Region, outer: Region)
    requires
        rect.representable(),
        outer.representable(),
    ensures
        rect.clamp_within_bounds(outer).representable(),
{
}

/// A rectangle that lies within the outer one is left as it is, and the
/// result of `clamp_within_bounds` is never changed by a second pass.
pub proof fn lemma_clamp_within_bounds_fixes_contained(rect: Region, outer: Region)
    ensures
        rect.is_within(outer) ==> rect.clamp_within_bounds(outer) == rect,
        rect.clamp_within_bounds(outer).clamp_within_bounds(outer) == rect.clamp_within_bounds(
            outer,
        ),
{
}

/// `clamp_within_bounds` never enlarges: each dimension of the result is
/// the smaller of the two rectangles' own.
pub proof fn lemma_clamp_within_bounds_size(rect: Region, outer: Region)
    ensures
        rect.clamp_within_bounds(outer).width() == vstd::math::min(rect.width(), outer.width()),
        rect.clamp_within_bounds(outer).height() == vstd::math::min(rect.height(), outer.height()),
{
}

/// `clamp` guards the near edges and caps the size, and promises no more:
/// the far edges stay within `outer` where the origin did not lie before
/// that of `outer`, and may lie beyond it otherwise.
pub proof fn lemma_clamp_near_edges(rect: Region, outer: Region)
    ensures
        rect.clamp(outer).left >= outer.left,
        rect.clamp(outer).top >= outer.top,
        rect.clamp(outer).width() <= outer.width(),
        rect.clamp(outer).height() <= outer.height(),
        rect.left <= outer.left ==> rect.clamp(outer).right <= outer.right,
        rect.top <= outer.top ==> rect.clamp(outer).bottom <= outer.bottom,
{
}

/// `clamp` of two rectangles whose edges fit in an `i32` has edges that
/// fit in an `i32`.
pub proof fn lemma_clamp_representable(rect: Region, outer: Region)
    requires
        rect.representable(),
        outer.representable(),
    ensures
        rect.clamp(outer).representable(),
{
}

/// The three translations keep the size.
pub proof fn lemma_translations_keep_size(
    rect: Region,
    outer: Region,
    x: int,
    y: int,
    direction: Direction,
    distance: int,
)
    ensures
        rect.translate_to_coordinates(x, y).width() == rect.width(),
        rect.translate_to_coordinates(x, y).height() == rect.height(),
        rect.translate_to_center(outer).width() == rect.width(),
        rect.translate_to_center(outer).height() == rect.height(),
        rect.translate_in_direction(direction, distance).width() == rect.width(),
        rect.translate_in_direction(direction, distance).height() == rect.height(),
{
}

/// The center of a rectangle of nonnegative size lies inside it.
pub proof fn lemma_center_point_inside(rect: Region)
    requires
        rect.width() >= 0,
        rect.height() >= 0,
    ensures
        rect.contains_point(rect.center_point()),
{
}

/// The delta from `a` to `b`, applied to `a`, gives `b`, whatever the two
/// rectangles; and applied inversely to `b` it gives `a` back.
pub proof fn lemma_delta_inverse(a: Region, b: Region)
    ensures
        a.apply_delta(a.delta(b)) == b,
        b.apply_inverse_delta(a.delta(b)) == a,
{
}

/// What `delta` returns for the rectangles `a` and `b` is a delta that
/// comes to the same pixels whatever the size it is taken against.
/// Applied to `a` without a scale factor it gives `b`, exactly: nothing is
/// rounded, and the edges of the result fit in an `i32` because they are
/// those of `b`. Applied inversely to `b` it gives `a` back.
pub proof fn lemma_delta_inverse_on_rects(a: Rect, b: Rect, delta: RectDelta)
    requires
        forall|width: int, height: int| #[trigger]
            delta.px(width, height, None) == a@.delta(b@),
    ensures
        a@.apply_delta(delta.px(a@.width(), a@.height(), None)) == b@,
        a@.apply_delta(delta.px(a@.width(), a@.height(), None)).representable(),
        b@.apply_inverse_delta(delta.px(b@.width(), b@.height(), None)) == a@,
        b@.apply_inverse_delta(delta.px(b@.width(), b@.height(), None)).representable(),
{
    assert(delta.px(a@.width(), a@.height(), None) == a@.delta(b@));
    assert(delta.px(b@.width(), b@.height(), None) == a@.delta(b@));
}

/// A delta of nothing changes nothing, in either direction.
pub proof fn lemma_zero_delta(rect: Region)
    ensures
        rect.apply_delta(rect.delta(rect)) == rect,
        rect.apply_inverse_delta(rect.delta(rect)) == rect,
{
}

/// Moving the edges inwards and outwards by the same offsets are inverse
/// to each other.
pub proof fn lemma_apply_delta_inverse(rect: Region, offsets: EdgeOffsets)
    ensures
        rect.apply_delta(offsets).apply_inverse_delta(offsets) == rect,
        rect.apply_inverse_delta(offsets).apply_delta(offsets) == rect,
{
}

/// A delta of absolute lengths comes to the same pixels whatever the
/// rectangle it is applied to, so that with one scale factor
/// `apply_inverse_delta` undoes `apply_delta` exactly, and the other way
/// round. A delta that holds a share of the width or height is taken
/// against a different size the second time, and need not be undone.
pub proof fn lemma_absolute_delta_round_trip(
    rect: Region,
    delta: RectDelta,
    scale_factor: Option<Ratio>,
)
    requires
        delta.is_absolute(),
    ensures
        ({
            let shrunk = rect.apply_delta(delta.px(rect.width(), rect.height(), scale_factor));
            shrunk.apply_inverse_delta(delta.px(shrunk.width(), shrunk.height(), scale_factor))
                == rect
        }),
        ({
            let grown = rect.apply_inverse_delta(
                delta.px(rect.width(), rect.height(), scale_factor),
            );
            grown.apply_delta(delta.px(grown.width(), grown.height(), scale_factor)) == rect
        }),
{
}

/// A delta of whole pixels comes without a scale factor to exactly the
/// pixels it holds: nothing is rounded.
pub proof fn lemma_whole_px_delta(delta: RectDelta, width: int, height: int)
    requires
        delta.is_whole_px(),
        delta.wf(),
    ensures
        delta.px(width, height, None).left == delta.left.amount@.0,
        delta.px(width, height, None).top == delta.top.amount@.0,
        delta.px(width, height, None).right == delta.right.amount@.0,
        delta.px(width, height, None).bottom == delta.bottom.amount@.0,
{
    delta.left.amount.lemma_terms_bounded();
    delta.top.amount.lemma_terms_bounded();
    delta.right.amount.lemma_terms_bounded();
    delta.bottom.amount.lemma_terms_bounded();
}

/// Overlap on an axis is symmetric, and a rectangle of positive size
/// overlaps itself.
pub proof fn lemma_overlap_symmetric(a: Region, b: Region)
    ensures
        a.has_overlap_x(b) == b.has_overlap_x(a),
        a.has_overlap_y(b) == b.has_overlap_y(a),
        a.width() > 0 ==> a.has_overlap_x(a),
        a.height() > 0 ==> a.has_overlap_y(a),
{
}

/// Rectangles that touch along an edge do not overlap on that axis.
pub proof fn lemma_touching_is_no_overlap(a: Region, b: Region)
    ensures
        a.right == b.left ==> !a.has_overlap_x(b),
        a.bottom == b.top ==> !a.has_overlap_y(b),
{
}

} // verus!
