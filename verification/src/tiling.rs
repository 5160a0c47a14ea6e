//! The placement of one tiling container inside its parent, as a function
//! of plain values: the parent's rectangle, the tiling axis, the gap, the
//! number of siblings, the share asked for, and where the previous sibling
//! ends.

use vstd::prelude::*;

use crate::direction::TilingDirection;
use crate::rect::{Rect, Region};
use crate::rounding::{div_nearest, lemma_div_nearest, lemma_div_nearest_bounded};
use crate::tiling_size::TilingSize;

verus! {

impl Region {
    /// The near edge along the tiling axis: the top for `Vertical`, the
    /// left for `Horizontal`.
    pub open spec fn primary_start(self, direction: TilingDirection) -> int {
        match direction {
            TilingDirection::Vertical => self.top,
            TilingDirection::Horizontal => self.left,
        }
    }

    /// The far edge along the tiling axis: the bottom for `Vertical`, the
    /// right for `Horizontal`.
    pub open spec fn primary_end(self, direction: TilingDirection) -> int {
        match direction {
            TilingDirection::Vertical => self.bottom,
            TilingDirection::Horizontal => self.right,
        }
    }

    /// The size along the tiling axis: the height for `Vertical`, the
    /// width for `Horizontal`.
    pub open spec fn primary_size(self, direction: TilingDirection) -> int {
        self.primary_end(direction) - self.primary_start(direction)
    }

    /// The rectangle that spans `start` to `end` along the tiling axis and
    /// all of this rectangle across it.
    pub open spec fn slice(self, direction: TilingDirection, start: int, end: int) -> Region {
        match direction {
            TilingDirection::Vertical => Region {
                left: self.left,
                top: start,
                right: self.right,
                bottom: end,
            },
            TilingDirection::Horizontal => Region {
                left: start,
                top: self.top,
                right: end,
                bottom: self.bottom,
            },
        }
    }
}

/// The gap between neighbours along the given axis: the vertical gap for
/// `Vertical`, the horizontal one otherwise.
pub open spec fn inner_gap(
    direction: TilingDirection,
    horizontal_gap: int,
    vertical_gap: int,
) -> int {
    match direction {
        TilingDirection::Vertical => vertical_gap,
        TilingDirection::Horizontal => horizontal_gap,
    }
}

/// The parent's space along the tiling axis that is left for its tiling
/// children once the gaps between them are taken out. `sibling_count` is
/// the number of tiling children but one.
pub open spec fn available_space(
    parent: Region,
    direction: TilingDirection,
    gap: int,
    sibling_count: int,
) -> int {
    parent.primary_size(direction) - gap * sibling_count
}

/// The size along the tiling axis that a share of the available space
/// comes to: the product rounded to the nearest pixel, a half going away
/// from zero.
pub open spec fn provisional_size(available: int, tiling_size: TilingSize) -> int {
    div_nearest(available * tiling_size@.0, tiling_size@.1)
}

/// Where a tiling container starts along the tiling axis: at the parent's
/// near edge if it is the first, else one gap behind the far edge of the
/// tiling sibling before it.
pub open spec fn tile_start(
    parent: Region,
    direction: TilingDirection,
    gap: int,
    prev_sibling: Option<Region>,
) -> int {
    match prev_sibling {
        None => parent.primary_start(direction),
        Some(sibling) => sibling.primary_end(direction) + gap,
    }
}

/// Where a tiling container ends along the tiling axis: the last one at
/// the parent's far edge, whatever that makes its size; any other one its
/// provisional size behind its start.
pub open spec fn tile_end(
    parent: Region,
    direction: TilingDirection,
    gap: int,
    sibling_count: int,
    tiling_size: TilingSize,
    prev_sibling: Option<Region>,
    is_last: bool,
) -> int {
    if is_last {
        parent.primary_end(direction)
    } else {
        tile_start(parent, direction, gap, prev_sibling) + provisional_size(
            available_space(parent, direction, gap, sibling_count),
            tiling_size,
        )
    }
}

/// The rectangle of a tiling container: from its start to its end along
/// the tiling axis, and all of the parent across it.
pub open spec fn tile_region(
    parent: Region,
    direction: TilingDirection,
    gap: int,
    sibling_count: int,
    tiling_size: TilingSize,
    prev_sibling: Option<Region>,
    is_last: bool,
) -> Region {
    parent.slice(
        direction,
        tile_start(parent, direction, gap, prev_sibling),
        tile_end(parent, direction, gap, sibling_count, tiling_size, prev_sibling, is_last),
    )
}

/// The view of an optional rectangle.
pub open spec fn region_of(rect: Option<Rect>) -> Option<Region> {
    match rect {
        None => None,
        Some(rect) => Some(rect@),
    }
}

/// A share of a space of `2^64` pixels or more comes to `2^32` pixels or
/// more, in the same direction.
proof fn lemma_provisional_size_of_huge_space(available: int, tiling_size: TilingSize)
    requires
        tiling_size.wf(),
        available >= 0x1_0000_0000_0000_0000 || available <= -0x1_0000_0000_0000_0000,
    ensures
        available > 0 ==> provisional_size(available, tiling_size) >= 0x1_0000_0000,
        available < 0 ==> provisional_size(available, tiling_size) <= -0x1_0000_0000,
{
    tiling_size.lemma_terms_bounded();
    let n = tiling_size@.0;
    let d = tiling_size@.1;
    let p = available * n;
    let q = div_nearest(p, d);
    lemma_div_nearest(p, d);
    if available > 0 {
        assert(p >= available) by (nonlinear_arith)
            requires
                p == available * n,
                n >= 1,
                available > 0,
        ;
        if q < 0x1_0000_0000 {
            assert(2 * d * q + d <= 2 * d * 0xffff_ffff + d) by (nonlinear_arith)
                requires
                    d > 0,
                    q <= 0xffff_ffff,
            ;
            assert(2 * d * 0xffff_ffff + d < 0x2_0000_0000_0000_0000) by (nonlinear_arith)
                requires
                    0 < d <= 0xffff_ffff,
            ;
        }
    } else {
        assert(p <= available) by (nonlinear_arith)
            requires
                p == available * n,
                n >= 1,
                available < 0,
        ;
        if q > -0x1_0000_0000 {
            assert(2 * d * q - d >= 2 * d * (-0xffff_ffff) - d) by (nonlinear_arith)
                requires
                    d > 0,
                    q >= -0xffff_ffff,
            ;
            assert(2 * d * (-0xffff_ffff) - d > -0x2_0000_0000_0000_0000) by (nonlinear_arith)
                requires
                    0 < d <= 0xffff_ffff,
            ;
        }
    }
}

/// The provisional size of a tiling container, or `None` where the space
/// is so large that no share of it fits next to an `i32` coordinate.
fn checked_provisional_size(
    parent_size: i64,
    gap: i32,
    sibling_count: usize,
    tiling_size: TilingSize,
) -> (r: Option<i128>)
    requires
        -0x1_0000_0000 <= parent_size <= 0x1_0000_0000,
    ensures
        match r {
            Some(size) => {
                &&& size == provisional_size(parent_size - gap * sibling_count, tiling_size)
                &&& -0x1_0000_0000_0000_0000_0000_0000 <= size
                    <= 0x1_0000_0000_0000_0000_0000_0000
            },
            None => {
                let size = provisional_size(parent_size - gap * sibling_count, tiling_size);
                size >= 0x1_0000_0000 || size <= -0x1_0000_0000
            },
        },
{
    let numer: i128 = tiling_size.numer() as i128;
    let denom: i128 = tiling_size.denom() as i128;
    let count: i128 = sibling_count as i128;
    assert(-0x8000_0000_0000_0000_0000_0000 <= gap * count <= 0x8000_0000_0000_0000_0000_0000)
        by (nonlinear_arith)
        requires
            -0x8000_0000 <= gap <= 0x8000_0000,
            0 <= count <= 0x1_0000_0000_0000_0000,
    ;
    let available: i128 = parent_size as i128 - (gap as i128) * count;
    if available >= 0x1_0000_0000_0000_0000 || available <= -0x1_0000_0000_0000_0000 {
        proof {
            use_type_invariant(tiling_size);
            lemma_provisional_size_of_huge_space(available as int, tiling_size);
        }
        return None;
    }
    assert(-0x1_0000_0000_0000_0000_0000_0000 <= available * numer
        <= 0x1_0000_0000_0000_0000_0000_0000) by (nonlinear_arith)
        requires
            -0x1_0000_0000_0000_0000 <= available <= 0x1_0000_0000_0000_0000,
            0 <= numer <= 0x1_0000_0000,
    ;
    let product: i128 = available * numer;
    let size: i128 = if product >= 0 {
        (2 * product + denom) / (2 * denom)
    } else {
        -((2 * (-product) + denom) / (2 * denom))
    };
    proof {
        use_type_invariant(tiling_size);
        lemma_div_nearest_bounded(product as int, denom as int);
    }
    Some(size)
}

/// Places one tiling container inside its parent.
///
/// Along the tiling axis the container starts at the parent's near edge
/// if it has no tiling sibling before it, else `inner_gap` pixels behind
/// the far edge of `prev_sibling_rect`. If it is the last of the tiling
/// siblings it ends at the parent's far edge, so that whatever the rounding
/// of the others left over is taken up here. Otherwise its size is its
/// share `tiling_size` of what is left of the parent's size once
/// `sibling_count` gaps are taken out, rounded to the nearest pixel with a
/// half going away from zero. Across the tiling axis it spans the parent.
///
/// Returns `None` exactly where an edge of that rectangle does not fit in
/// an `i32`.
pub fn place_tile(
    parent_rect: &Rect,
    direction: TilingDirection,
    inner_gap: i32,
    sibling_count: usize,
    tiling_size: TilingSize,
    prev_sibling_rect: Option<Rect>,
    is_last: bool,
) -> (r: Option<Rect>)
    ensures
        r is Some <==> tile_region(
            parent_rect@,
            direction,
            inner_gap as int,
            sibling_count as int,
            tiling_size,
            region_of(prev_sibling_rect),
            is_last,
        ).representable(),
        r matches Some(rect) ==> rect@ == tile_region(
            parent_rect@,
            direction,
            inner_gap as int,
            sibling_count as int,
            tiling_size,
            region_of(prev_sibling_rect),
            is_last,
        ),
{
    let (parent_start, parent_end): (i64, i64) = match direction {
        TilingDirection::Vertical => (parent_rect.top as i64, parent_rect.bottom as i64),
        TilingDirection::Horizontal => (parent_rect.left as i64, parent_rect.right as i64),
    };
    let start: i64 = match prev_sibling_rect {
        None => parent_start,
        Some(sibling_rect) => match direction {
            TilingDirection::Vertical => sibling_rect.bottom as i64 + inner_gap as i64,
            TilingDirection::Horizontal => sibling_rect.right as i64 + inner_gap as i64,
        },
    };
    let end: i128 = if is_last {
        parent_end as i128
    } else {
        match checked_provisional_size(
            parent_end - parent_start,
            inner_gap,
            sibling_count,
            tiling_size,
        ) {
            Some(size) => start as i128 + size,
            None => {
                return None;
            },
        }
    };
    if start < i32::MIN as i64 || start > i32::MAX as i64 || end < i32::MIN as i128 || end
        > i32::MAX as i128 {
        return None;
    }
    Some(
        match direction {
            TilingDirection::Vertical => Rect {
                left: parent_rect.left,
                top: start as i32,
                right: parent_rect.right,
                bottom: end as i32,
            },
            TilingDirection::Horizontal => Rect {
                left: start as i32,
                top: parent_rect.top,
                right: end as i32,
                bottom: parent_rect.bottom,
            },
        },
    )
}

} // verus!
