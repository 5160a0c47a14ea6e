//! Laws of the tiling layout: how the rectangles of the tiling children of
//! one container lie to each other and to the rectangle of their parent.

use vstd::prelude::*;

use crate::container_tree::TreeModel;
use crate::direction::TilingDirection;
use crate::error::LayoutError;
use crate::position_getters::{is_rect_of, PositionGetters};
use crate::rect::{Rect, Region};
use crate::tiling::{available_space, inner_gap, provisional_size};

verus! {

impl TreeModel {
    /// The size along `direction` of the rectangle of `id`, and zero where
    /// it has none.
    pub open spec fn primary_size_of(self, id: int, direction: TilingDirection) -> int {
        match self.resolved(id) {
            Ok(region) => region.primary_size(direction),
            Err(_) => 0,
        }
    }

    /// The sum of the sizes along `direction` of the tiling children of
    /// `parent` among the first `bound` containers.
    pub open spec fn sum_tiling_child_sizes(
        self,
        parent: int,
        direction: TilingDirection,
        bound: int,
    ) -> int
        decreases bound,
    {
        if bound <= 0 {
            0
        } else if self.is_tiling_child(parent, bound - 1) {
            self.sum_tiling_child_sizes(parent, direction, bound - 1) + self.primary_size_of(
                bound - 1,
                direction,
            )
        } else {
            self.sum_tiling_child_sizes(parent, direction, bound - 1)
        }
    }

    /// Whether `parent` is a direction container with the axis
    /// `direction` whose rectangle is `region`.
    pub open spec fn lays_out(self, parent: int, direction: TilingDirection, region: Region) -> bool {
        &&& self.wf()
        &&& 0 <= parent < self.len()
        &&& self.containers[parent].kind.spec_tiling_direction() == Some(direction)
        &&& self.resolved(parent) == Ok::<Region, LayoutError>(region)
    }

    /// The gap between the tiling children of a container with the axis
    /// `direction`.
    pub open spec fn gap_along(self, direction: TilingDirection) -> int {
        inner_gap(direction, self.horizontal_gap, self.vertical_gap)
    }

    /// Where no tiling child of `parent` lies from `lower` up to `upper`,
    /// the count and the sum of sizes below the two bounds agree.
    proof fn lemma_no_tiling_child_between(
        self,
        parent: int,
        direction: TilingDirection,
        lower: int,
        upper: int,
    )
        requires
            lower <= upper,
            forall|id: int| lower <= id < upper ==> !self.is_tiling_child(parent, id),
        ensures
            self.count_tiling_children(parent, upper) == self.count_tiling_children(parent, lower),
            self.sum_tiling_child_sizes(parent, direction, upper) == self.sum_tiling_child_sizes(
                parent,
                direction,
                lower,
            ),
        decreases upper - lower,
    {
        if lower < upper {
            self.lemma_no_tiling_child_between(parent, direction, lower, upper - 1);
        }
    }

    /// No tiling child lies below index zero or at a negative one, so that
    /// nothing is counted or summed there.
    proof fn lemma_nothing_below_first(self, parent: int, direction: TilingDirection, bound: int)
        requires
            forall|id: int| id < bound ==> !self.is_tiling_child(parent, id),
        ensures
            self.count_tiling_children(parent, bound) == 0,
            self.sum_tiling_child_sizes(parent, direction, bound) == 0,
        decreases bound,
    {
        if bound > 0 {
            self.lemma_nothing_below_first(parent, direction, bound - 1);
        }
    }

    /// The rectangle of a container cannot be derived exactly where the
    /// container is a tiling one and either has no parent that is a
    /// direction container, or has one whose own rectangle cannot be
    /// derived. A container that was placed from outside always has its
    /// rectangle, and so has a tiling container under a chain of direction
    /// containers that ends in one.
    pub proof fn lemma_resolved_error(self, id: int)
        requires
            self.wf(),
            0 <= id < self.len(),
        ensures
            self.resolved(id) is Err <==> {
                &&& self.containers[id].kind.spec_tiling_size() is Some
                &&& self.direction_parent(id) matches Some((parent, _)) ==> self.resolved(
                    parent,
                ) is Err
            },
            self.resolved(id) matches Err(error) ==> error == LayoutError::MissingTilingDirection,
    {
        if self.containers[id].kind.spec_tiling_size() is Some {
            if let Some((parent, _)) = self.direction_parent(id) {
                if self.resolved(parent) is Ok {
                    self.lemma_tiling_child_resolves(parent, id);
                }
            }
        }
    }

    /// How a tiling child lies in its parent.
    ///
    /// Across the tiling axis it spans the parent. Along it, the first
    /// tiling child starts at the parent's near edge, and any other one
    /// starts one gap behind the end of the tiling child before it: no
    /// pixel is left out between two of them and none is shared. The last
    /// tiling child ends at the parent's far edge; any other one has the
    /// size that its share of the available space comes to.
    pub proof fn lemma_tiling_child_placement(
        self,
        parent: int,
        direction: TilingDirection,
        parent_region: Region,
        id: int,
    )
        requires
            self.lays_out(parent, direction, parent_region),
            self.is_tiling_child(parent, id),
        ensures
            self.resolved(id) is Ok,
            ({
                let region = self.resolved(id)->Ok_0;
                let size = self.containers[id].kind.spec_tiling_size()->0;
                &&& region == parent_region.slice(
                    direction,
                    region.primary_start(direction),
                    region.primary_end(direction),
                )
                &&& match self.prev_tiling_sibling(id) {
                    None => region.primary_start(direction) == parent_region.primary_start(
                        direction,
                    ),
                    Some(prev) => {
                        &&& self.is_tiling_child(parent, prev)
                        &&& prev < id
                        &&& self.resolved(prev) is Ok
                        &&& region.primary_start(direction) == self.resolved(
                            prev,
                        )->Ok_0.primary_end(direction) + self.gap_along(direction)
                    },
                }
                &&& if self.has_next_tiling_sibling(id) {
                    region.primary_size(direction) == provisional_size(
                        available_space(
                            parent_region,
                            direction,
                            self.gap_along(direction),
                            self.tiling_sibling_count(id),
                        ),
                        size,
                    )
                } else {
                    region.primary_end(direction) == parent_region.primary_end(direction)
                }
            }),
    {
        self.lemma_last_tiling_child_below(parent, id);
        self.lemma_tiling_child_resolves(parent, id);
        if let Some(prev) = self.prev_tiling_sibling(id) {
            self.lemma_tiling_child_resolves(parent, prev);
        }
    }

    /// A tiling child starts behind everything that the tiling children
    /// before it take up: their sizes, and one gap after each of them.
    pub proof fn lemma_tiling_child_start(
        self,
        parent: int,
        direction: TilingDirection,
        parent_region: Region,
        id: int,
    )
        requires
            self.lays_out(parent, direction, parent_region),
            self.is_tiling_child(parent, id),
        ensures
            self.resolved(id) is Ok,
            self.resolved(id)->Ok_0.primary_start(direction) == parent_region.primary_start(
                direction,
            ) + self.sum_tiling_child_sizes(parent, direction, id) + self.gap_along(direction)
                * self.count_tiling_children(parent, id),
        decreases id,
    {
        self.lemma_tiling_child_placement(parent, direction, parent_region, id);
        self.lemma_last_tiling_child_below(parent, id);
        let gap = self.gap_along(direction);
        match self.prev_tiling_sibling(id) {
            None => {
                self.lemma_nothing_below_first(parent, direction, id);
                assert(gap * 0 == 0) by (nonlinear_arith);
            },
            Some(prev) => {
                self.lemma_tiling_child_start(parent, direction, parent_region, prev);
                self.lemma_no_tiling_child_between(parent, direction, prev + 1, id);
                let before = self.count_tiling_children(parent, prev);
                assert(gap * (before + 1) == gap * before + gap) by (nonlinear_arith);
            },
        }
    }

    /// The tiling children of a container fill it exactly along its
    /// tiling axis: if there is at least one, their sizes and the gaps
    /// between them add up to the size of the parent, whatever the shares
    /// they ask for and however each size was rounded.
    pub proof fn lemma_partition_exact(
        self,
        parent: int,
        direction: TilingDirection,
        parent_region: Region,
    )
        requires
            self.lays_out(parent, direction, parent_region),
            self.count_tiling_children(parent, self.len()) >= 1,
        ensures
            self.sum_tiling_child_sizes(parent, direction, self.len()) + self.gap_along(direction)
                * (self.count_tiling_children(parent, self.len()) - 1)
                == parent_region.primary_size(direction),
    {
        let len = self.len();
        self.lemma_last_tiling_child_below(parent, len);
        match self.last_tiling_child_below(parent, len) {
            None => {
                self.lemma_nothing_below_first(parent, direction, len);
            },
            Some(last) => {
                self.lemma_tiling_child_placement(parent, direction, parent_region, last);
                self.lemma_tiling_child_start(parent, direction, parent_region, last);
                self.lemma_no_tiling_child_between(parent, direction, last + 1, len);
                assert(!self.has_next_tiling_sibling(last));
            },
        }
    }
}

/// Two calls of `to_rect` on one container of one tree give the same
/// result: whatever the first returned, the second returns it too.
pub proof fn lemma_to_rect_idempotent<C: PositionGetters>(
    container: C,
    first: Result<Rect, LayoutError>,
    second: Result<Rect, LayoutError>,
)
    requires
        is_rect_of(first, container.resolved()),
        is_rect_of(second, container.resolved()),
    ensures
        first == second,
{
}

} // verus!
