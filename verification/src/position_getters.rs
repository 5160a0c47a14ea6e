//! The rectangle of a container, derived from its place in the tree.

use vstd::prelude::*;

use crate::container_tree::{Container, ContainerKind, ContainerTree, TreeModel};
use crate::direction::TilingDirection;
use crate::error::LayoutError;
use crate::rect::{Rect, Region};
use crate::tiling::{inner_gap, place_tile, region_of, tile_region};
use crate::tiling_size::TilingSize;

verus! {

impl TreeModel {
    /// The parent of `id` and the axis along which it lays out its
    /// children, if `id` has a parent and that parent is a direction
    /// container.
    pub open spec fn direction_parent(self, id: int) -> Option<(int, TilingDirection)> {
        match self.containers[id].parent {
            None => None,
            Some(parent) => match self.containers[parent as int].kind.spec_tiling_direction() {
                None => None,
                Some(direction) => Some((parent as int, direction)),
            },
        }
    }

    /// The rectangle of the container `id`, over the unbounded integers.
    ///
    /// A container that takes no part in the tiling has the rectangle it
    /// was given. A tiling container needs a parent that is a direction
    /// container; it is then placed inside the rectangle of that parent,
    /// behind the tiling sibling before it, by the rule of
    /// [`tile_region`].
    pub open spec fn resolved(self, id: int) -> Result<Region, LayoutError>
        decreases id,
        when self.wf() && 0 <= id < self.len()
        via Self::resolved_decreases
    {
        match self.containers[id].kind {
            ContainerKind::Workspace { rect, .. } | ContainerKind::NonTilingWindow { rect } => Ok(
                rect@,
            ),
            ContainerKind::Split { tiling_size, .. } | ContainerKind::TilingWindow {
                tiling_size,
            } => match self.direction_parent(id) {
                None => Err(LayoutError::MissingTilingDirection),
                Some((parent, direction)) => match self.resolved(parent) {
                    Err(error) => Err(error),
                    Ok(parent_region) => match self.prev_tiling_sibling(id) {
                        None => Ok(self.tile(id, parent_region, direction, tiling_size, None)),
                        Some(prev) => match self.resolved(prev) {
                            Err(error) => Err(error),
                            Ok(prev_region) => Ok(
                                self.tile(
                                    id,
                                    parent_region,
                                    direction,
                                    tiling_size,
                                    Some(prev_region),
                                ),
                            ),
                        },
                    },
                },
            },
        }
    }

    /// The rectangle of the tiling container `id` inside the rectangle of
    /// its parent, given where the tiling sibling before it lies.
    pub open spec fn tile(
        self,
        id: int,
        parent_region: Region,
        direction: TilingDirection,
        tiling_size: TilingSize,
        prev_region: Option<Region>,
    ) -> Region {
        tile_region(
            parent_region,
            direction,
            inner_gap(direction, self.horizontal_gap, self.vertical_gap),
            self.tiling_sibling_count(id),
            tiling_size,
            prev_region,
            !self.has_next_tiling_sibling(id),
        )
    }

    #[via_fn]
    proof fn resolved_decreases(self, id: int) {
        if let Some(parent) = self.containers[id].parent {
            self.lemma_last_tiling_child_below(parent as int, id);
        }
    }

    /// Whether the rectangle of `id`, and each rectangle that it is
    /// derived from, has edges that fit in an `i32`. It holds wherever
    /// there is no rectangle to derive.
    pub open spec fn fits(self, id: int) -> bool
        decreases id,
        when self.wf() && 0 <= id < self.len()
        via Self::fits_decreases
    {
        match self.resolved(id) {
            Err(_) => true,
            Ok(region) => {
                &&& region.representable()
                &&& self.containers[id].kind.spec_tiling_size() is Some ==> {
                    &&& self.containers[id].parent matches Some(parent) ==> self.fits(parent as int)
                    &&& self.prev_tiling_sibling(id) matches Some(prev) ==> self.fits(prev)
                }
            },
        }
    }

    #[via_fn]
    proof fn fits_decreases(self, id: int) {
        if let Some(parent) = self.containers[id].parent {
            self.lemma_last_tiling_child_below(parent as int, id);
        }
    }

    /// Where the rectangle of a direction container can be derived, so
    /// can that of each of its tiling children.
    pub proof fn lemma_tiling_child_resolves(self, parent: int, id: int)
        requires
            self.wf(),
            self.is_tiling_child(parent, id),
            self.containers[parent].kind.spec_tiling_direction() is Some,
            self.resolved(parent) is Ok,
        ensures
            self.resolved(id) is Ok,
        decreases id,
    {
        self.lemma_last_tiling_child_below(parent, id);
        if let Some(prev) = self.prev_tiling_sibling(id) {
            self.lemma_tiling_child_resolves(parent, prev);
        }
    }
}

/// Whether `result` is the rectangle, or the error, that `resolved` holds:
/// what `to_rect` returns for a container whose rectangle over the
/// unbounded integers is `resolved`.
pub open spec fn is_rect_of(
    result: Result<Rect, LayoutError>,
    resolved: Result<Region, LayoutError>,
) -> bool {
    match result {
        Ok(rect) => resolved == Ok::<Region, LayoutError>(rect@),
        Err(error) => resolved == Err::<Region, LayoutError>(error),
    }
}

/// The capability of a container to say which rectangle it occupies on
/// screen.
pub trait PositionGetters {
    /// The rectangle of the container over the unbounded integers, or why
    /// it has none.
    spec fn resolved(&self) -> Result<Region, LayoutError>;

    /// Whether the rectangle, and each rectangle that it is derived from,
    /// has edges that fit in an `i32`.
    spec fn fits(&self) -> bool;

    /// The rectangle of the container, or the reason why the tree gives it
    /// none. Every rectangle on the way has to fit in an `i32`.
    fn to_rect(&self) -> (r: Result<Rect, LayoutError>)
        requires
            self.fits(),
        ensures
            is_rect_of(r, self.resolved()),
    ;
}

/// One container of a tree: the handle through which the layout reads the
/// tree.
#[derive(Clone, Copy)]
pub struct ContainerRef<'a> {
    tree: &'a ContainerTree,
    id: usize,
}

impl<'a> ContainerRef<'a> {
    /// What holds of every handle that executable code can hold: it names
    /// a container of its tree.
    #[verifier::type_invariant]
    pub closed spec fn wf(self) -> bool {
        self.id < self.tree@.len()
    }

    /// The tree that the handle reads.
    pub closed spec fn tree(self) -> TreeModel {
        self.tree@
    }

    /// The index of the container in its tree.
    pub closed spec fn index(self) -> int {
        self.id as int
    }

    /// The container that the handle names.
    pub open spec fn spec_container(self) -> Container {
        self.tree().containers[self.index()]
    }

    /// The handle of the container `id` of `tree`, or `None` where the
    /// tree has no such container.
    pub fn new(tree: &'a ContainerTree, id: usize) -> (r: Option<ContainerRef<'a>>)
        ensures
            r is Some <==> id < tree@.len(),
            r matches Some(container) ==> container.tree() == tree@ && container.index() == id,
    {
        if id < tree.len() {
            Some(ContainerRef { tree, id })
        } else {
            None
        }
    }

    /// The index of the container in its tree.
    pub fn id(&self) -> (r: usize)
        ensures
            r == self.index(),
            r < self.tree().len(),
    {
        proof {
            use_type_invariant(self);
        }
        self.id
    }

    /// The container itself: its kind and the index of its parent.
    pub fn container(&self) -> (r: Container)
        ensures
            r == self.spec_container(),
    {
        proof {
            use_type_invariant(self);
        }
        self.tree.container(self.id)
    }

    /// The parent, or `None` for a root.
    pub fn parent(&self) -> (r: Option<ContainerRef<'a>>)
        ensures
            match r {
                Some(parent) => {
                    &&& self.spec_container().parent == Some(parent.index() as usize)
                    &&& parent.tree() == self.tree()
                    &&& parent.index() < self.index()
                },
                None => self.spec_container().parent is None,
            },
    {
        proof {
            use_type_invariant(self);
            use_type_invariant(self.tree);
        }
        match self.container().parent {
            Some(parent) => Some(ContainerRef { tree: self.tree, id: parent }),
            None => None,
        }
    }

    /// The share of its parent that the container asks for, or `None` if
    /// it is no tiling container.
    pub fn tiling_size(&self) -> (r: Option<TilingSize>)
        ensures
            r == self.spec_container().kind.spec_tiling_size(),
    {
        self.container().kind.tiling_size()
    }

    /// The axis along which the container lays out its children, or `None`
    /// if it is no direction container.
    pub fn tiling_direction(&self) -> (r: Option<TilingDirection>)
        ensures
            r == self.spec_container().kind.spec_tiling_direction(),
    {
        self.container().kind.tiling_direction()
    }

    /// The horizontal and the vertical gap between tiling containers.
    pub fn inner_gaps(&self) -> (r: (i32, i32))
        ensures
            r.0 == self.tree().horizontal_gap,
            r.1 == self.tree().vertical_gap,
    {
        self.tree.inner_gaps()
    }

    /// The number of tiling containers other than this one that share its
    /// parent.
    pub fn tiling_sibling_count(&self) -> (r: usize)
        ensures
            r == self.tree().tiling_sibling_count(self.index()),
    {
        proof {
            use_type_invariant(self);
        }
        self.tree.tiling_sibling_count(self.id)
    }

    /// The nearest tiling container before this one that shares its
    /// parent.
    pub fn prev_tiling_sibling(&self) -> (r: Option<ContainerRef<'a>>)
        ensures
            match r {
                Some(prev) => {
                    &&& self.tree().prev_tiling_sibling(self.index()) == Some(prev.index())
                    &&& prev.tree() == self.tree()
                    &&& prev.index() < self.index()
                },
                None => self.tree().prev_tiling_sibling(self.index()) is None,
            },
    {
        proof {
            use_type_invariant(self);
        }
        match self.tree.prev_tiling_sibling(self.id) {
            Some(prev) => Some(ContainerRef { tree: self.tree, id: prev }),
            None => None,
        }
    }

    /// Whether some tiling container after this one shares its parent.
    pub fn has_next_tiling_sibling(&self) -> (r: bool)
        ensures
            r == self.tree().has_next_tiling_sibling(self.index()),
    {
        proof {
            use_type_invariant(self);
        }
        self.tree.has_next_tiling_sibling(self.id)
    }

    /// The rectangle of the container, or the reason why the tree gives it
    /// none; `None` exactly where a rectangle on the way has an edge that
    /// does not fit in an `i32`.
    ///
    /// The rectangle of the parent and that of the tiling sibling before
    /// this container are derived anew on each call.
    pub fn checked_to_rect(&self) -> (r: Option<Result<Rect, LayoutError>>)
        ensures
            r is Some <==> self.tree().fits(self.index()),
            r matches Some(result) ==> is_rect_of(result, self.tree().resolved(self.index())),
        decreases self.index(),
    {
        proof {
            use_type_invariant(self);
            use_type_invariant(self.tree);
        }
        let container = self.container();
        let tiling_size = match container.kind {
            ContainerKind::Workspace { rect, .. } | ContainerKind::NonTilingWindow { rect } => {
                return Some(Ok(rect));
            },
            ContainerKind::Split { tiling_size, .. } | ContainerKind::TilingWindow {
                tiling_size,
            } => tiling_size,
        };
        let parent = match self.parent() {
            Some(parent) => parent,
            None => {
                return Some(Err(LayoutError::MissingTilingDirection));
            },
        };
        let direction = match parent.tiling_direction() {
            Some(direction) => direction,
            None => {
                return Some(Err(LayoutError::MissingTilingDirection));
            },
        };
        let prev_sibling = self.prev_tiling_sibling();
        proof {
            let tree = self.tree();
            tree.lemma_last_tiling_child_below(parent.index(), self.index());
            if tree.resolved(parent.index()) is Ok {
                if let Some(prev) = tree.prev_tiling_sibling(self.index()) {
                    tree.lemma_tiling_child_resolves(parent.index(), prev);
                }
            }
        }
        let parent_rect = match parent.checked_to_rect() {
            Some(Ok(rect)) => rect,
            Some(Err(error)) => {
                return Some(Err(error));
            },
            None => {
                return None;
            },
        };

        let (horizontal_gap, vertical_gap) = self.inner_gaps();
        let inner_gap = match direction {
            TilingDirection::Vertical => vertical_gap,
            TilingDirection::Horizontal => horizontal_gap,
        };
        let sibling_count: usize = self.tiling_sibling_count();

        // The last tiling sibling fills the remaining space exactly, to
        // avoid rounding gaps.
        let is_last = !self.has_next_tiling_sibling();

        let prev_sibling_rect = match prev_sibling {
            None => None,
            Some(sibling) => match sibling.checked_to_rect() {
                Some(Ok(rect)) => Some(rect),
                Some(Err(error)) => {
                    return Some(Err(error));
                },
                None => {
                    return None;
                },
            },
        };

        match place_tile(
            &parent_rect,
            direction,
            inner_gap,
            sibling_count,
            tiling_size,
            prev_sibling_rect,
            is_last,
        ) {
            Some(rect) => Some(Ok(rect)),
            None => None,
        }
    }
}

impl<'a> PositionGetters for ContainerRef<'a> {
    open spec fn resolved(&self) -> Result<Region, LayoutError> {
        self.tree().resolved(self.index())
    }

    open spec fn fits(&self) -> bool {
        self.tree().fits(self.index())
    }

    fn to_rect(&self) -> (r: Result<Rect, LayoutError>) {
        self.checked_to_rect().unwrap()
    }
}

} // verus!
