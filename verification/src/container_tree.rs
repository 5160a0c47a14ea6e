//! A snapshot of the container tree as an arena: containers are addressed
//! by their index, a parent is named by its index and always stands before
//! its children, and the children of one parent are ordered by index.

use vstd::prelude::*;

use crate::direction::TilingDirection;
use crate::rect::Rect;
use crate::tiling_size::TilingSize;

verus! {

/// What a container is, with what the layout reads of it.
#[derive(Debug, Clone, Copy, PartialEq, Eq)]
pub enum ContainerKind {
    /// The root of a tiling tree. It is placed from outside and lays out
    /// its children along an axis.
    Workspace { rect: Rect, tiling_direction: TilingDirection },
    /// A tiling container that lays out children of its own.
    Split { tiling_direction: TilingDirection, tiling_size: TilingSize },
    /// A window that takes part in the tiling.
    TilingWindow { tiling_size: TilingSize },
    /// A window that is placed from outside and takes no part in the
    /// tiling, such as a floating one.
    NonTilingWindow { rect: Rect },
}

impl ContainerKind {
    /// The axis along which the container lays out its children, if it
    /// lays out any.
    pub open spec fn spec_tiling_direction(&self) -> Option<TilingDirection> {
        match *self {
            ContainerKind::Workspace { tiling_direction, .. } => Some(tiling_direction),
            ContainerKind::Split { tiling_direction, .. } => Some(tiling_direction),
            ContainerKind::TilingWindow { .. } => None,
            ContainerKind::NonTilingWindow { .. } => None,
        }
    }

    /// The share of its parent that the container asks for, if it takes
    /// part in the tiling.
    pub open spec fn spec_tiling_size(&self) -> Option<TilingSize> {
        match *self {
            ContainerKind::Workspace { .. } => None,
            ContainerKind::Split { tiling_size, .. } => Some(tiling_size),
            ContainerKind::TilingWindow { tiling_size } => Some(tiling_size),
            ContainerKind::NonTilingWindow { .. } => None,
        }
    }

    /// The rectangle that the container was given from outside, if it
    /// takes no part in the tiling.
    pub open spec fn spec_placed_rect(&self) -> Option<Rect> {
        match *self {
            ContainerKind::Workspace { rect, .. } => Some(rect),
            ContainerKind::Split { .. } => None,
            ContainerKind::TilingWindow { .. } => None,
            ContainerKind::NonTilingWindow { rect } => Some(rect),
        }
    }

    /// The axis along which the container lays out its children, or `None`
    /// if it is no direction container.
    #[verifier::when_used_as_spec(spec_tiling_direction)]
    pub fn tiling_direction(&self) -> (r: Option<TilingDirection>)
        ensures
            r == self.spec_tiling_direction(),
    {
        match self {
            ContainerKind::Workspace { tiling_direction, .. } => Some(*tiling_direction),
            ContainerKind::Split { tiling_direction, .. } => Some(*tiling_direction),
            ContainerKind::TilingWindow { .. } => None,
            ContainerKind::NonTilingWindow { .. } => None,
        }
    }

    /// The share of its parent that the container asks for, or `None` if
    /// it is no tiling container.
    #[verifier::when_used_as_spec(spec_tiling_size)]
    pub fn tiling_size(&self) -> (r: Option<TilingSize>)
        ensures
            r == self.spec_tiling_size(),
    {
        match self {
            ContainerKind::Workspace { .. } => None,
            ContainerKind::Split { tiling_size, .. } => Some(*tiling_size),
            ContainerKind::TilingWindow { tiling_size } => Some(*tiling_size),
            ContainerKind::NonTilingWindow { .. } => None,
        }
    }

    /// The rectangle that the container was given from outside, or `None`
    /// if it is a tiling container.
    #[verifier::when_used_as_spec(spec_placed_rect)]
    pub fn placed_rect(&self) -> (r: Option<Rect>)
        ensures
            r == self.spec_placed_rect(),
    {
        match self {
            ContainerKind::Workspace { rect, .. } => Some(*rect),
            ContainerKind::Split { .. } => None,
            ContainerKind::TilingWindow { .. } => None,
            ContainerKind::NonTilingWindow { rect } => Some(*rect),
        }
    }
}

/// One container of the tree: what it is, and the index of its parent.
#[derive(Debug, Clone, Copy, PartialEq, Eq)]
pub struct Container {
    pub parent: Option<usize>,
    pub kind: ContainerKind,
}

/// The tree as a mathematical value: its containers in index order and
/// the two configured gaps.
pub struct TreeModel {
    pub containers: Seq<Container>,
    pub horizontal_gap: int,
    pub vertical_gap: int,
}

impl TreeModel {
    pub open spec fn len(self) -> int {
        self.containers.len() as int
    }

    /// Every parent stands before its children, and every tiling size is
    /// a share in `(0, 1]`.
    pub open spec fn wf(self) -> bool {
        forall|id: int|
            0 <= id < self.len() ==> {
                &&& (#[trigger] self.containers[id]).parent matches Some(parent) ==> parent < id
                &&& self.containers[id].kind.spec_tiling_size() matches Some(size) ==> size.wf()
            }
    }

    /// The tree with one more container at the end.
    pub open spec fn push(self, container: Container) -> TreeModel {
        TreeModel { containers: self.containers.push(container), ..self }
    }

    /// Whether `id` names a tiling container whose parent is `parent`.
    pub open spec fn is_tiling_child(self, parent: int, id: int) -> bool {
        &&& 0 <= id < self.len()
        &&& self.containers[id].parent matches Some(p)
        &&& p == parent
        &&& self.containers[id].kind.spec_tiling_size() is Some
    }

    /// The number of tiling children of `parent` among the first `bound`
    /// containers.
    pub open spec fn count_tiling_children(self, parent: int, bound: int) -> int
        decreases bound,
    {
        if bound <= 0 {
            0
        } else if self.is_tiling_child(parent, bound - 1) {
            self.count_tiling_children(parent, bound - 1) + 1
        } else {
            self.count_tiling_children(parent, bound - 1)
        }
    }

    /// The last tiling child of `parent` among the first `bound`
    /// containers.
    pub open spec fn last_tiling_child_below(self, parent: int, bound: int) -> Option<int>
        decreases bound,
    {
        if bound <= 0 {
            None
        } else if self.is_tiling_child(parent, bound - 1) {
            Some(bound - 1)
        } else {
            self.last_tiling_child_below(parent, bound - 1)
        }
    }

    /// The number of tiling containers other than `id` that share its
    /// parent.
    pub open spec fn tiling_sibling_count(self, id: int) -> int {
        match self.containers[id].parent {
            None => 0,
            Some(parent) => self.count_tiling_children(parent as int, self.len()) - (if self.is_tiling_child(
                parent as int,
                id,
            ) {
                1int
            } else {
                0int
            }),
        }
    }

    /// The nearest tiling container before `id` that shares its parent.
    pub open spec fn prev_tiling_sibling(self, id: int) -> Option<int> {
        match self.containers[id].parent {
            None => None,
            Some(parent) => self.last_tiling_child_below(parent as int, id),
        }
    }

    /// Whether some tiling container after `id` shares its parent.
    pub open spec fn has_next_tiling_sibling(self, id: int) -> bool {
        self.containers[id].parent matches Some(parent) && exists|next: int|
            id < next && #[trigger] self.is_tiling_child(parent as int, next)
    }

    /// The last tiling child below a bound is a tiling child below that
    /// bound with no tiling child between it and the bound; there is none
    /// exactly when no tiling child lies below the bound.
    pub proof fn lemma_last_tiling_child_below(self, parent: int, bound: int)
        ensures
            match self.last_tiling_child_below(parent, bound) {
                Some(last) => {
                    &&& 0 <= last < bound
                    &&& self.is_tiling_child(parent, last)
                    &&& forall|id: int| last < id < bound ==> !self.is_tiling_child(parent, id)
                },
                None => forall|id: int| id < bound ==> !self.is_tiling_child(parent, id),
            },
        decreases bound,
    {
        if bound > 0 && !self.is_tiling_child(parent, bound - 1) {
            self.lemma_last_tiling_child_below(parent, bound - 1);
        }
    }
}

/// A snapshot of the container tree with the two configured gaps between
/// neighbouring tiling containers.
pub struct ContainerTree {
    containers: Vec<Container>,
    horizontal_gap: i32,
    vertical_gap: i32,
}

impl View for ContainerTree {
    type V = TreeModel;

    closed spec fn view(&self) -> TreeModel {
        TreeModel {
            containers: self.containers@,
            horizontal_gap: self.horizontal_gap as int,
            vertical_gap: self.vertical_gap as int,
        }
    }
}

impl ContainerTree {
    /// What holds of every tree that executable code can hold.
    #[verifier::type_invariant]
    pub open spec fn wf(self) -> bool {
        self@.wf()
    }

    /// The empty tree with the given gaps, in pixels, between tiling
    /// containers that are neighbours along a horizontal and along a
    /// vertical axis.
    pub fn new(horizontal_gap: i32, vertical_gap: i32) -> (r: ContainerTree)
        ensures
            r@ == (TreeModel {
                containers: Seq::empty(),
                horizontal_gap: horizontal_gap as int,
                vertical_gap: vertical_gap as int,
            }),
    {
        ContainerTree { containers: Vec::new(), horizontal_gap, vertical_gap }
    }

    /// The number of containers.
    pub fn len(&self) -> (r: usize)
        ensures
            r == self@.len(),
    {
        self.containers.len()
    }

    /// The horizontal and the vertical gap.
    pub fn inner_gaps(&self) -> (r: (i32, i32))
        ensures
            r.0 == self@.horizontal_gap,
            r.1 == self@.vertical_gap,
    {
        (self.horizontal_gap, self.vertical_gap)
    }

    /// Adds a container as the last child of `parent`, or as a root where
    /// `parent` is `None`, and returns its index. Where `parent` names no
    /// container of the tree, nothing is added and `None` is returned.
    pub fn insert(&mut self, parent: Option<usize>, kind: ContainerKind) -> (r: Option<usize>)
        ensures
            r is None <==> (parent matches Some(p) && p >= old(self)@.len()),
            r is None ==> final(self)@ == old(self)@,
            r matches Some(id) ==> id == old(self)@.len() && final(self)@ == old(self)@.push(
                (Container { parent, kind }),
            ),
    {
        proof {
            use_type_invariant(&*self);
        }
        if let Some(p) = parent {
            if p >= self.containers.len() {
                return None;
            }
        }
        let id: usize = self.containers.len();
        if let Some(size) = kind.tiling_size() {
            proof {
                use_type_invariant(&size);
            }
        }
        // The list is taken out of the tree while it grows, so that the
        // tree is a valid one at every moment, also if the allocation fails.
        let mut containers: Vec<Container> = Vec::new();
        core::mem::swap(&mut self.containers, &mut containers);
        containers.push(Container { parent, kind });
        core::mem::swap(&mut self.containers, &mut containers);
        Some(id)
    }

    /// The container at `id`, or `None` where the tree has no such index.
    pub fn get(&self, id: usize) -> (r: Option<Container>)
        ensures
            r is Some <==> id < self@.len(),
            r matches Some(container) ==> container == self@.containers[id as int],
    {
        if id < self.containers.len() {
            Some(self.containers[id])
        } else {
            None
        }
    }

    /// The container at `id`, which has to be an index of the tree.
    pub fn container(&self, id: usize) -> (r: Container)
        requires
            id < self@.len(),
        ensures
            r == self@.containers[id as int],
    {
        self.containers[id]
    }

    /// Whether `id` names a tiling container whose parent is `parent`.
    pub fn is_tiling_child(&self, parent: usize, id: usize) -> (r: bool)
        ensures
            r == self@.is_tiling_child(parent as int, id as int),
    {
        if id >= self.containers.len() {
            return false;
        }
        let container = self.containers[id];
        match container.parent {
            Some(p) => p == parent && container.kind.tiling_size().is_some(),
            None => false,
        }
    }

    /// The number of tiling containers other than `id` that share its
    /// parent.
    pub fn tiling_sibling_count(&self, id: usize) -> (r: usize)
        requires
            id < self@.len(),
        ensures
            r == self@.tiling_sibling_count(id as int),
    {
        let parent: usize = match self.containers[id].parent {
            None => {
                return 0;
            },
            Some(parent) => parent,
        };
        let len: usize = self.containers.len();
        let mut count: usize = 0;
        let mut next: usize = 0;
        while next < len
            invariant
                next <= len,
                len == self@.len(),
                id < len,
                count == self@.count_tiling_children(parent as int, next as int) - (if next > id
                    && self@.is_tiling_child(parent as int, id as int) {
                    1int
                } else {
                    0int
                }),
                0 <= count <= next,
            decreases len - next,
        {
            if next != id && self.is_tiling_child(parent, next) {
                count = count + 1;
            }
            next = next + 1;
        }
        count
    }

    /// The nearest tiling container before `id` that shares its parent.
    pub fn prev_tiling_sibling(&self, id: usize) -> (r: Option<usize>)
        requires
            id < self@.len(),
        ensures
            match r {
                Some(prev) => prev < id && self@.prev_tiling_sibling(id as int) == Some(prev as int),
                None => self@.prev_tiling_sibling(id as int) is None,
            },
    {
        let parent: usize = match self.containers[id].parent {
            None => {
                return None;
            },
            Some(parent) => parent,
        };
        let mut bound: usize = id;
        while bound > 0
            invariant
                bound <= id,
                id < self@.len(),
                self@.containers[id as int].parent == Some(parent),
                self@.last_tiling_child_below(parent as int, bound as int)
                    == self@.last_tiling_child_below(parent as int, id as int),
            decreases bound,
        {
            bound = bound - 1;
            if self.is_tiling_child(parent, bound) {
                return Some(bound);
            }
        }
        None
    }

    /// Whether some tiling container after `id` shares its parent.
    pub fn has_next_tiling_sibling(&self, id: usize) -> (r: bool)
        requires
            id < self@.len(),
        ensures
            r == self@.has_next_tiling_sibling(id as int),
    {
        let parent: usize = match self.containers[id].parent {
            None => {
                return false;
            },
            Some(parent) => parent,
        };
        let len: usize = self.containers.len();
        let mut next: usize = id + 1;
        while next < len
            invariant
                id < next <= len,
                len == self@.len(),
                self@.containers[id as int].parent == Some(parent),
                forall|between: int|
                    id < between < next ==> !self@.is_tiling_child(parent as int, between),
            decreases len - next,
        {
            if self.is_tiling_child(parent, next) {
                return true;
            }
            next = next + 1;
        }
        false
    }
}

} // verus!
