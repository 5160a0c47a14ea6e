use vstd::prelude::*;

verus! {

/// Why the rectangle of a container cannot be derived. A tree with such a
/// container was built inconsistently; nothing is retried and no default
/// rectangle is put in its place.
#[derive(Debug, Clone, Copy, PartialEq, Eq, Structural)]
pub enum LayoutError {
    /// A tiling container has no parent, or its parent does not lay out
    /// its children along a tiling axis.
    MissingTilingDirection,
}

impl LayoutError {
    /// A sentence that describes the error.
    pub fn message(&self) -> (r: &'static str)
        ensures
            r@ == "Parent does not have a tiling direction."@,
    {
        let text = match self {
            LayoutError::MissingTilingDirection => "Parent does not have a tiling direction.",
        };
        proof {
            reveal_strlit("Parent does not have a tiling direction.");
        }
        text
    }
}

} // verus!
