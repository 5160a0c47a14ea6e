use vstd::prelude::*;

verus! {

/// The share of its parent's space along the tiling axis that a container
/// asks for: an exact fraction `numer / denom` in `(0, 1]`.
#[derive(Debug, Clone, Copy, PartialEq, Eq)]
pub struct TilingSize {
    numer: u32,
    denom: u32,
}

impl View for TilingSize {
    type V = (int, int);

    /// The share as the pair of its numerator and denominator.
    closed spec fn view(&self) -> (int, int) {
        (self.numer as int, self.denom as int)
    }
}

impl TilingSize {
    /// What holds of every `TilingSize` that executable code can hold:
    /// the share is more than nothing and at most the whole.
    #[verifier::type_invariant]
    pub closed spec fn wf(self) -> bool {
        0 < self.numer <= self.denom
    }

    /// The terms of a well-formed share: `0 < numer <= denom`, both within
    /// the range of a `u32`.
    pub proof fn lemma_terms_bounded(self)
        requires
            self.wf(),
        ensures
            0 < self@.0 <= self@.1 <= u32::MAX,
    {
    }

    /// The share `numer / denom`, or `None` unless `0 < numer <= denom`.
    pub fn new(numer: u32, denom: u32) -> (r: Option<TilingSize>)
        ensures
            r is Some <==> 0 < numer <= denom,
            r matches Some(size) ==> size@ == (numer as int, denom as int) && size.wf(),
    {
        if 0 < numer && numer <= denom {
            Some(TilingSize { numer, denom })
        } else {
            None
        }
    }

    /// The whole of the parent's space.
    pub fn whole() -> (r: TilingSize)
        ensures
            r@ == (1int, 1int),
            r.wf(),
    {
        TilingSize { numer: 1, denom: 1 }
    }

    pub fn numer(&self) -> (r: u32)
        ensures
            r == self@.0,
            0 < r <= self@.1,
    {
        proof {
            use_type_invariant(self);
        }
        self.numer
    }

    pub fn denom(&self) -> (r: u32)
        ensures
            r == self@.1,
            0 < self@.0 <= r,
    {
        proof {
            use_type_invariant(self);
        }
        self.denom
    }
}

} // verus!
