use vstd::prelude::*;

use crate::rounding::{div_toward_zero, saturate_i32};

verus! {

/// An exact fraction `numer / denom` whose denominator is positive. Two
/// fractions of equal value but different terms are different values of
/// this type.
#[derive(Debug, Clone, Copy, PartialEq, Eq)]
pub struct Ratio {
    numer: i32,
    denom: u32,
}

impl View for Ratio {
    type V = (int, int);

    /// The fraction as the pair of its numerator and denominator.
    closed spec fn view(&self) -> (int, int) {
        (self.numer as int, self.denom as int)
    }
}

impl Ratio {
    /// What holds of every `Ratio` that executable code can hold: the
    /// terms fit their fields and the denominator is positive.
    #[verifier::type_invariant]
    pub closed spec fn wf(self) -> bool {
        self.denom > 0
    }

    /// The terms of a well-formed fraction are within the range of their
    /// fields, and the denominator is at least one.
    pub proof fn lemma_terms_bounded(self)
        requires
            self.wf(),
        ensures
            i32::MIN <= self@.0 <= i32::MAX,
            1 <= self@.1 <= u32::MAX,
    {
    }

    /// The fraction `numer / denom`, or `None` where `denom` is zero.
    pub fn new(numer: i32, denom: u32) -> (r: Option<Ratio>)
        ensures
            denom == 0 <==> r is None,
            r matches Some(ratio) ==> ratio@ == (numer as int, denom as int) && ratio.wf(),
    {
        if denom == 0 {
            None
        } else {
            Some(Ratio { numer, denom })
        }
    }

    /// The whole number `value` as a fraction with denominator one.
    pub fn from_integer(value: i32) -> (r: Ratio)
        ensures
            r@ == (value as int, 1int),
            r.wf(),
    {
        Ratio { numer: value, denom: 1 }
    }

    pub fn numer(&self) -> (r: i32)
        ensures
            r == self@.0,
    {
        self.numer
    }

    pub fn denom(&self) -> (r: u32)
        ensures
            r == self@.1,
            r > 0,
    {
        proof {
            use_type_invariant(self);
        }
        self.denom
    }
}

/// What a [`LengthValue`] counts: pixels, or a share of a reference
/// dimension.
#[derive(Debug, Clone, Copy, PartialEq, Eq, Structural)]
pub enum LengthUnit {
    Percentage,
    Pixel,
}

/// A length that is either an absolute amount of pixels or a share of a
/// reference dimension. A share of one half is the amount `1 / 2` with the
/// unit `Percentage`.
#[derive(Debug, Clone, Copy, PartialEq, Eq)]
pub struct LengthValue {
    pub amount: Ratio,
    pub unit: LengthUnit,
}

impl LengthValue {
    /// The length in whole pixels, before it is cut to the range of an
    /// `i32`: a share is taken of `total_px`, an absolute amount is
    /// multiplied by the scale factor where there is one, and the result is
    /// rounded towards zero.
    pub open spec fn exact_px(self, total_px: int, scale_factor: Option<Ratio>) -> int {
        match self.unit {
            LengthUnit::Percentage => div_toward_zero(self.amount@.0 * total_px, self.amount@.1),
            LengthUnit::Pixel => match scale_factor {
                None => div_toward_zero(self.amount@.0, self.amount@.1),
                Some(scale) => div_toward_zero(
                    self.amount@.0 * scale@.0,
                    self.amount@.1 * scale@.1,
                ),
            },
        }
    }

    /// The length in whole pixels: [`Self::exact_px`] moved into the range
    /// of an `i32`.
    pub open spec fn px(self, total_px: int, scale_factor: Option<Ratio>) -> int {
        saturate_i32(self.exact_px(total_px, scale_factor))
    }

    /// Whether the length is a whole number of pixels.
    pub open spec fn is_whole_px(self) -> bool {
        self.unit == LengthUnit::Pixel && self.amount@.1 == 1
    }

    /// The absolute length of `px` pixels.
    pub fn from_px(px: i32) -> (r: LengthValue)
        ensures
            r.is_whole_px(),
            r.amount@.0 == px,
            r.amount.wf(),
            forall|total_px: int| #[trigger] r.px(total_px, None) == px,
    {
        LengthValue { amount: Ratio::from_integer(px), unit: LengthUnit::Pixel }
    }

    /// The length in pixels against a reference dimension that need not fit
    /// in an `i32`.
    pub(crate) fn resolve(&self, total_px: i64, scale_factor: Option<Ratio>) -> (r: i32)
        ensures
            r == self.px(total_px as int, scale_factor),
    {
        let numer: i128 = self.amount.numer() as i128;
        let denom: i128 = self.amount.denom() as i128;
        let (p, d): (i128, i128) = match self.unit {
            LengthUnit::Percentage => {
                assert(-0x8000_0000_0000_0000_0000_0000 <= numer * total_px
                    <= 0x8000_0000_0000_0000_0000_0000) by (nonlinear_arith)
                    requires
                        -0x8000_0000 <= numer <= 0x8000_0000,
                        -0x8000_0000_0000_0000 <= total_px <= 0x8000_0000_0000_0000,
                ;
                (numer * (total_px as i128), denom)
            },
            LengthUnit::Pixel => match scale_factor {
                None => (numer, denom),
                Some(scale) => {
                    let scale_numer: i128 = scale.numer() as i128;
                    let scale_denom: i128 = scale.denom() as i128;
                    assert(-0x8000_0000_0000_0000 <= numer * scale_numer <= 0x8000_0000_0000_0000)
                        by (nonlinear_arith)
                        requires
                            -0x8000_0000 <= numer <= 0x8000_0000,
                            -0x8000_0000 <= scale_numer <= 0x8000_0000,
                    ;
                    assert(0 < denom * scale_denom <= 0x1_0000_0000_0000_0000) by (nonlinear_arith)
                        requires
                            0 < denom <= 0x1_0000_0000,
                            0 < scale_denom <= 0x1_0000_0000,
                    ;
                    (numer * scale_numer, denom * scale_denom)
                },
            },
        };
        let q: i128 = p / d;
        if q < i32::MIN as i128 {
            i32::MIN
        } else if q > i32::MAX as i128 {
            i32::MAX
        } else {
            q as i32
        }
    }

    /// The length in pixels: a share is taken of `total_px`, an absolute
    /// amount is multiplied by `scale_factor` where there is one; the
    /// result is rounded towards zero and cut to the range of an `i32`.
    pub fn to_px(&self, total_px: i32, scale_factor: Option<Ratio>) -> (r: i32)
        ensures
            r == self.px(total_px as int, scale_factor),
    {
        self.resolve(total_px as i64, scale_factor)
    }
}

} // verus!
