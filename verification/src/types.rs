//! Colors made of curves.

use vstd::prelude::*;
use crate::curve::{Curve, CurveV};

verus! {

/// The abstract value of a color.
pub enum ColorV {
    RGBA(CurveV, CurveV, CurveV, CurveV),
}

/// A color whose red, green, blue and alpha channels are curves.
pub enum Color {
    RGBA(Curve, Curve, Curve, Curve),
}

impl View for Color {
    type V = ColorV;

    open spec fn view(&self) -> ColorV {
        match self {
            Color::RGBA(r, g, b, a) => ColorV::RGBA(r@, g@, b@, a@),
        }
    }
}

impl Color {
    /// Opaque white.
    pub fn white() -> (c: Color)
        ensures
            c@ == ColorV::RGBA(
                CurveV::Owned(crate::curve::CurveDataV::Constant("1.0"@)),
                CurveV::Owned(crate::curve::CurveDataV::Constant("1.0"@)),
                CurveV::Owned(crate::curve::CurveDataV::Constant("1.0"@)),
                CurveV::Owned(crate::curve::CurveDataV::Constant("1.0"@)),
            ),
    {
        Color::RGBA(Curve::constant("1.0"), Curve::constant("1.0"), Curve::constant("1.0"), Curve::constant("1.0"))
    }
}

impl Clone for Color {
    fn clone(&self) -> (r: Color)
        ensures
            r@ == self@,
    {
        match self {
            Color::RGBA(r, g, b, a) => Color::RGBA(r.clone(), g.clone(), b.clone(), a.clone()),
        }
    }
}

} // verus!
