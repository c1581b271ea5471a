//! Effects that change how the video they hold is drawn.

use vstd::prelude::*;
use crate::curve::CurveV;

pub mod effects;

pub use effects::ColorKey_Mode;

verus! {

/// The abstract value of an effect.
pub enum EffectV {
    Nothing,
    BlackWhite,
    Rotate,
    Shake(Seq<char>, Seq<char>, Seq<char>, Seq<char>),
    ChangeTime(CurveV),
    ColorAdjust(CurveV, CurveV, CurveV, CurveV),
    BlurSquare(CurveV),
    BlurDownscale(CurveV, CurveV),
    ColorKey(ColorKey_Mode),
}

/// An effect applied to a video.
pub struct Effect {
    /// The actual effect
    pub effect: effects::EffectsEnum,
}

impl View for Effect {
    type V = EffectV;

    open spec fn view(&self) -> EffectV {
        self.effect@
    }
}

impl Effect {
    /// The effect described by `effect`.
    pub fn new<T: effects::EffectT>(effect: T) -> (r: Effect)
        ensures
            r@ == effect.effect_view(),
    {
        Self::new_from_enum(effect.as_enum())
    }

    pub fn new_from_enum(effect: effects::EffectsEnum) -> (r: Effect)
        ensures
            r.effect == effect,
            r@ == effect@,
    {
        Effect { effect }
    }

    /// A copy of the effect, without anything that was cached while drawing.
    pub fn clone_no_caching(&self) -> (r: Effect)
        ensures
            r@ == self@,
    {
        effects::EffectT::clone_no_caching(&self.effect)
    }
}

} // verus!
