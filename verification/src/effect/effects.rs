//! The effects themselves.

use vstd::prelude::*;
use crate::curve::{Curve, CurveV, Number};
use super::{Effect, EffectV};
use crate::image_buffer::RgbaImage;

verus! {

/// What every effect can do besides drawing.
pub trait EffectT: Sized {
    /// The abstract value of the effect.
    spec fn effect_view(&self) -> EffectV;

    /// A copy of the effect, without anything that was cached while drawing.
    fn clone_no_caching(&self) -> (r: Effect)
        ensures
            r@ == self.effect_view(),
    ;

    /// The effect, wrapped in the enum of all effects.
    fn as_enum(self) -> (r: EffectsEnum)
        ensures
            r@ == self.effect_view(),
    ;
}

pub enum EffectsEnum {
    Nothing(Nothing),
    BlackWhite(BlackWhite),
    Rotate(Rotate),
    Shake(Shake),
    ChangeTime(ChangeTime),
    ColorAdjust(ColorAdjust),
    Blur(Blur),
    ColorKey(ColorKey),
}

impl View for EffectsEnum {
    type V = EffectV;

    open spec fn view(&self) -> EffectV {
        match self {
            EffectsEnum::Nothing(_) => EffectV::Nothing,
            EffectsEnum::BlackWhite(_) => EffectV::BlackWhite,
            EffectsEnum::Rotate(_) => EffectV::Rotate,
            EffectsEnum::Shake(v) => shake_view(v),
            EffectsEnum::ChangeTime(v) => EffectV::ChangeTime(v.time@),
            EffectsEnum::ColorAdjust(v) => color_adjust_view(&v.mode),
            EffectsEnum::Blur(v) => blur_view(&v.mode),
            EffectsEnum::ColorKey(v) => EffectV::ColorKey(v.mode),
        }
    }
}

impl EffectT for EffectsEnum {
    open spec fn effect_view(&self) -> EffectV {
        self@
    }

    fn clone_no_caching(&self) -> (r: Effect) {
        match self {
            EffectsEnum::Nothing(v) => v.clone_no_caching(),
            EffectsEnum::BlackWhite(v) => v.clone_no_caching(),
            EffectsEnum::Rotate(v) => v.clone_no_caching(),
            EffectsEnum::Shake(v) => v.clone_no_caching(),
            EffectsEnum::ChangeTime(v) => v.clone_no_caching(),
            EffectsEnum::ColorAdjust(v) => v.clone_no_caching(),
            EffectsEnum::Blur(v) => v.clone_no_caching(),
            EffectsEnum::ColorKey(v) => v.clone_no_caching(),
        }
    }

    fn as_enum(self) -> (r: EffectsEnum) {
        self
    }
}

pub open spec fn shake_view(v: &Shake) -> EffectV {
    EffectV::Shake(v.shake_dist_x@, v.shake_dist_y@, v.shakes_count_x@, v.shakes_count_y@)
}

pub open spec fn color_adjust_view(m: &ColorAdjust_Mode) -> EffectV {
    match m {
        ColorAdjust_Mode::Rgba(r, g, b, a) => EffectV::ColorAdjust(r@, g@, b@, a@),
    }
}

pub open spec fn blur_view(m: &Blur_Mode) -> EffectV {
    match m {
        Blur_Mode::Square { radius } => EffectV::BlurSquare(radius@),
        Blur_Mode::Downscale { width, height } => EffectV::BlurDownscale(width@, height@),
    }
}

/// Draws the video as it is.
pub struct Nothing {}

impl Nothing {
    pub fn new() -> (r: Nothing)
        ensures
            r == (Nothing {}),
    {
        Nothing {}
    }
}

impl EffectT for Nothing {
    open spec fn effect_view(&self) -> EffectV {
        EffectV::Nothing
    }

    fn clone_no_caching(&self) -> (r: Effect) {
        Effect::new_from_enum(EffectsEnum::Nothing(Nothing::new()))
    }

    fn as_enum(self) -> (r: EffectsEnum) {
        EffectsEnum::Nothing(self)
    }
}

/// Draws the video in shades of grey.
pub struct BlackWhite {}

impl BlackWhite {
    pub fn new() -> (r: BlackWhite)
        ensures
            r == (BlackWhite {}),
    {
        BlackWhite {}
    }
}

/// The pixel `px` in shades of grey: each color channel becomes the average of the
/// three, rounded down; the opacity stays.
pub open spec fn gray_pixel(px: [u8; 4]) -> [u8; 4] {
    let v = ((px[0] + px[1] + px[2]) / 3) as u8;
    [v, v, v, px[3]]
}

impl BlackWhite {
    /// Turns the drawn image `img` into shades of grey, pixel by pixel.
    pub fn process_pixels(&self, img: &mut RgbaImage)
        requires
            old(img).wf(),
        ensures
            final(img).wf(),
            final(img).width == old(img).width,
            final(img).height == old(img).height,
            forall|y: int, x: int| 0 <= y < old(img).height && 0 <= x < old(img).width
                ==> #[trigger] final(img).rows@[y]@[x] == gray_pixel(old(img).rows@[y]@[x]),
    {
        let w = img.width;
        let h = img.height;
        let mut new_rows: Vec<Vec<[u8; 4]>> = Vec::new();
        let mut y: u32 = 0;
        while y < h
            invariant
                y <= h,
                h == img.height,
                w == img.width,
                img.wf(),
                new_rows@.len() == y,
                forall|j: int| 0 <= j < y ==> (#[trigger] new_rows@[j])@.len() == w,
                forall|j: int, x: int| 0 <= j < y && 0 <= x < w ==> #[trigger] new_rows@[j]@[x] == gray_pixel(img.rows@[j]@[x]),
            decreases h - y,
        {
            let mut row: Vec<[u8; 4]> = Vec::new();
            let mut x: u32 = 0;
            while x < w
                invariant
                    x <= w,
                    y < h,
                    h == img.height,
                    w == img.width,
                    img.wf(),
                    row@.len() == x,
                    forall|i: int| 0 <= i < x ==> #[trigger] row@[i] == gray_pixel(img.rows@[y as int]@[i]),
                decreases w - x,
            {
                let px = img.rows[y as usize][x as usize];
                let sum: u16 = px[0] as u16 + px[1] as u16 + px[2] as u16;
                let v: u8 = (sum / 3) as u8;
                let g = [v, v, v, px[3]];
                assert(g =~= gray_pixel(px));
                row.push(g);
                x = x + 1;
            }
            new_rows.push(row);
            y = y + 1;
        }
        img.rows = new_rows;
    }
}

impl EffectT for BlackWhite {
    open spec fn effect_view(&self) -> EffectV {
        EffectV::BlackWhite
    }

    fn clone_no_caching(&self) -> (r: Effect) {
        Effect::new_from_enum(EffectsEnum::BlackWhite(BlackWhite::new()))
    }

    fn as_enum(self) -> (r: EffectsEnum) {
        EffectsEnum::BlackWhite(self)
    }
}

/// Rotates the video. No rotation can be made yet: the type has no constructor.
pub struct Rotate {
    angle: Curve,
    rotation_point: (Curve, Curve),
    /// The rotate mode to be used.
    rotate_mode: Rotate_Mode,
}

impl Rotate {
    /// No value of this type exists.
    #[verifier::type_invariant]
    spec fn never(self) -> bool {
        false
    }
}

impl EffectT for Rotate {
    open spec fn effect_view(&self) -> EffectV {
        EffectV::Rotate
    }

    fn clone_no_caching(&self) -> (r: Effect) {
        proof {
            use_type_invariant(self);
        }
        Effect::new_from_enum(EffectsEnum::Nothing(Nothing::new()))
    }

    fn as_enum(self) -> (r: EffectsEnum) {
        EffectsEnum::Rotate(self)
    }
}

#[allow(non_camel_case_types)]
pub enum Rotate_Mode {
    MirrorPoint,
    MirrorAxis,
    RotatePoint,
    /// Like RotatePoint, but the 'far' curve gives the rotation far from the center
    /// and the 'out' curve how much of each curve is used.
    RotatePointSpiral { out: Curve, far: Curve },
}

/// Moves the video back and forth.
pub struct Shake {
    pub shake_dist_x: Number,
    pub shake_dist_y: Number,
    pub shakes_count_x: Number,
    pub shakes_count_y: Number,
}

impl Shake {
    pub fn new(shake_dist_x: Number, shake_dist_y: Number, shakes_count_x: Number, shakes_count_y: Number) -> (r: Shake)
        ensures
            r.shake_dist_x == shake_dist_x,
            r.shake_dist_y == shake_dist_y,
            r.shakes_count_x == shakes_count_x,
            r.shakes_count_y == shakes_count_y,
    {
        Shake { shake_dist_x, shake_dist_y, shakes_count_x, shakes_count_y }
    }
}

impl EffectT for Shake {
    open spec fn effect_view(&self) -> EffectV {
        EffectV::Shake(self.shake_dist_x@, self.shake_dist_y@, self.shakes_count_x@, self.shakes_count_y@)
    }

    fn clone_no_caching(&self) -> (r: Effect) {
        Effect::new_from_enum(EffectsEnum::Shake(
            Shake::new(
                self.shake_dist_x.clone(),
                self.shake_dist_y.clone(),
                self.shakes_count_x.clone(),
                self.shakes_count_y.clone(),
            ),
        ))
    }

    fn as_enum(self) -> (r: EffectsEnum) {
        EffectsEnum::Shake(self)
    }
}

/// Draws the video at the time that a curve gives for the current time.
pub struct ChangeTime {
    pub time: Curve,
}

impl ChangeTime {
    pub fn new(time: Curve) -> (r: ChangeTime)
        ensures
            r.time == time,
    {
        ChangeTime { time }
    }
}

impl EffectT for ChangeTime {
    open spec fn effect_view(&self) -> EffectV {
        EffectV::ChangeTime(self.time@)
    }

    fn clone_no_caching(&self) -> (r: Effect) {
        Effect::new_from_enum(EffectsEnum::ChangeTime(ChangeTime::new(self.time.clone())))
    }

    fn as_enum(self) -> (r: EffectsEnum) {
        EffectsEnum::ChangeTime(self)
    }
}

/// Maps each color channel through a curve.
pub struct ColorAdjust {
    pub mode: ColorAdjust_Mode,
}

impl ColorAdjust {
    pub fn new(mode: ColorAdjust_Mode) -> (r: ColorAdjust)
        ensures
            r.mode == mode,
    {
        ColorAdjust { mode }
    }
}

impl EffectT for ColorAdjust {
    open spec fn effect_view(&self) -> EffectV {
        color_adjust_view(&self.mode)
    }

    fn clone_no_caching(&self) -> (r: Effect) {
        Effect::new_from_enum(EffectsEnum::ColorAdjust(ColorAdjust::new(self.mode.clone())))
    }

    fn as_enum(self) -> (r: EffectsEnum) {
        EffectsEnum::ColorAdjust(self)
    }
}

#[allow(non_camel_case_types)]
pub enum ColorAdjust_Mode {
    Rgba(Curve, Curve, Curve, Curve),
}

impl Clone for ColorAdjust_Mode {
    fn clone(&self) -> (r: ColorAdjust_Mode)
        ensures
            match (r, self) {
                (ColorAdjust_Mode::Rgba(r1, g1, b1, a1), ColorAdjust_Mode::Rgba(r2, g2, b2, a2)) =>
                    r1@ == r2@ && g1@ == g2@ && b1@ == b2@ && a1@ == a2@,
            },
    {
        match self {
            ColorAdjust_Mode::Rgba(r, g, b, a) => ColorAdjust_Mode::Rgba(r.clone(), g.clone(), b.clone(), a.clone()),
        }
    }
}

/// Blurs the video.
pub struct Blur {
    pub mode: Blur_Mode,
}

impl Blur {
    pub fn new(mode: Blur_Mode) -> (r: Blur)
        ensures
            r.mode == mode,
    {
        Blur { mode }
    }
}

impl EffectT for Blur {
    open spec fn effect_view(&self) -> EffectV {
        blur_view(&self.mode)
    }

    fn clone_no_caching(&self) -> (r: Effect) {
        Effect::new_from_enum(EffectsEnum::Blur(Blur::new(self.mode.clone())))
    }

    fn as_enum(self) -> (r: EffectsEnum) {
        EffectsEnum::Blur(self)
    }
}

#[allow(non_camel_case_types)]
pub enum Blur_Mode {
    Square { radius: Curve },
    Downscale { width: Curve, height: Curve },
}

impl Clone for Blur_Mode {
    fn clone(&self) -> (r: Blur_Mode)
        ensures
            match (r, self) {
                (Blur_Mode::Square { radius: a }, Blur_Mode::Square { radius: b }) => a@ == b@,
                (Blur_Mode::Downscale { width: w1, height: h1 }, Blur_Mode::Downscale { width: w2, height: h2 }) =>
                    w1@ == w2@ && h1@ == h2@,
                _ => false,
            },
    {
        match self {
            Blur_Mode::Square { radius } => Blur_Mode::Square { radius: radius.clone() },
            Blur_Mode::Downscale { width, height } => Blur_Mode::Downscale { width: width.clone(), height: height.clone() },
        }
    }
}

/// Makes pixels of certain colors transparent.
pub struct ColorKey {
    pub mode: ColorKey_Mode,
}

impl ColorKey {
    pub fn new(mode: ColorKey_Mode) -> (r: ColorKey)
        ensures
            r.mode == mode,
    {
        ColorKey { mode }
    }
}

impl ColorKey {
    /// Makes the pixels of the drawn image `img` whose colors are keyed out
    /// transparent.
    pub fn process_pixels(&self, img: &mut RgbaImage)
        requires
            old(img).wf(),
        ensures
            final(img).wf(),
            final(img).width == old(img).width,
            final(img).height == old(img).height,
            forall|y: int, x: int| 0 <= y < old(img).height && 0 <= x < old(img).width
                ==> #[trigger] final(img).rows@[y]@[x] == self.mode.keyed(old(img).rows@[y]@[x]),
    {
        let w = img.width;
        let h = img.height;
        let mut new_rows: Vec<Vec<[u8; 4]>> = Vec::new();
        let mut y: u32 = 0;
        while y < h
            invariant
                y <= h,
                h == img.height,
                w == img.width,
                img.wf(),
                new_rows@.len() == y,
                forall|j: int| 0 <= j < y ==> (#[trigger] new_rows@[j])@.len() == w,
                forall|j: int, x: int| 0 <= j < y && 0 <= x < w ==> #[trigger] new_rows@[j]@[x] == self.mode.keyed(img.rows@[j]@[x]),
            decreases h - y,
        {
            let mut row: Vec<[u8; 4]> = Vec::new();
            let mut x: u32 = 0;
            while x < w
                invariant
                    x <= w,
                    y < h,
                    h == img.height,
                    w == img.width,
                    img.wf(),
                    row@.len() == x,
                    forall|i: int| 0 <= i < x ==> #[trigger] row@[i] == self.mode.keyed(img.rows@[y as int]@[i]),
                decreases w - x,
            {
                let px = img.rows[y as usize][x as usize];
                let k = self.mode.get_color(px);
                assert(k =~= self.mode.keyed(px));
                row.push(k);
                x = x + 1;
            }
            new_rows.push(row);
            y = y + 1;
        }
        img.rows = new_rows;
    }
}

impl EffectT for ColorKey {
    open spec fn effect_view(&self) -> EffectV {
        EffectV::ColorKey(self.mode)
    }

    fn clone_no_caching(&self) -> (r: Effect) {
        Effect::new_from_enum(EffectsEnum::ColorKey(ColorKey::new(self.mode)))
    }

    fn as_enum(self) -> (r: EffectsEnum) {
        EffectsEnum::ColorKey(self)
    }
}

#[allow(non_camel_case_types)]
#[derive(Clone, Copy, Debug)]
pub enum ColorKey_Mode {
    TransparentIfMatches((u8, u8, u8)),
    TransparentIfRange(((u8, u8), (u8, u8), (u8, u8))),
}

impl ColorKey_Mode {
    /// Whether a pixel with the color `rgb` is keyed out.
    pub open spec fn keys_out(self, o: [u8; 4]) -> bool {
        match self {
            ColorKey_Mode::TransparentIfMatches((r, g, b)) => o[0] == r && o[1] == g && o[2] == b,
            ColorKey_Mode::TransparentIfRange(((r1, r2), (g1, g2), (b1, b2))) =>
                r1 <= o[0] <= r2 && g1 <= o[1] <= g2 && b1 <= o[2] <= b2,
        }
    }

    /// The pixel `o` with its opacity set to 0 if its color is keyed out.
    pub open spec fn keyed(self, o: [u8; 4]) -> [u8; 4] {
        [o[0], o[1], o[2], if self.keys_out(o) { 0 } else { o[3] }]
    }

    /// The pixel `o` with its alpha set to 0 if its color is keyed out, else unchanged.
    pub fn get_color(&self, o: [u8; 4]) -> (r: [u8; 4])
        ensures
            r[0] == o[0] && r[1] == o[1] && r[2] == o[2],
            r[3] == (if self.keys_out(o) { 0 } else { o[3] }),
    {
        let mut o = o;
        match self {
            ColorKey_Mode::TransparentIfMatches((rr, gg, bb)) => {
                if o[0] == *rr && o[1] == *gg && o[2] == *bb {
                    o[3] = 0;
                    o
                } else {
                    o
                }
            },
            ColorKey_Mode::TransparentIfRange(((r1, r2), (g1, g2), (b1, b2))) => {
                if *r1 <= o[0] && o[0] <= *r2 && *g1 <= o[1] && o[1] <= *g2 && *b1 <= o[2] && o[2] <= *b2 {
                    o[3] = 0;
                    o
                } else {
                    o
                }
            },
        }
    }
}


/// Turning a pixel grey gives its three color channels one value, the average of the
/// three rounded down, whichever order they come in; the opacity stays.
pub proof fn lemma_gray_is_the_average(px: [u8; 4])
    ensures
        gray_pixel(px)[0] == gray_pixel(px)[1],
        gray_pixel(px)[1] == gray_pixel(px)[2],
        3 * gray_pixel(px)[0] <= px[0] + px[1] + px[2] < 3 * gray_pixel(px)[0] + 3,
        gray_pixel(px)[3] == px[3],
        gray_pixel([px[1], px[0], px[2], px[3]]) == gray_pixel(px),
        gray_pixel([px[2], px[1], px[0], px[3]]) == gray_pixel(px),
        gray_pixel([px[0], px[2], px[1], px[3]]) == gray_pixel(px),
{
    let s = px[0] + px[1] + px[2];
    assert(0 <= s / 3 <= 255);
    assert(gray_pixel(px)[0] == s / 3);
    assert(gray_pixel([px[1], px[0], px[2], px[3]]) =~= gray_pixel(px));
    assert(gray_pixel([px[2], px[1], px[0], px[3]]) =~= gray_pixel(px));
    assert(gray_pixel([px[0], px[2], px[1], px[3]]) =~= gray_pixel(px));
}

} // verus!
