//! Images as rows of RGBA pixels, and drawing one image onto another.

use vstd::prelude::*;
use crate::video::{CompositingMethod, CompositingMethodV, blend_channel, composite_pixels_transparency_support, lemma_blend_channel};

verus! {

/// An image: `height` rows of `width` RGBA pixels each.
pub struct RgbaImage {
    pub width: u32,
    pub height: u32,
    pub rows: Vec<Vec<[u8; 4]>>,
}

/// The pixels of an image, row by row.
pub open spec fn rows_v(rows: Seq<Vec<[u8; 4]>>) -> Seq<Seq<[u8; 4]>> {
    Seq::new(rows.len(), |y: int| rows[y]@)
}

/// The abstract value of an image: its size and its pixels, row by row.
pub struct RgbaImageV {
    pub width: u32,
    pub height: u32,
    pub rows: Seq<Seq<[u8; 4]>>,
}

impl View for RgbaImage {
    type V = RgbaImageV;

    open spec fn view(&self) -> RgbaImageV {
        RgbaImageV { width: self.width, height: self.height, rows: rows_v(self.rows@) }
    }
}

impl RgbaImage {
    /// The image has `height` rows of `width` pixels.
    pub open spec fn wf(&self) -> bool {
        &&& self.rows@.len() == self.height
        &&& forall|y: int| 0 <= y < self.height ==> (#[trigger] self.rows@[y])@.len() == self.width
    }

    /// An image of `width` by `height` pixels, all of them `color`.
    pub fn filled(width: u32, height: u32, color: [u8; 4]) -> (r: RgbaImage)
        ensures
            r.wf(),
            r.width == width,
            r.height == height,
            forall|y: int, x: int| 0 <= y < height && 0 <= x < width ==> #[trigger] r.rows@[y]@[x] == color,
    {
        let mut rows: Vec<Vec<[u8; 4]>> = Vec::new();
        let mut y: u32 = 0;
        while y < height
            invariant
                y <= height,
                rows@.len() == y,
                forall|j: int| 0 <= j < y ==> (#[trigger] rows@[j])@.len() == width,
                forall|j: int, x: int| 0 <= j < y && 0 <= x < width ==> #[trigger] rows@[j]@[x] == color,
            decreases height - y,
        {
            let mut row: Vec<[u8; 4]> = Vec::new();
            let mut x: u32 = 0;
            while x < width
                invariant
                    x <= width,
                    row@.len() == x,
                    forall|i: int| 0 <= i < x ==> #[trigger] row@[i] == color,
                decreases width - x,
            {
                row.push(color);
                x = x + 1;
            }
            rows.push(row);
            y = y + 1;
        }
        RgbaImage { width, height, rows }
    }
}

/// The pixel `new` written over `old` by the compositing method `m` (which is not
/// `Ignore` nor `Manual`): opaque keeps the color and makes it fully opaque; direct
/// copies it; transparency support mixes the two by the new pixel's alpha.
pub open spec fn composited_pixel(m: CompositingMethodV, old: [u8; 4], new: [u8; 4]) -> [u8; 4] {
    match m {
        CompositingMethodV::Opaque => [new[0], new[1], new[2], 255],
        CompositingMethodV::Direct => new,
        CompositingMethodV::TransparencySupport => [
            blend_channel(old[0], new[0], new[3]) as u8,
            blend_channel(old[1], new[1], new[3]) as u8,
            blend_channel(old[2], new[2], new[3]) as u8,
            255,
        ],
        _ => old,
    }
}

/// The pixel at `x`, `y` of the image `dest` after `src` was drawn onto it with its
/// top left corner at `px`, `py`.
pub open spec fn composited_at(
    dest: Seq<Seq<[u8; 4]>>,
    src: Seq<Seq<[u8; 4]>>,
    sw: int,
    sh: int,
    px: int,
    py: int,
    m: CompositingMethodV,
    x: int,
    y: int,
) -> [u8; 4] {
    let sx = x - px;
    let sy = y - py;
    if 0 <= sx < sw && 0 <= sy < sh && !(m is Ignore) {
        composited_pixel(m, dest[y][x], src[sy][sx])
    } else {
        dest[y][x]
    }
}

/// Draws `img` onto `image` with its top left corner at `pos`, following the
/// compositing method `compositing`; the pixels of `img` that fall outside `image`
/// are left out. Manual compositing is not supported.
pub fn composite_images(image: &mut RgbaImage, img: &RgbaImage, pos: (i32, i32), compositing: &CompositingMethod)
    requires
        old(image).wf(),
        img.wf(),
        !(compositing@ is Manual),
    ensures
        final(image).wf(),
        final(image).width == old(image).width,
        final(image).height == old(image).height,
        forall|y: int, x: int|
            0 <= y < old(image).height && 0 <= x < old(image).width ==> #[trigger] final(image).rows@[y]@[x] == composited_at(
                rows_v(old(image).rows@),
                rows_v(img.rows@),
                img.width as int,
                img.height as int,
                pos.0 as int,
                pos.1 as int,
                compositing@,
                x,
                y,
            ),
{
    let ghost dest = rows_v(image.rows@);
    let ghost srcv = rows_v(img.rows@);
    let w = image.width;
    let h = image.height;
    let mut new_rows: Vec<Vec<[u8; 4]>> = Vec::new();
    let mut y: u32 = 0;
    while y < h
        invariant
            y <= h,
            h == image.height,
            w == image.width,
            image.wf(),
            img.wf(),
            dest == rows_v(image.rows@),
            srcv == rows_v(img.rows@),
            new_rows@.len() == y,
            forall|j: int| 0 <= j < y ==> (#[trigger] new_rows@[j])@.len() == w,
            forall|j: int, x: int| 0 <= j < y && 0 <= x < w ==> #[trigger] new_rows@[j]@[x] == composited_at(
                dest, srcv, img.width as int, img.height as int, pos.0 as int, pos.1 as int, compositing@, x, j),
        decreases h - y,
    {
        let mut row: Vec<[u8; 4]> = Vec::new();
        let mut x: u32 = 0;
        let sy: i64 = y as i64 - pos.1 as i64;
        while x < w
            invariant
                x <= w,
                y < h,
                h == image.height,
                w == image.width,
                image.wf(),
                img.wf(),
                dest == rows_v(image.rows@),
                srcv == rows_v(img.rows@),
                sy == y - pos.1,
                row@.len() == x,
                forall|i: int| 0 <= i < x ==> #[trigger] row@[i] == composited_at(
                    dest, srcv, img.width as int, img.height as int, pos.0 as int, pos.1 as int, compositing@, i, y as int),
            decreases w - x,
        {
            let old_px = image.rows[y as usize][x as usize];
            assert(old_px == dest[y as int][x as int]);
            let sx: i64 = x as i64 - pos.0 as i64;
            let p = if 0 <= sx && sx < img.width as i64 && 0 <= sy && sy < img.height as i64 {
                let new_px = img.rows[sy as usize][sx as usize];
                assert(new_px == srcv[sy as int][sx as int]);
                match compositing {
                    CompositingMethod::Ignore => old_px,
                    CompositingMethod::Opaque => [new_px[0], new_px[1], new_px[2], 255],
                    CompositingMethod::Direct => new_px,
                    CompositingMethod::TransparencySupport => {
                        let mut px = old_px;
                        composite_pixels_transparency_support(&mut px, &new_px);
                        let r = px;
                        assert(r =~= [
                            blend_channel(old_px[0], new_px[0], new_px[3]) as u8,
                            blend_channel(old_px[1], new_px[1], new_px[3]) as u8,
                            blend_channel(old_px[2], new_px[2], new_px[3]) as u8,
                            255u8,
                        ]);
                        r
                    },
                    CompositingMethod::Manual(_) => old_px,
                }
            } else {
                old_px
            };
            row.push(p);
            x = x + 1;
        }
        new_rows.push(row);
        y = y + 1;
    }
    image.rows = new_rows;
}


/// Drawing with transparency support mixes each color channel by the drawn pixel's
/// opacity, `(old * (255 - alpha) + new * alpha) / 255`, and makes the result opaque:
/// an opaque pixel covers what is below it and a fully transparent one leaves it.
/// Opaque drawing keeps the drawn colors and makes them opaque; direct drawing copies
/// the pixel; ignoring keeps what is below.
pub proof fn lemma_compositing_methods(old: [u8; 4], new: [u8; 4])
    ensures
        ({
            let t = composited_pixel(CompositingMethodV::TransparencySupport, old, new);
            &&& forall|i: int| 0 <= i < 3 ==> #[trigger] t[i] == (old[i] * (255 - new[3]) + new[i] * new[3]) / 255
            &&& t[3] == 255
            &&& new[3] == 255 ==> t == [new[0], new[1], new[2], 255]
            &&& new[3] == 0 ==> t == [old[0], old[1], old[2], 255]
        }),
        composited_pixel(CompositingMethodV::Opaque, old, new) == [new[0], new[1], new[2], 255],
        composited_pixel(CompositingMethodV::Direct, old, new) == new,
        composited_pixel(CompositingMethodV::Ignore, old, new) == old,
{
    let t = composited_pixel(CompositingMethodV::TransparencySupport, old, new);
    assert forall|i: int| 0 <= i < 3 implies #[trigger] t[i] == (old[i] * (255 - new[3]) + new[i] * new[3]) / 255 by {
        lemma_blend_channel(old[i], new[i], new[3]);
        assert(0 <= (old[i] * (255 - new[3]) + new[i] * new[3]) / 255 <= 255) by {
            let o = old[i] as int;
            let n = new[i] as int;
            let a = new[3] as int;
            assert(o * (255 - a) + n * a <= 255 * 255) by (nonlinear_arith)
                requires
                    0 <= a <= 255,
                    0 <= o <= 255,
                    0 <= n <= 255,
            ;
            assert(0 <= o * (255 - a) + n * a) by (nonlinear_arith)
                requires
                    0 <= a <= 255,
                    0 <= o <= 255,
                    0 <= n <= 255,
            ;
        }
    }
    if new[3] == 255 {
        lemma_blend_channel(old[0], new[0], new[3]);
        lemma_blend_channel(old[1], new[1], new[3]);
        lemma_blend_channel(old[2], new[2], new[3]);
        assert(t =~= [new[0], new[1], new[2], 255]);
    }
    if new[3] == 0 {
        lemma_blend_channel(old[0], new[0], new[3]);
        lemma_blend_channel(old[1], new[1], new[3]);
        lemma_blend_channel(old[2], new[2], new[3]);
        assert(t =~= [old[0], old[1], old[2], 255]);
    }
}

} // verus!
