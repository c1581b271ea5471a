//! Image files: decoding their bytes into pixels, and scaling pixels to a new size,
//! both done by the `image` crate.

use vstd::prelude::*;
use crate::image_buffer::{RgbaImage, RgbaImageV};

verus! {

/// The filter used to scale an image.
#[derive(Clone, Copy, PartialEq, Eq, Structural, Debug)]
pub enum ScalingFilter {
    Nearest,
    Triangle,
    CatmullRom,
    Gaussian,
    Lanczos3,
}

/// The pixel whose four bytes (red, green, blue, alpha) start at `k` of `raw`.
pub open spec fn pixel_at(raw: Seq<u8>, k: int) -> [u8; 4] {
    [raw[k], raw[k + 1], raw[k + 2], raw[k + 3]]
}

/// The image of `width` by `height` pixels whose bytes are `raw`: row after row, four
/// bytes per pixel.
pub open spec fn raw_image(width: u32, height: u32, raw: Seq<u8>) -> RgbaImageV {
    RgbaImageV {
        width,
        height,
        rows: Seq::new(height as nat, |y: int| Seq::new(width as nat, |x: int| pixel_at(raw, (y * width + x) * 4))),
    }
}

/// What the `image` crate decodes from the bytes `bytes` of an image file: its width,
/// its height and its pixels in RGBA, four bytes each; `None` where it cannot decode
/// them.
pub uninterp spec fn decoded_rgba(bytes: Seq<u8>) -> Option<(u32, u32, Seq<u8>)>;

/// `image::load_from_memory`, then `to_rgba8` and `into_raw`: decodes the bytes of an
/// image file (its format guessed from the bytes) into RGBA pixels, or fails. Stated:
/// the result is the one named `decoded_rgba` of the bytes, and it holds four bytes
/// for each pixel (`to_rgba8` makes a buffer of exactly that size).
#[verifier::external_body]
pub(crate) fn decode_rgba(bytes: &Vec<u8>) -> (r: Option<(u32, u32, Vec<u8>)>)
    ensures
        match r {
            Some((w, h, px)) => decoded_rgba(bytes@) == Some((w, h, px@)) && px@.len() == w * h * 4,
            None => decoded_rgba(bytes@) is None,
        },
{
    match image::load_from_memory(bytes) {
        Ok(img) => {
            let buf = img.to_rgba8();
            let (w, h) = buf.dimensions();
            Some((w, h, buf.into_raw()))
        },
        Err(_) => None,
    }
}

/// What `image::imageops::resize` makes of the RGBA image of `width` by `height` pixels
/// with the bytes `raw`, scaled to `new_width` by `new_height` pixels with `filter`: the
/// bytes of the new image.
pub uninterp spec fn resized_rgba(width: u32, height: u32, raw: Seq<u8>, new_width: u32, new_height: u32, filter: ScalingFilter) -> Seq<u8>;

/// Whether `image::imageops::resize` can scale a `width` by `height` image to
/// `new_width` by `new_height`: at the same size it copies the image; otherwise the
/// buffers it allocates (a float one of `width` by `new_height` pixels on the way, then
/// the result) must fit in memory's address range.
pub open spec fn resize_ok(width: u32, height: u32, new_width: u32, new_height: u32) -> bool {
    (new_width == width && new_height == height) || (width * new_height * 16 <= isize::MAX && new_width * new_height * 4
        <= isize::MAX)
}

/// `image::imageops::resize` on the RGBA image of `width` by `height` pixels whose bytes
/// are `raw`. Stated: the result is the one named `resized_rgba` of the arguments; it
/// has four bytes per pixel of the new size; at the same size it is a copy.
#[verifier::external_body]
fn resize_rgba(width: u32, height: u32, raw: &Vec<u8>, new_width: u32, new_height: u32, filter: ScalingFilter) -> (r: Vec<u8>)
    requires
        raw@.len() == width * height * 4,
        resize_ok(width, height, new_width, new_height),
    ensures
        r@ == resized_rgba(width, height, raw@, new_width, new_height, filter),
        r@.len() == new_width * new_height * 4,
        new_width == width && new_height == height ==> r@ == raw@,
{
    let buf = image::RgbaImage::from_raw(width, height, raw.clone()).unwrap();
    let f = match filter {
        ScalingFilter::Nearest => image::imageops::FilterType::Nearest,
        ScalingFilter::Triangle => image::imageops::FilterType::Triangle,
        ScalingFilter::CatmullRom => image::imageops::FilterType::CatmullRom,
        ScalingFilter::Gaussian => image::imageops::FilterType::Gaussian,
        ScalingFilter::Lanczos3 => image::imageops::FilterType::Lanczos3,
    };
    image::imageops::resize(&buf, new_width, new_height, f).into_raw()
}

/// The image of `width` by `height` pixels whose bytes, row after row and four per
/// pixel, are `raw`.
pub fn image_from_raw(width: u32, height: u32, raw: &Vec<u8>) -> (r: RgbaImage)
    requires
        raw@.len() == width * height * 4,
    ensures
        r.wf(),
        r@ == raw_image(width, height, raw@),
{
    let ghost want = raw_image(width, height, raw@);
    let n = raw.len();
    let mut rows: Vec<Vec<[u8; 4]>> = Vec::new();
    let mut k: usize = 0;
    let mut y: u32 = 0;
    while y < height
        invariant
            y <= height,
            raw@.len() == width * height * 4,
            n == raw@.len(),
            rows@.len() == y,
            k == y * width * 4,
            want == raw_image(width, height, raw@),
            forall|j: int| 0 <= j < y ==> (#[trigger] rows@[j])@ == want.rows[j],
        decreases height - y,
    {
        let mut row: Vec<[u8; 4]> = Vec::new();
        let mut x: u32 = 0;
        while x < width
            invariant
                x <= width,
                y < height,
                raw@.len() == width * height * 4,
                n == raw@.len(),
                row@.len() == x,
                k == (y * width + x) * 4,
                forall|i: int| 0 <= i < x ==> #[trigger] row@[i] == pixel_at(raw@, (y * width + i) * 4),
            decreases width - x,
        {
            assert((y * width + x) * 4 + 4 <= width * height * 4) by (nonlinear_arith)
                requires
                    x < width,
                    y < height,
            ;
            let p: [u8; 4] = [raw[k], raw[k + 1], raw[k + 2], raw[k + 3]];
            row.push(p);
            k = k + 4;
            x = x + 1;
        }
        assert((y * width + width) * 4 == (y + 1) * width * 4) by (nonlinear_arith);
        assert(row@ =~= want.rows[y as int]);
        rows.push(row);
        y = y + 1;
    }
    let r = RgbaImage { width, height, rows };
    assert(r@.rows =~= want.rows);
    r
}

/// Decodes the bytes of an image file (see `decoded_rgba`): the image, or `None` where
/// they cannot be decoded.
pub fn decode_image(bytes: Vec<u8>) -> (r: Option<RgbaImage>)
    ensures
        r is Some <==> decoded_rgba(bytes@) is Some,
        r matches Some(i) ==> i.wf() && (decoded_rgba(bytes@) matches Some((w, h, raw)) && i@ == raw_image(w, h, raw)),
{
    match decode_rgba(&bytes) {
        Some((w, h, raw)) => Some(image_from_raw(w, h, &raw)),
        None => None,
    }
}

/// Scales the RGBA image of `width` by `height` pixels with the bytes `raw` to
/// `new_width` by `new_height` (see `resized_rgba`).
pub fn scale_raw(width: u32, height: u32, raw: &Vec<u8>, new_width: u32, new_height: u32, filter: ScalingFilter) -> (r: RgbaImage)
    requires
        raw@.len() == width * height * 4,
        resize_ok(width, height, new_width, new_height),
    ensures
        r.wf(),
        r@ == raw_image(new_width, new_height, resized_rgba(width, height, raw@, new_width, new_height, filter)),
{
    let scaled = resize_rgba(width, height, raw, new_width, new_height, filter);
    image_from_raw(new_width, new_height, &scaled)
}

} // verus!
