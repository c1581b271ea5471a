//! The things a video can show: images, videos read through ffmpeg, texts and
//! directories full of frames.

use vstd::prelude::*;
use crate::curve::CurveV;
use crate::external_program::{ExternalProgram, ExternalProgramV, clone_strings};
use crate::types::{Color, ColorV};
use crate::paths::{push_path, pushed};
use crate::strings::{chars_of, append_str};
use crate::numbers::{decimal_string, decimal_text};
use crate::image_buffer::{RgbaImage, RgbaImageV};
use crate::image_file::{ScalingFilter, decode_rgba, decoded_rgba, resize_ok, resized_rgba, raw_image, scale_raw};

verus! {

#[derive(Clone, Copy, PartialEq, Eq, Structural, Debug)]
pub enum GenericContentHighlighted {
    No,
    Selected,
}

/// What all content has in common: whether the editor shows it as selected.
#[derive(Clone, Copy, PartialEq, Eq, Structural, Debug)]
pub struct GenericContentData {
    pub highlighted: GenericContentHighlighted,
}

impl GenericContentData {
    /// Data of content that is not selected.
    pub fn new() -> (r: GenericContentData)
        ensures
            r == (GenericContentData { highlighted: GenericContentHighlighted::No }),
    {
        GenericContentData { highlighted: GenericContentHighlighted::No }
    }

    /// Fresh data for a copy of the content: not selected.
    pub fn reset(&self) -> (r: GenericContentData)
        ensures
            r == (GenericContentData { highlighted: GenericContentHighlighted::No }),
    {
        Self::new()
    }
}

// ------------------------------------------------------------------ Image

/// The abstract value of an image.
pub struct ImageV {
    pub path: Seq<char>,
    pub external_command: Option<(Seq<char>, Seq<Seq<char>>)>,
    /// The placeholders replaced in the command's arguments, and by what.
    pub replacements: Seq<(Seq<char>, Seq<char>)>,
    pub data: GenericContentData,
    pub changed_path: Option<Seq<char>>,
    /// The decoded file: width, height and RGBA bytes.
    pub original: Option<(u32, u32, Seq<u8>)>,
    /// The last load found no image.
    pub failed_to_load: bool,
    /// The image scaled to the size last asked for, and the filter used.
    pub scaled: Option<(ScalingFilter, RgbaImageV)>,
}

/// An image file.
pub struct Image {
    path: String,
    failed_to_load_image: bool,
    /// If set, this command is run every time the image is shown, before the file is read.
    external_command: Option<(String, Vec<String>)>,
    external_command_replacements: Vec<(String, String)>,
    img_original: Option<(u32, u32, Vec<u8>)>,
    img_scaled: Option<(ScalingFilter, RgbaImage)>,
    generic_content_data: GenericContentData,
    as_content_changes: ImageChanges,
}

/// Changes to an image that are applied later.
pub struct ImageChanges {
    pub path: Option<String>,
}

impl ImageChanges {
    /// No change.
    pub fn none() -> (r: ImageChanges)
        ensures
            r.path is None,
    {
        ImageChanges { path: None }
    }
}

pub open spec fn strings_view(v: Seq<String>) -> Seq<Seq<char>> {
    Seq::new(v.len(), |i: int| v[i]@)
}

pub open spec fn pairs_view(v: Seq<(String, String)>) -> Seq<(Seq<char>, Seq<char>)> {
    Seq::new(v.len(), |i: int| (v[i].0@, v[i].1@))
}

impl View for Image {
    type V = ImageV;

    closed spec fn view(&self) -> ImageV {
        ImageV {
            path: self.path@,
            external_command: match &self.external_command {
                Some((c, args)) => Some((c@, strings_view(args@))),
                None => None,
            },
            replacements: pairs_view(self.external_command_replacements@),
            data: self.generic_content_data,
            changed_path: match &self.as_content_changes.path {
                Some(p) => Some(p@),
                None => None,
            },
            original: match &self.img_original {
                Some((w, h, px)) => Some((*w, *h, px@)),
                None => None,
            },
            failed_to_load: self.failed_to_load_image,
            scaled: match &self.img_scaled {
                Some((f, i)) => Some((*f, i@)),
                None => None,
            },
        }
    }
}

/// A fresh image of the file at `path`.
pub open spec fn new_image(path: Seq<char>) -> ImageV {
    ImageV {
        path,
        external_command: None,
        replacements: Seq::empty(),
        data: GenericContentData { highlighted: GenericContentHighlighted::No },
        changed_path: None,
        original: None,
        failed_to_load: false,
        scaled: None,
    }
}

/// `img` pointed to the file at `path`: what was read from the old file is dropped.
pub open spec fn with_path(img: ImageV, path: Seq<char>) -> ImageV {
    ImageV { path, original: None, scaled: None, failed_to_load: false, ..img }
}

/// `s` with `with` written after each of its characters.
pub open spec fn after_each(s: Seq<char>, with: Seq<char>) -> Seq<char>
    decreases s.len(),
{
    if s.len() == 0 {
        s
    } else {
        seq![s[0]] + with + after_each(s.drop_first(), with)
    }
}

/// `s` with each place where the non-empty `pat` is found, from the left and not
/// overlapping, replaced by `with`.
pub open spec fn replaced_from_left(s: Seq<char>, pat: Seq<char>, with: Seq<char>) -> Seq<char>
    decreases s.len(),
{
    if s.len() == 0 || pat.len() == 0 {
        s
    } else if pat.len() <= s.len() && s.take(pat.len() as int) == pat {
        with + replaced_from_left(s.skip(pat.len() as int), pat, with)
    } else {
        seq![s[0]] + replaced_from_left(s.drop_first(), pat, with)
    }
}

/// `s` with each place where `pat` is found replaced by `with`, as `str::replace` does:
/// from the left and not overlapping; an empty `pat` is found before every character
/// and at the end.
pub open spec fn text_replaced(s: Seq<char>, pat: Seq<char>, with: Seq<char>) -> Seq<char> {
    if pat.len() == 0 {
        with + after_each(s, with)
    } else {
        replaced_from_left(s, pat, with)
    }
}

/// `s` after each pair of `reps` (a placeholder and its text) was replaced, in order.
pub open spec fn replaced_in_order(s: Seq<char>, reps: Seq<(Seq<char>, Seq<char>)>) -> Seq<char>
    decreases reps.len(),
{
    if reps.len() == 0 {
        s
    } else {
        replaced_in_order(text_replaced(s, reps[0].0, reps[0].1), reps.drop_first())
    }
}

/// Whether `pat` is found at place `i` of `s`.
fn found_at(s: &Vec<char>, pat: &Vec<char>, i: usize) -> (r: bool)
    requires
        i <= s@.len(),
    ensures
        r == (pat@.len() <= s@.skip(i as int).len() && s@.skip(i as int).take(pat@.len() as int) == pat@),
{
    if pat.len() > s.len() - i {
        return false;
    }
    let n = s.len();
    let mut j: usize = 0;
    while j < pat.len()
        invariant
            j <= pat@.len(),
            n == s@.len(),
            i + pat@.len() <= s@.len(),
            forall|m: int| 0 <= m < j ==> s@[i + m] == pat@[m],
        decreases pat@.len() - j,
    {
        if s[i + j] != pat[j] {
            assert(s@.skip(i as int).take(pat@.len() as int)[j as int] != pat@[j as int]);
            return false;
        }
        j = j + 1;
    }
    assert(s@.skip(i as int).take(pat@.len() as int) =~= pat@);
    true
}

/// `s` with each place where `pat` is found replaced by `with` (see `text_replaced`).
pub fn replace_text(s: &String, pat: &String, with: &String) -> (r: String)
    ensures
        r@ == text_replaced(s@, pat@, with@),
{
    let cs = chars_of(s.as_str());
    let ps = chars_of(pat.as_str());
    let mut out = String::new();
    let ghost want = text_replaced(s@, pat@, with@);
    let mut i: usize = 0;
    assert(cs@.skip(0) =~= s@);
    if ps.len() == 0 {
        append_str(&mut out, with.as_str());
    }
    assert(out@ =~= (if pat@.len() == 0 { with@ } else { Seq::<char>::empty() }));
    while i < cs.len()
        invariant
            i <= cs@.len(),
            cs@ == s@,
            ps@ == pat@,
            want == text_replaced(s@, pat@, with@),
            pat@.len() == 0 ==> want == out@ + after_each(cs@.skip(i as int), with@),
            pat@.len() > 0 ==> want == out@ + replaced_from_left(cs@.skip(i as int), pat@, with@),
        decreases cs@.len() - i,
    {
        let ghost rest = cs@.skip(i as int);
        let ghost o = out@;
        if ps.len() > 0 && found_at(&cs, &ps, i) {
            append_str(&mut out, with.as_str());
            assert(rest.skip(pat@.len() as int) =~= cs@.skip(i + pat@.len()));
            assert(o + (with@ + replaced_from_left(rest.skip(pat@.len() as int), pat@, with@)) =~= out@
                + replaced_from_left(cs@.skip(i + pat@.len()), pat@, with@));
            i = i + ps.len();
        } else {
            out.push(cs[i]);
            assert(rest.drop_first() =~= cs@.skip(i + 1));
            assert(rest[0] == cs@[i as int]);
            if ps.len() == 0 {
                append_str(&mut out, with.as_str());
                assert(o + (seq![rest[0]] + with@ + after_each(rest.drop_first(), with@)) =~= out@ + after_each(
                    cs@.skip(i + 1),
                    with@,
                ));
            } else {
                assert(o + (seq![rest[0]] + replaced_from_left(rest.drop_first(), pat@, with@)) =~= out@
                    + replaced_from_left(cs@.skip(i + 1), pat@, with@));
            }
            i = i + 1;
        }
    }
    assert(cs@.skip(i as int) =~= Seq::<char>::empty());
    assert(want =~= out@);
    out
}

/// The arguments `args` with the placeholders of `reps` replaced in each, in order.
pub open spec fn args_replaced(args: Seq<Seq<char>>, reps: Seq<(Seq<char>, Seq<char>)>) -> Seq<Seq<char>> {
    Seq::new(args.len(), |i: int| replaced_in_order(args[i], reps))
}

/// The arguments of an image's command with each placeholder of `replacements`
/// replaced, one after the other.
pub fn command_args(args: &Vec<String>, replacements: &Vec<(String, String)>) -> (r: Vec<String>)
    ensures
        strings_view(r@) == args_replaced(strings_view(args@), pairs_view(replacements@)),
{
    let ghost reps = pairs_view(replacements@);
    let mut r: Vec<String> = Vec::new();
    let mut i: usize = 0;
    while i < args.len()
        invariant
            i <= args@.len(),
            r@.len() == i,
            reps == pairs_view(replacements@),
            forall|k: int| 0 <= k < i ==> (#[trigger] r@[k])@ == replaced_in_order(args@[k]@, reps),
        decreases args@.len() - i,
    {
        let mut a = args[i].clone();
        let mut j: usize = 0;
        assert(reps.skip(0) =~= reps);
        while j < replacements.len()
            invariant
                j <= replacements@.len(),
                reps == pairs_view(replacements@),
                replaced_in_order(args@[i as int]@, reps) == replaced_in_order(a@, reps.skip(j as int)),
            decreases replacements@.len() - j,
        {
            let pair = &replacements[j];
            assert(reps.skip(j as int)[0] == (pair.0@, pair.1@));
            assert(reps.skip(j as int).drop_first() =~= reps.skip(j + 1));
            a = replace_text(&a, &pair.0, &pair.1);
            j = j + 1;
        }
        assert(reps.skip(j as int) =~= Seq::<(Seq<char>, Seq<char>)>::empty());
        r.push(a);
        i = i + 1;
    }
    assert(strings_view(r@) =~= args_replaced(strings_view(args@), reps));
    r
}

/// The placeholders that an image's command may use while the image is drawn: the
/// progress (as written by the caller), the width and height it is drawn at and the
/// image's path.
pub open spec fn draw_replacements(progress: Seq<char>, width: u32, height: u32, path: Seq<char>) -> Seq<(Seq<char>, Seq<char>)> {
    seq![
        ("%d26vid:progress%"@, progress),
        ("%d26vid:imgwidth%"@, decimal_text(width as nat)),
        ("%d26vid:imgheight%"@, decimal_text(height as nat)),
        ("%d26vid:imgpath%"@, path),
    ]
}

/// Whether the image must be read from its file again before it is shown: always
/// where a command makes it, else while nothing was read and no load failed.
pub open spec fn needs_load(img: ImageV) -> bool {
    img.external_command is Some || (img.original is None && !img.failed_to_load)
}

/// Whether the scaled image must be made again for `width` by `height` and `filter`:
/// always where a command makes the image, else unless the one kept has that size
/// and filter.
pub open spec fn needs_rescale(img: ImageV, width: u32, height: u32, filter: ScalingFilter) -> bool {
    img.external_command is Some || !(img.scaled matches Some((f, i)) && f == filter && i.width == width && i.height
        == height)
}

/// Whether the image read can be scaled to `width` by `height` (see `resize_ok`).
pub open spec fn scale_ok(img: ImageV, width: u32, height: u32) -> bool {
    match img.original {
        Some((w, h, _)) => resize_ok(w, h, width, height),
        None => true,
    }
}

/// The image after it was asked for at `width` by `height` with `filter`: where it
/// must be scaled again and its file was read, the file's image scaled.
pub open spec fn scaled_for(img: ImageV, width: u32, height: u32, filter: ScalingFilter) -> ImageV {
    if needs_rescale(img, width, height, filter) {
        match img.original {
            Some((w, h, px)) => ImageV {
                scaled: Some((filter, raw_image(width, height, resized_rgba(w, h, px, width, height, filter)))),
                ..img
            },
            None => img,
        }
    } else {
        img
    }
}

/// What the image keeps after its file's bytes were read (`None` where the file could
/// not be read): what they decode to, and whether that failed.
pub open spec fn loaded(img: ImageV, bytes: Option<Seq<u8>>) -> ImageV {
    let original = match bytes {
        Some(b) => decoded_rgba(b),
        None => None,
    };
    ImageV { original, failed_to_load: if original is None { true } else { img.failed_to_load }, ..img }
}

impl Image {
    /// What was read and scaled fits together.
    #[verifier::type_invariant]
    closed spec fn wf(&self) -> bool {
        &&& (self.img_original matches Some((w, h, px)) ==> px@.len() == w * h * 4)
        &&& (self.img_scaled matches Some((_, i)) ==> i.wf())
    }

    /// The image file at `path`.
    pub fn new(path: String) -> (r: Image)
        ensures
            r@ == new_image(path@),
    {
        let r = Image {
            path,
            failed_to_load_image: false,
            external_command: None,
            external_command_replacements: Vec::new(),
            img_original: None,
            img_scaled: None,
            as_content_changes: ImageChanges::none(),
            generic_content_data: GenericContentData::new(),
        };
        assert(r@.replacements =~= Seq::<(Seq<char>, Seq<char>)>::empty());
        r
    }

    /// Points the image to another file; what was read from the old one is dropped.
    pub fn set_path(&mut self, new: String)
        ensures
            final(self)@ == with_path(old(self)@, new@),
    {
        proof { use_type_invariant(&*self); }
        self.img_original = None;
        self.img_scaled = None;
        self.path = new;
        self.failed_to_load_image = false;
    }

    /// The file that the image shows.
    pub fn path(&self) -> (r: &String)
        ensures
            r@ == self@.path,
    {
        &self.path
    }

    /// The command run every time the image is shown, with its arguments.
    pub fn external_command(&self) -> (r: &Option<(String, Vec<String>)>)
        ensures
            match r {
                Some((c, a)) => self@.external_command == Some((c@, strings_view(a@))),
                None => self@.external_command is None,
            },
    {
        &self.external_command
    }

    /// A copy that shares nothing cached: the same file, nothing else.
    pub fn clone_no_caching(&self) -> (r: Image)
        ensures
            r@ == new_image(self@.path),
    {
        Self::new(self.path.clone())
    }

    /// Whether a change waits to be applied.
    pub fn has_changes(&self) -> (r: bool)
        ensures
            r == (self@.changed_path is Some),
    {
        self.as_content_changes.path.is_some()
    }

    /// Runs `command` with the arguments `args` every time the image is shown, before
    /// its file is read.
    pub fn set_external_command(&mut self, command: String, args: Vec<String>)
        ensures
            final(self)@ == (ImageV { external_command: Some((command@, strings_view(args@))), ..old(self)@ }),
    {
        proof { use_type_invariant(&*self); }
        self.external_command = Some((command, args));
    }

    /// Sets the change that waits to be applied.
    pub fn set_changes(&mut self, changes: ImageChanges)
        ensures
            final(self)@ == (ImageV {
                changed_path: match changes.path {
                    Some(p) => Some(p@),
                    None => None,
                },
                ..old(self)@
            }),
    {
        proof { use_type_invariant(&*self); }
        self.as_content_changes = changes;
    }

    /// Applies the waiting change, if any, and says whether there was one.
    pub fn apply_changes(&mut self) -> (r: bool)
        ensures
            r == (old(self)@.changed_path is Some),
            final(self)@ == (match old(self)@.changed_path {
                Some(p) => with_path(ImageV { changed_path: None, ..old(self)@ }, p),
                None => old(self)@,
            }),
    {
        proof { use_type_invariant(&*self); }
        match &self.as_content_changes.path {
            Some(p) => {
                let path = p.clone();
                self.as_content_changes = ImageChanges::none();
                self.set_path(path);
                true
            },
            None => false,
        }
    }

    /// Before the image is drawn at `width` by `height` at the progress written
    /// `progress`: where a command makes the image, its placeholders are set (see
    /// `draw_replacements`).
    pub fn set_draw_replacements(&mut self, progress: String, width: u32, height: u32)
        ensures
            old(self)@.external_command is Some ==> final(self)@ == (ImageV {
                replacements: draw_replacements(progress@, width, height, old(self)@.path),
                ..old(self)@
            }),
            old(self)@.external_command is None ==> final(self)@ == old(self)@,
    {
        proof { use_type_invariant(&*self); }
        if self.external_command.is_some() {
            let mut reps: Vec<(String, String)> = Vec::new();
            reps.push(("%d26vid:progress%".to_string(), progress));
            reps.push(("%d26vid:imgwidth%".to_string(), decimal_string(width)));
            reps.push(("%d26vid:imgheight%".to_string(), decimal_string(height)));
            reps.push(("%d26vid:imgpath%".to_string(), self.path.clone()));
            proof {
                reveal_strlit("%d26vid:progress%");
                reveal_strlit("%d26vid:imgwidth%");
                reveal_strlit("%d26vid:imgheight%");
                reveal_strlit("%d26vid:imgpath%");
            }
            self.external_command_replacements = reps;
            assert(self@.replacements =~= draw_replacements(progress@, width, height, old(self)@.path));
        }
    }

    /// The command to run before the file is read, with its placeholders replaced (see
    /// `command_args`); `None` where the image has none.
    pub fn command_to_run(&self) -> (r: Option<(String, Vec<String>)>)
        ensures
            match self@.external_command {
                Some((c, a)) => r matches Some((rc, ra)) && rc@ == c && strings_view(ra@) == args_replaced(
                    a,
                    self@.replacements,
                ),
                None => r is None,
            },
    {
        match &self.external_command {
            Some((c, a)) => Some((c.clone(), command_args(a, &self.external_command_replacements))),
            None => None,
        }
    }

    /// Whether the file must be read before the image is shown (see `needs_load`).
    pub fn needs_load(&self) -> (r: bool)
        ensures
            r == needs_load(self@),
    {
        self.external_command.is_some() || (self.img_original.is_none() && !self.failed_to_load_image)
    }

    /// Keeps what the bytes of the image's file decode to (see `loaded`); says whether
    /// they held an image.
    pub fn load_from_bytes(&mut self, bytes: Option<Vec<u8>>) -> (ok: bool)
        ensures
            final(self)@ == loaded(old(self)@, match bytes {
                Some(b) => Some(b@),
                None => None,
            }),
            ok == (final(self)@.original is Some),
    {
        proof { use_type_invariant(&*self); }
        let decoded = match bytes {
            Some(b) => decode_rgba(&b),
            None => None,
        };
        let ok = decoded.is_some();
        self.img_original = decoded;
        if !ok {
            self.failed_to_load_image = true;
        }
        ok
    }

    /// Whether the scaled image must be made again (see `needs_rescale`).
    pub fn needs_rescale(&self, width: u32, height: u32, filter: ScalingFilter) -> (r: bool)
        ensures
            r == needs_rescale(self@, width, height, filter),
    {
        if self.external_command.is_some() {
            return true;
        }
        match &self.img_scaled {
            Some((f, i)) => !(*f == filter && i.width == width && i.height == height),
            None => true,
        }
    }

    /// Whether the image read can be scaled to `width` by `height` (see `scale_ok`).
    pub fn can_scale_to(&self, width: u32, height: u32) -> (r: bool)
        ensures
            r == scale_ok(self@, width, height),
    {
        match &self.img_original {
            Some((w, h, _)) => {
                if width == *w && height == *h {
                    true
                } else {
                    let ww: u64 = *w as u64;
                    let nw: u64 = width as u64;
                    let nh: u64 = height as u64;
                    assert(ww * nh <= u64::MAX) by (nonlinear_arith)
                        requires ww <= u32::MAX, nh <= u32::MAX;
                    assert(nw * nh <= u64::MAX) by (nonlinear_arith)
                        requires nw <= u32::MAX, nh <= u32::MAX;
                    let a: u128 = ((ww * nh) as u128) * 16;
                    let b: u128 = ((nw * nh) as u128) * 4;
                    a <= isize::MAX as u128 && b <= isize::MAX as u128
                }
            },
            None => true,
        }
    }

    /// The image scaled to `width` by `height` with `filter`, made again where it must
    /// be (see `scaled_for`); `None` where nothing was ever read. The file must have been
    /// read first where it had to be (see `needs_load`).
    pub fn get_img_scaled(&mut self, width: u32, height: u32, filter: ScalingFilter) -> (r: Option<&RgbaImage>)
        requires
            scale_ok(old(self)@, width, height),
        ensures
            final(self)@ == scaled_for(old(self)@, width, height, filter),
            match final(self)@.scaled {
                Some((_, i)) => r matches Some(ri) && ri@ == i && ri.wf(),
                None => r is None,
            },
    {
        proof { use_type_invariant(&*self); }
        if self.needs_rescale(width, height, filter) {
            let scaled = match &self.img_original {
                Some((w, h, px)) => Some(scale_raw(*w, *h, px, width, height, filter)),
                None => None,
            };
            if let Some(i) = scaled {
                self.img_scaled = Some((filter, i));
            }
        }
        proof { use_type_invariant(&*self); }
        match &self.img_scaled {
            Some((_, i)) => Some(i),
            None => None,
        }
    }
}

// ------------------------------------------------------------------ FfmpegVid

/// The abstract value of a video file read through ffmpeg.
pub struct FfmpegVidV {
    pub path: Seq<char>,
    pub data: GenericContentData,
    pub changed_path: Option<Seq<char>>,
}

/// A video file, whose frames ffmpeg extracts.
pub struct FfmpegVid {
    path: String,
    generic_content_data: GenericContentData,
    pub as_content_changes: FfmpegVidChanges,
}

/// Changes to a video file that are applied later.
pub struct FfmpegVidChanges {
    pub path: Option<String>,
}

impl FfmpegVidChanges {
    /// No change.
    pub fn none() -> (r: FfmpegVidChanges)
        ensures
            r.path is None,
    {
        FfmpegVidChanges { path: None }
    }
}

impl View for FfmpegVid {
    type V = FfmpegVidV;

    closed spec fn view(&self) -> FfmpegVidV {
        FfmpegVidV {
            path: self.path@,
            data: self.generic_content_data,
            changed_path: match &self.as_content_changes.path {
                Some(p) => Some(p@),
                None => None,
            },
        }
    }
}

impl FfmpegVid {
    /// The video file at `path`.
    pub fn new(path: String, generic_content_data: GenericContentData) -> (r: FfmpegVid)
        ensures
            r@ == (FfmpegVidV { path: path@, data: generic_content_data, changed_path: None }),
    {
        FfmpegVid { path, as_content_changes: FfmpegVidChanges::none(), generic_content_data }
    }

    /// Points to another file.
    pub fn set_path(&mut self, new: String)
        ensures
            final(self)@ == (FfmpegVidV { path: new@, ..old(self)@ }),
    {
        self.path = new;
    }

    /// The file that is shown.
    pub fn path(&self) -> (r: &String)
        ensures
            r@ == self@.path,
    {
        &self.path
    }

    /// A copy: the same file, fresh content data.
    pub fn clone_no_caching(&self) -> (r: FfmpegVid)
        ensures
            r@ == (FfmpegVidV {
                path: self@.path,
                data: GenericContentData { highlighted: GenericContentHighlighted::No },
                changed_path: None,
            }),
    {
        Self::new(self.path.clone(), self.generic_content_data.reset())
    }

    /// Whether a change waits to be applied.
    pub fn has_changes(&self) -> (r: bool)
        ensures
            r == (self@.changed_path is Some),
    {
        self.as_content_changes.path.is_some()
    }

    /// Applies the waiting change, if any, and says whether there was one.
    pub fn apply_changes(&mut self) -> (r: bool)
        ensures
            r == (old(self)@.changed_path is Some),
            final(self)@ == (match old(self)@.changed_path {
                Some(p) => FfmpegVidV { path: p, changed_path: None, ..old(self)@ },
                None => old(self)@,
            }),
    {
        if let Some(path) = self.as_content_changes.path.take() {
            self.set_path(path);
            true
        } else {
            false
        }
    }
}

// ------------------------------------------------------------------ Text

/// A font as rusttype loads it. Nothing inside it is visible here; it is carried
/// to where text is drawn.
#[verifier::external_type_specification]
#[verifier::external_body]
pub struct ExFont<'a>(rusttype::Font<'a>);

/// Whether rusttype reads a font from `data` at collection index `index`.
pub uninterp spec fn font_data_parses(data: Seq<u8>, index: u32) -> bool;

/// `rusttype::Font::try_from_vec_and_index`: builds a font from the bytes of a font
/// file and the font's index in a collection, or gives `None` where the data is not
/// a font. Stated: the result is `Some` exactly where the data parses, which depends
/// on the bytes and the index alone.
#[verifier::external_body]
pub(crate) fn font_from_vec_and_index(data: Vec<u8>, index: u32) -> (r: Option<rusttype::Font<'static>>)
    ensures
        r is Some <==> font_data_parses(data@, index),
{
    rusttype::Font::try_from_vec_and_index(data, index)
}

/// The abstract value of a text's source.
pub enum TextTypeV {
    Static(Seq<char>),
    Program(ExternalProgramV),
}

/// Where a text comes from: fixed, or from an external program.
pub enum TextType {
    Static(String),
    Program(ExternalProgram),
}

impl View for TextType {
    type V = TextTypeV;

    open spec fn view(&self) -> TextTypeV {
        match self {
            TextType::Static(s) => TextTypeV::Static(s@),
            TextType::Program(p) => TextTypeV::Program(p@),
        }
    }
}

impl Clone for TextType {
    fn clone(&self) -> (r: TextType)
        ensures
            r@ == self@,
    {
        match self {
            TextType::Static(s) => TextType::Static(s.clone()),
            TextType::Program(p) => TextType::Program(p.clone()),
        }
    }
}

/// The abstract value of a text.
pub struct TextV {
    pub text: TextTypeV,
    pub has_font: bool,
    pub font_file: Option<(Seq<char>, u32)>,
    pub color: ColorV,
    pub data: GenericContentData,
    pub changed_text: Option<TextTypeV>,
    pub changed_font: bool,
    pub changed_color: Option<ColorV>,
}

/// A text drawn in a font and a color.
pub struct Text {
    text: TextType,
    font: Option<rusttype::Font<'static>>,
    /// The font file (its path, and the font's index in it) that the project names
    /// for this text; the font is read from it by whoever reads files.
    pub font_file: Option<(String, u32)>,
    color: Color,
    generic_content_data: GenericContentData,
    pub as_content_changes: TextChanges,
}

/// Changes to a text that are applied later.
pub struct TextChanges {
    pub text: Option<TextType>,
    pub font: Option<rusttype::Font<'static>>,
    pub color: Option<Color>,
}

impl TextChanges {
    /// No change.
    pub fn none() -> (r: TextChanges)
        ensures
            r.text is None,
            r.font is None,
            r.color is None,
    {
        TextChanges { text: None, font: None, color: None }
    }
}

impl View for Text {
    type V = TextV;

    closed spec fn view(&self) -> TextV {
        TextV {
            text: self.text@,
            has_font: self.font is Some,
            font_file: match &self.font_file {
                Some((p, i)) => Some((p@, *i)),
                None => None,
            },
            color: self.color@,
            data: self.generic_content_data,
            changed_text: match &self.as_content_changes.text {
                Some(t) => Some(t@),
                None => None,
            },
            changed_font: self.as_content_changes.font is Some,
            changed_color: match &self.as_content_changes.color {
                Some(c) => Some(c@),
                None => None,
            },
        }
    }
}

/// Opaque white: the color of a new text.
pub open spec fn white() -> ColorV {
    ColorV::RGBA(
        CurveV::Owned(crate::curve::CurveDataV::Constant("1.0"@)),
        CurveV::Owned(crate::curve::CurveDataV::Constant("1.0"@)),
        CurveV::Owned(crate::curve::CurveDataV::Constant("1.0"@)),
        CurveV::Owned(crate::curve::CurveDataV::Constant("1.0"@)),
    )
}

/// A new text: white, without a font.
pub open spec fn new_text(text: TextTypeV, data: GenericContentData) -> TextV {
    TextV {
        text,
        has_font: false,
        font_file: None,
        color: white(),
        data,
        changed_text: None,
        changed_font: false,
        changed_color: None,
    }
}

impl Text {
    /// A white text without a font.
    pub fn new(text: TextType, generic_content_data: GenericContentData) -> (r: Text)
        ensures
            r@ == new_text(text@, generic_content_data),
    {
        Text {
            text,
            font: None,
            font_file: None,
            color: Color::white(),
            as_content_changes: TextChanges::none(),
            generic_content_data,
        }
    }

    pub fn set_text(&mut self, new: TextType)
        ensures
            final(self)@ == (TextV { text: new@, ..old(self)@ }),
    {
        self.text = new;
    }

    pub fn set_font(&mut self, new: rusttype::Font<'static>)
        ensures
            final(self)@ == (TextV { has_font: true, ..old(self)@ }),
    {
        self.font = Some(new);
    }

    pub fn set_color(&mut self, new: Color)
        ensures
            final(self)@ == (TextV { color: new@, ..old(self)@ }),
    {
        self.color = new;
    }

    /// Names the font file that the text should be drawn in.
    pub fn set_font_file(&mut self, path: String, index: u32)
        ensures
            final(self)@ == (TextV { font_file: Some((path@, index)), ..old(self)@ }),
    {
        self.font_file = Some((path, index));
    }

    pub fn text(&self) -> (r: &TextType)
        ensures
            r@ == self@.text,
    {
        &self.text
    }

    /// The font the text is drawn in, if it has one.
    pub fn font(&self) -> (r: &Option<rusttype::Font<'static>>)
        ensures
            r is Some == self@.has_font,
    {
        &self.font
    }

    /// The color of the text.
    pub fn color(&self) -> (r: &Color)
        ensures
            r@ == self@.color,
    {
        &self.color
    }

    /// Loads the font from the bytes of the font file at the index the project names
    /// (index 0 where it names none). Says whether the bytes held a font; the text
    /// is unchanged where they did not.
    pub fn load_font(&mut self, file: Vec<u8>) -> (ok: bool)
        ensures
            ok == font_data_parses(file@, match old(self)@.font_file { Some((_, i)) => i, None => 0 }),
            ok ==> final(self)@ == (TextV { has_font: true, ..old(self)@ }),
            !ok ==> final(self)@ == old(self)@,
    {
        let index = match &self.font_file {
            Some((_, i)) => *i,
            None => 0,
        };
        match font_from_vec_and_index(file, index) {
            Some(font) => {
                self.set_font(font);
                true
            },
            None => false,
        }
    }

    /// A copy of the text's source, white and without a font.
    pub fn clone_no_caching(&self) -> (r: Text)
        ensures
            r@ == new_text(self@.text, GenericContentData { highlighted: GenericContentHighlighted::No }),
    {
        Self::new(self.text.clone(), self.generic_content_data.reset())
    }

    /// Whether a change waits to be applied.
    pub fn has_changes(&self) -> (r: bool)
        ensures
            r == (self@.changed_text is Some || self@.changed_font || self@.changed_color is Some),
    {
        self.as_content_changes.text.is_some() || self.as_content_changes.font.is_some()
            || self.as_content_changes.color.is_some()
    }

    /// Applies the waiting changes and says whether there were any.
    pub fn apply_changes(&mut self) -> (r: bool)
        ensures
            r == (old(self)@.changed_text is Some || old(self)@.changed_font || old(self)@.changed_color is Some),
            final(self)@ == (TextV {
                text: match old(self)@.changed_text { Some(t) => t, None => old(self)@.text },
                has_font: old(self)@.has_font || old(self)@.changed_font,
                color: match old(self)@.changed_color { Some(c) => c, None => old(self)@.color },
                changed_text: None,
                changed_font: false,
                changed_color: None,
                ..old(self)@
            }),
    {
        let mut o = false;
        if let Some(text) = self.as_content_changes.text.take() {
            self.set_text(text);
            o = true;
        }
        if let Some(font) = self.as_content_changes.font.take() {
            self.font = Some(font);
            o = true;
        }
        if let Some(color) = self.as_content_changes.color.take() {
            self.color = color;
            o = true;
        }
        o
    }
}

// ------------------------------------------------------------------ InputVideo

/// `a` comes before `b` or equals it, comparing character by character; a prefix
/// comes first.
pub open spec fn text_le(a: Seq<char>, b: Seq<char>) -> bool
    decreases a.len(),
{
    if a.len() == 0 {
        true
    } else if b.len() == 0 {
        false
    } else if a[0] != b[0] {
        (a[0] as u32) < (b[0] as u32)
    } else {
        text_le(a.drop_first(), b.drop_first())
    }
}

/// `slice::sort_unstable` on strings: puts them in ascending order. std orders
/// strings by their UTF-8 bytes, which is the order of their characters' code
/// points; equal strings are the same value, so the result is the one sorted
/// rearrangement of the input.
#[verifier::external_body]
fn sort_strings(v: &mut Vec<String>)
    ensures
        final(v)@.to_multiset() == old(v)@.to_multiset(),
        forall|i: int, j: int| 0 <= i < j < final(v)@.len() ==> text_le(final(v)@[i]@, final(v)@[j]@),
{
    v.sort_unstable();
}

/// The abstract value of a video made of a directory full of frames.
pub struct InputVideoV {
    pub images_directory: Seq<char>,
    pub crop: (u32, u32, bool),
    pub offsets: Seq<Option<i8>>,
    pub frames: Seq<ImageV>,
}

/// A video made of the image files in a directory, one per frame, in the order of
/// their names.
pub struct InputVideo {
    images_directory: String,
    crop: (u32, u32, bool),
    /// For each frame: `Some(0)` if it was loaded; `Some(n)` if the nearest loaded frame
    /// is `n` frames further (backwards where `n` is negative); `None` if there is no
    /// loaded frame close enough. Then the frame's image.
    frames_image_data: Vec<(Option<i8>, Image)>,
}

impl View for InputVideo {
    type V = InputVideoV;

    closed spec fn view(&self) -> InputVideoV {
        InputVideoV {
            images_directory: self.images_directory@,
            crop: self.crop,
            offsets: Seq::new(self.frames_image_data@.len(), |i: int| self.frames_image_data@[i].0),
            frames: Seq::new(self.frames_image_data@.len(), |i: int| self.frames_image_data@[i].1@),
        }
    }
}

/// The distance `o` points to a frame that exists.
pub open spec fn offset_ok(offsets: Seq<Option<i8>>, i: int) -> bool {
    match offsets[i] {
        Some(o) => -127 < o < 127 && 0 <= i + o < offsets.len(),
        None => true,
    }
}

/// The frame `index - d` has a loaded frame at most `d` away.
pub open spec fn close_back(offsets: Seq<Option<i8>>, index: int, d: int) -> bool {
    offsets[index - d] matches Some(p) && (if p < 0 { -p } else { p as int }) <= d
}

/// The frame `index + d` has a loaded frame at most `d` away.
pub open spec fn close_forward(offsets: Seq<Option<i8>>, index: int, d: int) -> bool {
    offsets[index + d] matches Some(p) && (if p < 0 { -p } else { p as int }) <= d
}

/// The first distance `d` (from `d` on, below `limit`) at which the frame `index - d`
/// already has a loaded frame at most `d` away; `limit` if there is none.
pub open spec fn stop_back(offsets: Seq<Option<i8>>, index: int, d: int, limit: int) -> int
    decreases limit - d,
{
    if d >= limit {
        limit
    } else if close_back(offsets, index, d) {
        d
    } else {
        stop_back(offsets, index, d + 1, limit)
    }
}

/// The first distance `d` (from `d` on, below `limit`) at which the frame `index + d`
/// already has a loaded frame at most `d` away; `limit` if there is none.
pub open spec fn stop_forward(offsets: Seq<Option<i8>>, index: int, d: int, limit: int) -> int
    decreases limit - d,
{
    if d >= limit {
        limit
    } else if close_forward(offsets, index, d) {
        d
    } else {
        stop_forward(offsets, index, d + 1, limit)
    }
}

pub open spec fn min_int(a: int, b: int) -> int {
    if a < b { a } else { b }
}

/// The distances after the frame at `index` was loaded: going backwards from it,
/// each frame gets its distance to `index` until one already has a loaded frame at
/// least as close, and the same forwards; at most 126 frames each way. The backward
/// walk starts at `index` itself, so the loaded frame is marked `Some(0)`.
pub open spec fn offsets_after_load(offsets: Seq<Option<i8>>, index: int) -> Seq<Option<i8>> {
    let back = stop_back(offsets, index, 0, min_int(127, index + 1));
    let fwd = stop_forward(offsets, index, 1, min_int(127, offsets.len() - index));
    Seq::new(offsets.len(), |j: int|
        if index - back < j <= index {
            Some((index - j) as i8)
        } else if index < j < index + fwd {
            Some((index - j) as i8)
        } else {
            offsets[j]
        })
}

pub proof fn lemma_stop_back(offsets: Seq<Option<i8>>, index: int, d: int, limit: int)
    requires
        0 <= d <= limit,
    ensures
        d <= stop_back(offsets, index, d, limit) <= limit,
        forall|e: int| d <= e < stop_back(offsets, index, d, limit) ==>
            !#[trigger] close_back(offsets, index, e),
        stop_back(offsets, index, d, limit) < limit ==> close_back(offsets, index, stop_back(offsets, index, d, limit)),
    decreases limit - d,
{
    if d < limit {
        lemma_stop_back(offsets, index, d + 1, limit);
    }
}

pub proof fn lemma_stop_forward(offsets: Seq<Option<i8>>, index: int, d: int, limit: int)
    requires
        0 <= d <= limit,
    ensures
        d <= stop_forward(offsets, index, d, limit) <= limit,
        forall|e: int| d <= e < stop_forward(offsets, index, d, limit) ==>
            !#[trigger] close_forward(offsets, index, e),
        stop_forward(offsets, index, d, limit) < limit ==> close_forward(offsets, index, stop_forward(offsets, index, d, limit)),
    decreases limit - d,
{
    if d < limit {
        lemma_stop_forward(offsets, index, d + 1, limit);
    }
}

/// `v` is the video of the files named `file_names` in `dir`, cropped by `crop`: one
/// frame per file, in the order of their names, none of them loaded.
pub open spec fn is_frames_video(v: InputVideoV, dir: Seq<char>, crop: (u32, u32, bool), file_names: Seq<String>) -> bool {
    &&& v.images_directory == dir
    &&& v.crop == crop
    &&& v.frames.len() == file_names.len()
    &&& v.offsets == Seq::new(file_names.len(), |i: int| None::<i8>)
    &&& exists|sorted: Seq<String>| {
        &&& sorted.to_multiset() == file_names.to_multiset()
        &&& #[trigger] sorted.len() == file_names.len()
        &&& forall|i: int, j: int| 0 <= i < j < sorted.len() ==> text_le(sorted[i]@, sorted[j]@)
        &&& forall|i: int| 0 <= i < sorted.len() ==> #[trigger] v.frames[i] == new_image(pushed(dir, sorted[i]@))
    }
}

impl InputVideo {
    /// Every stored distance points to a frame that exists.
    #[verifier::type_invariant]
    closed spec fn wf(&self) -> bool {
        forall|i: int| 0 <= i < self.frames_image_data@.len() ==> offset_ok(self@.offsets, i)
    }

    /// The video from the frames in `images_directory`, before its files are listed;
    /// `crop` says which frames are used.
    pub fn new(images_directory: String, crop: (u32, u32, bool)) -> (r: InputVideo)
        ensures
            r@ == (InputVideoV { images_directory: images_directory@, crop, offsets: Seq::empty(), frames: Seq::empty() }),
    {
        let r = InputVideo { images_directory, crop, frames_image_data: Vec::new() };
        assert(r@.offsets =~= Seq::<Option<i8>>::empty());
        assert(r@.frames =~= Seq::<ImageV>::empty());
        r
    }

    /// The video made of the files named `file_names` in `images_directory`, one frame
    /// per file, in the order of their names.
    pub fn new_from_directory_full_of_frames(images_directory: String, crop: (u32, u32, bool), file_names: Vec<String>) -> (r: InputVideo)
        ensures
            is_frames_video(r@, images_directory@, crop, file_names@),
    {
        let mut r = Self::new(images_directory, crop);
        r.set_frames(file_names);
        r
    }

    /// Makes the files named `file_names` in the video's directory its frames, in the
    /// order of their names, none of them loaded.
    pub fn set_frames(&mut self, file_names: Vec<String>)
        ensures
            final(self)@.images_directory == old(self)@.images_directory,
            final(self)@.crop == old(self)@.crop,
            final(self)@.frames.len() == file_names@.len(),
            final(self)@.offsets == Seq::new(file_names@.len(), |i: int| None::<i8>),
            exists|sorted: Seq<String>| {
                &&& sorted.to_multiset() == file_names@.to_multiset()
                &&& #[trigger] sorted.len() == file_names@.len()
                &&& forall|i: int, j: int| 0 <= i < j < sorted.len() ==> text_le(sorted[i]@, sorted[j]@)
                &&& forall|i: int| 0 <= i < sorted.len() ==>
                    #[trigger] final(self)@.frames[i] == new_image(pushed(old(self)@.images_directory, sorted[i]@))
            },
    {
        let mut names = file_names;
        let ghost orig = names@;
        sort_strings(&mut names);
        proof {
            names@.to_multiset_ensures();
            orig.to_multiset_ensures();
        }
        let mut frames: Vec<(Option<i8>, Image)> = Vec::new();
        let mut i: usize = 0;
        while i < names.len()
            invariant
                i <= names.len(),
                frames@.len() == i,
                forall|j: int| 0 <= j < i ==> (#[trigger] frames@[j]).0 is None
                    && frames@[j].1@ == new_image(pushed(self.images_directory@, names@[j]@)),
            decreases names.len() - i,
        {
            let mut p = self.images_directory.clone();
            push_path(&mut p, names[i].as_str());
            frames.push((None, Image::new(p)));
            i = i + 1;
        }
        let ghost new_offsets = Seq::new(frames@.len(), |i: int| frames@[i].0);
        assert forall|j: int| 0 <= j < frames@.len() implies offset_ok(new_offsets, j) by {
            assert(new_offsets[j] == frames@[j].0);
        }
        self.frames_image_data = frames;
        assert(self@.offsets =~= Seq::new(names@.len(), |i: int| None::<i8>));
        assert(forall|i: int| 0 <= i < names@.len() ==>
            #[trigger] self@.frames[i] == new_image(pushed(old(self)@.images_directory, names@[i]@)));
    }

    /// A copy of the video with none of its frames loaded.
    pub fn clone_no_caching(&self) -> (r: InputVideo)
        ensures
            r@ == (InputVideoV {
                offsets: Seq::new(self@.frames.len(), |i: int| None::<i8>),
                frames: Seq::new(self@.frames.len(), |i: int| new_image(self@.frames[i].path)),
                ..self@
            }),
    {
        let mut frames: Vec<(Option<i8>, Image)> = Vec::new();
        let mut i: usize = 0;
        while i < self.frames_image_data.len()
            invariant
                i <= self.frames_image_data@.len(),
                frames@.len() == i,
                forall|j: int| 0 <= j < i ==> (#[trigger] frames@[j]).0 is None
                    && frames@[j].1@ == new_image(self.frames_image_data@[j].1@.path),
            decreases self.frames_image_data@.len() - i,
        {
            frames.push((None, self.frames_image_data[i].1.clone_no_caching()));
            i = i + 1;
        }
        let ghost new_offsets = Seq::new(frames@.len(), |i: int| frames@[i].0);
        assert forall|j: int| 0 <= j < frames@.len() implies offset_ok(new_offsets, j) by {
            assert(new_offsets[j] == frames@[j].0);
        }
        let r = InputVideo { images_directory: self.images_directory.clone(), crop: self.crop, frames_image_data: frames };
        assert(r@.offsets =~= Seq::new(self@.frames.len(), |i: int| None::<i8>));
        assert(r@.frames =~= Seq::new(self@.frames.len(), |i: int| new_image(self@.frames[i].path)));
        r
    }

    /// The directory the frames are read from.
    pub fn get_dir(&self) -> (r: &String)
        ensures
            r@ == self@.images_directory,
    {
        &self.images_directory
    }

    /// Which frames are used.
    pub fn crop(&self) -> (r: (u32, u32, bool))
        ensures
            r == self@.crop,
    {
        self.crop
    }

    /// The number of frames.
    pub fn get_length(&self) -> (r: usize)
        ensures
            r == self@.frames.len(),
    {
        self.frames_image_data.len()
    }

    /// How far frame `index` is from a loaded frame (see `InputVideoV::offsets`).
    pub fn frame_offset(&self, index: usize) -> (r: Option<i8>)
        requires
            index < self@.frames.len(),
        ensures
            r == self@.offsets[index as int],
    {
        self.frames_image_data[index].0
    }

    /// The image of frame `index`.
    pub fn frame(&self, index: usize) -> (r: &Image)
        requires
            index < self@.frames.len(),
        ensures
            r@ == self@.frames[index as int],
    {
        &self.frames_image_data[index].1
    }

    /// Takes the image of frame `index` out, to be read and scaled, leaving an image of
    /// no file in its place until `put_frame` puts it back.
    pub fn take_frame(&mut self, index: usize) -> (r: Image)
        requires
            index < old(self)@.frames.len(),
        ensures
            r@ == old(self)@.frames[index as int],
            final(self)@ == (InputVideoV {
                frames: old(self)@.frames.update(index as int, new_image(Seq::empty())),
                ..old(self)@
            }),
    {
        proof { use_type_invariant(&*self); }
        let mut frames: Vec<(Option<i8>, Image)> = Vec::new();
        std::mem::swap(&mut frames, &mut self.frames_image_data);
        let ghost before = frames@;
        let (o, img) = frames.remove(index);
        frames.insert(index, (o, Image::new(String::new())));
        assert(frames@ =~= before.update(index as int, (o, frames@[index as int].1)));
        assert(Seq::new(frames@.len(), |i: int| frames@[i].0) =~= old(self)@.offsets);
        self.frames_image_data = frames;
        assert(self@.offsets =~= old(self)@.offsets);
        assert(self@.frames =~= old(self)@.frames.update(index as int, new_image(Seq::empty())));
        img
    }

    /// Puts `img` in as the image of frame `index`.
    pub fn put_frame(&mut self, index: usize, img: Image)
        requires
            index < old(self)@.frames.len(),
        ensures
            final(self)@ == (InputVideoV { frames: old(self)@.frames.update(index as int, img@), ..old(self)@ }),
    {
        proof { use_type_invariant(&*self); }
        let mut frames: Vec<(Option<i8>, Image)> = Vec::new();
        std::mem::swap(&mut frames, &mut self.frames_image_data);
        let ghost before = frames@;
        let (o, _) = frames.remove(index);
        frames.insert(index, (o, img));
        assert(frames@ =~= before.update(index as int, (o, img)));
        assert(Seq::new(frames@.len(), |i: int| frames@[i].0) =~= old(self)@.offsets);
        self.frames_image_data = frames;
        assert(self@.offsets =~= old(self)@.offsets);
        assert(self@.frames =~= old(self)@.frames.update(index as int, img@));
    }

    /// The frame to show for frame `index`: the frame itself, loaded if it was not
    /// (`get_frame_fast` with no distance allowed).
    pub fn get_frame(&mut self, index: usize) -> (r: usize)
        requires
            index < old(self)@.frames.len(),
        ensures
            r == index,
            final(self)@.frames == old(self)@.frames,
            old(self)@.offsets[index as int] == Some(0i8) ==> final(self)@ == old(self)@,
            old(self)@.offsets[index as int] != Some(0i8) ==> final(self)@ == (InputVideoV {
                offsets: offsets_after_load(old(self)@.offsets, index as int),
                ..old(self)@
            }),
    {
        self.get_frame_fast(index, 0)
    }

    /// The frame to show for frame `index`: a loaded frame at most
    /// `max_frames_distance` frames away if there is one, else frame `index` itself,
    /// which is then marked as loaded. Returns that frame's index.
    pub fn get_frame_fast(&mut self, index: usize, max_frames_distance: i8) -> (r: usize)
        requires
            index < old(self)@.frames.len(),
        ensures
            r < final(self)@.frames.len(),
            final(self)@.frames == old(self)@.frames,
            match old(self)@.offsets[index as int] {
                Some(o) => if (if o < 0 { -o } else { o as int }) <= max_frames_distance {
                    r == index + o && final(self)@ == old(self)@
                } else {
                    r == index && final(self)@ == (InputVideoV { offsets: offsets_after_load(old(self)@.offsets, index as int), ..old(self)@ })
                },
                None => r == index && final(self)@ == (InputVideoV {
                    offsets: offsets_after_load(old(self)@.offsets, index as int),
                    ..old(self)@
                }),
            },
            r == index || (r as int - index <= max_frames_distance && index - r <= max_frames_distance),
    {
        proof { use_type_invariant(&*self); }
        let len = self.frames_image_data.len();
        assert(self@.offsets.len() == len);
        assert(offset_ok(self@.offsets, index as int));
        if let Some(o) = self.frames_image_data[index].0 {
            let o_abs: i8 = if o < 0 { -o } else { o };
            if o_abs <= max_frames_distance {
                if o >= 0 {
                    return index + (o as usize);
                } else {
                    return index - (o_abs as usize);
                }
            }
        }
        self.load_image_at_index(index);
        index
    }

    /// Marks the frame at `index` as loaded: the frames before and after it that have
    /// no loaded frame at least as close now point to it.
    pub fn load_image_at_index(&mut self, index: usize)
        requires
            index < old(self)@.frames.len(),
        ensures
            final(self)@ == (InputVideoV { offsets: offsets_after_load(old(self)@.offsets, index as int), ..old(self)@ }),
            final(self)@.offsets[index as int] == Some(0i8),
    {
        proof { use_type_invariant(&*self); }
        let ghost old_offsets = self@.offsets;
        let mut frames: Vec<(Option<i8>, Image)> = Vec::new();
        std::mem::swap(&mut frames, &mut self.frames_image_data);
        let ghost old_frames = frames@;
        let len = frames.len();
        assert(forall|j: int| 0 <= j < len ==> old_offsets[j] == (#[trigger] old_frames[j]).0);
        let limit_back: usize = if index < 127 { index + 1 } else { 127 };
        let limit_fwd: usize = if len - index < 127 { len - index } else { 127 };
        let ghost back = stop_back(old_offsets, index as int, 0, limit_back as int);
        let ghost fwd = stop_forward(old_offsets, index as int, 1, limit_fwd as int);
        proof {
            lemma_stop_back(old_offsets, index as int, 0, limit_back as int);
            lemma_stop_forward(old_offsets, index as int, 1, limit_fwd as int);
        }
        let mut dist: usize = 0;
        while dist < limit_back
            invariant
                dist <= back,
                back <= limit_back <= 127,
                limit_back <= index + 1,
                index < len,
                len == frames@.len(),
                forall|e: int| 0 <= e < back ==> !#[trigger] close_back(old_offsets, index as int, e),
                back < limit_back ==> close_back(old_offsets, index as int, back),
                old_offsets.len() == len,
                forall|j: int| 0 <= j < len ==> offset_ok(old_offsets, j),
                forall|j: int| 0 <= j < len ==> (#[trigger] frames@[j]).1 == old_frames[j].1,
                forall|j: int| 0 <= j < len ==> (#[trigger] frames@[j]).0 ==
                    if index - dist < j <= index { Some((index - j) as i8) } else { old_offsets[j] },
            ensures
                dist == back,
                len == frames@.len(),
                forall|j: int| 0 <= j < len ==> (#[trigger] frames@[j]).1 == old_frames[j].1,
                forall|j: int| 0 <= j < len ==> (#[trigger] frames@[j]).0 ==
                    if index - back < j <= index { Some((index - j) as i8) } else { old_offsets[j] },
            decreases limit_back - dist,
        {
            let nindex = index - dist;
            if let Some(prev_dist) = frames[nindex].0 {
                assert(offset_ok(old_offsets, nindex as int));
                let a: i8 = if prev_dist < 0 { -prev_dist } else { prev_dist };
                if a as usize <= dist {
                    assert(close_back(old_offsets, index as int, dist as int));
                    break;
                }
            }
            frames[nindex].0 = Some(dist as i8);
            dist = dist + 1;
        }
        let mut dist: usize = 1;
        while dist < limit_fwd
            invariant
                1 <= dist <= fwd,
                fwd <= limit_fwd <= 127,
                limit_fwd <= len - index,
                index < len,
                len == frames@.len(),
                forall|e: int| 1 <= e < fwd ==> !#[trigger] close_forward(old_offsets, index as int, e),
                fwd < limit_fwd ==> close_forward(old_offsets, index as int, fwd),
                old_offsets.len() == len,
                forall|j: int| 0 <= j < len ==> offset_ok(old_offsets, j),
                forall|j: int| 0 <= j < len ==> (#[trigger] frames@[j]).1 == old_frames[j].1,
                forall|j: int| 0 <= j < len ==> (#[trigger] frames@[j]).0 ==
                    if index - back < j <= index { Some((index - j) as i8) }
                    else if index < j < index + dist { Some((index - j) as i8) }
                    else { old_offsets[j] },
            ensures
                dist == fwd,
                len == frames@.len(),
                forall|j: int| 0 <= j < len ==> (#[trigger] frames@[j]).1 == old_frames[j].1,
                forall|j: int| 0 <= j < len ==> (#[trigger] frames@[j]).0 ==
                    if index - back < j <= index { Some((index - j) as i8) }
                    else if index < j < index + fwd { Some((index - j) as i8) }
                    else { old_offsets[j] },
            decreases limit_fwd - dist,
        {
            let nindex = index + dist;
            if let Some(prev_dist) = frames[nindex].0 {
                assert(offset_ok(old_offsets, nindex as int));
                let a: i8 = if prev_dist < 0 { -prev_dist } else { prev_dist };
                if a as usize <= dist {
                    assert(close_forward(old_offsets, index as int, dist as int));
                    break;
                }
            }
            let d: i8 = dist as i8;
            let nd: i8 = -d;
            frames[nindex].0 = Some(nd);
            dist = dist + 1;
        }
        let ghost new_offsets = Seq::new(frames@.len(), |i: int| frames@[i].0);
        assert forall|j: int| 0 <= j < len implies offset_ok(new_offsets, j) by {
            assert(new_offsets[j] == frames@[j].0);
            assert(offset_ok(old_offsets, j));
        }
        self.frames_image_data = frames;
        assert(self@.offsets =~= offsets_after_load(old_offsets, index as int));
        assert(self@.frames =~= old(self)@.frames);
    }
}

} // verus!
