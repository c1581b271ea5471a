//! Videos: a tree of content, each node placed somewhere in its parent's area for a
//! stretch of its parent's time, and the changes that are applied to such a tree.

use vstd::prelude::*;
use crate::curve::{Curve, CurveData, CurveV, CurveDataV, Number};
use crate::effect::{Effect, EffectV};
use crate::effect::effects::{EffectsEnum, Nothing};
use crate::external_program::{ExternalProgram, ExternalProgramV};
use crate::types::ColorV;
use crate::content::{
    GenericContentData, GenericContentHighlighted, Image, ImageV, ImageChanges, new_image, with_path,
    FfmpegVid, FfmpegVidV, FfmpegVidChanges, Text, TextV, TextType, TextTypeV, TextChanges,
    InputVideo, InputVideoV, new_text,
};

verus! {

// ------------------------------------------------------------------ position

/// Which point of a video its position gives.
#[derive(Clone, Copy, PartialEq, Eq, Structural, Debug)]
pub enum PosAlign<T> {
    TopLeft,
    Top,
    TopRight,
    Left,
    Center,
    Right,
    BottomLeft,
    Bottom,
    BottomRight,
    /// A point given as fractions of the width and the height.
    Custom(T, T),
}

/// The fractions of the width and the height at which `align` lies, where the three
/// fixed fractions 0, 1/2 and 1 are `a`, `b` and `c`.
pub open spec fn anchor_of<T>(align: PosAlign<T>, a: T, b: T, c: T) -> (T, T) {
    match align {
        PosAlign::TopLeft => (a, a),
        PosAlign::Top => (b, a),
        PosAlign::TopRight => (c, a),
        PosAlign::Left => (a, b),
        PosAlign::Center => (b, b),
        PosAlign::Right => (c, b),
        PosAlign::BottomLeft => (a, c),
        PosAlign::Bottom => (b, c),
        PosAlign::BottomRight => (c, c),
        PosAlign::Custom(x, y) => (x, y),
    }
}

/// `a` and `b` are the same alignment, whatever the fractions of custom ones.
pub open spec fn same_alignment<T, U>(a: PosAlign<T>, b: PosAlign<U>) -> bool {
    match (a, b) {
        (PosAlign::TopLeft, PosAlign::TopLeft) => true,
        (PosAlign::Top, PosAlign::Top) => true,
        (PosAlign::TopRight, PosAlign::TopRight) => true,
        (PosAlign::Left, PosAlign::Left) => true,
        (PosAlign::Center, PosAlign::Center) => true,
        (PosAlign::Right, PosAlign::Right) => true,
        (PosAlign::BottomLeft, PosAlign::BottomLeft) => true,
        (PosAlign::Bottom, PosAlign::Bottom) => true,
        (PosAlign::BottomRight, PosAlign::BottomRight) => true,
        (PosAlign::Custom(_, _), PosAlign::Custom(_, _)) => true,
        _ => false,
    }
}

impl<T> PosAlign<T> {
    /// The same alignment, with the fractions of a custom one converted.
    pub fn convert<U, F: Fn(&T) -> U>(&self, converter: F) -> (r: PosAlign<U>)
        requires
            self is Custom ==> call_requires(converter, (&self->Custom_0,)) && call_requires(converter, (&self->Custom_1,)),
        ensures
            same_alignment(*self, r),
            self is Custom ==> call_ensures(converter, (&self->Custom_0,), r->Custom_0)
                && call_ensures(converter, (&self->Custom_1,), r->Custom_1),
    {
        match self {
            PosAlign::TopLeft => PosAlign::TopLeft,
            PosAlign::Top => PosAlign::Top,
            PosAlign::TopRight => PosAlign::TopRight,
            PosAlign::Left => PosAlign::Left,
            PosAlign::Center => PosAlign::Center,
            PosAlign::Right => PosAlign::Right,
            PosAlign::BottomLeft => PosAlign::BottomLeft,
            PosAlign::Bottom => PosAlign::Bottom,
            PosAlign::BottomRight => PosAlign::BottomRight,
            PosAlign::Custom(a, b) => PosAlign::Custom(converter(a), converter(b)),
        }
    }

    /// The fractions of the width and the height at which this alignment lies, where
    /// the three fixed fractions 0, 1/2 and 1 are `a`, `b` and `c`.
    pub fn get_anchor(&self, a: T, b: T, c: T) -> (r: (T, T))
        where T: Copy,
        ensures
            r == anchor_of(*self, a, b, c),
    {
        match self {
            PosAlign::TopLeft => (a, a),
            PosAlign::Top => (b, a),
            PosAlign::TopRight => (c, a),
            PosAlign::Left => (a, b),
            PosAlign::Center => (b, b),
            PosAlign::Right => (c, b),
            PosAlign::BottomLeft => (a, c),
            PosAlign::Bottom => (b, c),
            PosAlign::BottomRight => (c, c),
            PosAlign::Custom(x, y) => (*x, *y),
        }
    }
}

/// Where a video lies in its parent's area: the point `x`, `y` (which point of the
/// video that is, `align` says) and the size `w`, `h`, all as fractions of the
/// parent's area.
pub struct Pos<T, U> {
    pub x: T,
    pub y: T,
    pub w: U,
    pub h: U,
    pub align: PosAlign<T>,
}

impl<T, U> Pos<T, U> {
    /// Converts the coordinates, the size and the alignment with their own converters.
    pub fn convert_sep<A, B, F: Fn(&T) -> A, G: Fn(&U) -> B, H: Fn(&PosAlign<T>) -> PosAlign<A>>(
        &self,
        converter_pos: F,
        converter_dimen: G,
        converter_align: H,
    ) -> (r: Pos<A, B>)
        requires
            call_requires(converter_pos, (&self.x,)),
            call_requires(converter_pos, (&self.y,)),
            call_requires(converter_dimen, (&self.w,)),
            call_requires(converter_dimen, (&self.h,)),
            call_requires(converter_align, (&self.align,)),
        ensures
            call_ensures(converter_pos, (&self.x,), r.x),
            call_ensures(converter_pos, (&self.y,), r.y),
            call_ensures(converter_dimen, (&self.w,), r.w),
            call_ensures(converter_dimen, (&self.h,), r.h),
            call_ensures(converter_align, (&self.align,), r.align),
    {
        Pos {
            x: converter_pos(&self.x),
            y: converter_pos(&self.y),
            w: converter_dimen(&self.w),
            h: converter_dimen(&self.h),
            align: converter_align(&self.align),
        }
    }
}

impl<T> Pos<T, T> {
    /// Converts every value, those of a custom alignment too, with one converter.
    pub fn convert<A, F: Fn(&T) -> A>(&self, converter: &F) -> (r: Pos<A, A>)
        requires
            forall|t: &T| call_requires(*converter, (t,)),
        ensures
            call_ensures(*converter, (&self.x,), r.x),
            call_ensures(*converter, (&self.y,), r.y),
            call_ensures(*converter, (&self.w,), r.w),
            call_ensures(*converter, (&self.h,), r.h),
            same_alignment(self.align, r.align),
            self.align is Custom ==> call_ensures(*converter, (&self.align->Custom_0,), r.align->Custom_0)
                && call_ensures(*converter, (&self.align->Custom_1,), r.align->Custom_1),
    {
        let align = self.align.convert(|t: &T| -> (a: A)
            requires
                call_requires(*converter, (t,)),
            ensures
                call_ensures(*converter, (t,), a),
            { converter(t) });
        Pos {
            x: converter(&self.x),
            y: converter(&self.y),
            w: converter(&self.w),
            h: converter(&self.h),
            align,
        }
    }
}

// ------------------------------------------------------------------ compositing

/// The abstract value of a compositing method.
pub enum CompositingMethodV {
    Ignore,
    Opaque,
    Direct,
    TransparencySupport,
    Manual(ExternalProgramV),
}

/// How the pixels of a video are written onto what lies below it.
pub enum CompositingMethod {
    /// Nothing is drawn.
    Ignore,
    /// Writes the pixels directly to the output buffer. Any color data that was previously there will be destroyed.
    Opaque,
    /// Like Opaque, but writes the alpha channel to the output buffer.
    Direct,
    /// Based on the alpha value of each pixel, merges what was there before with what is there now.
    TransparencySupport,
    /// An external program composites the pixels.
    Manual(ExternalProgram),
}

impl View for CompositingMethod {
    type V = CompositingMethodV;

    open spec fn view(&self) -> CompositingMethodV {
        match self {
            CompositingMethod::Ignore => CompositingMethodV::Ignore,
            CompositingMethod::Opaque => CompositingMethodV::Opaque,
            CompositingMethod::Direct => CompositingMethodV::Direct,
            CompositingMethod::TransparencySupport => CompositingMethodV::TransparencySupport,
            CompositingMethod::Manual(p) => CompositingMethodV::Manual(p@),
        }
    }
}

impl Clone for CompositingMethod {
    fn clone(&self) -> (r: CompositingMethod)
        ensures
            r@ == self@,
    {
        match self {
            CompositingMethod::Ignore => CompositingMethod::Ignore,
            CompositingMethod::Opaque => CompositingMethod::Opaque,
            CompositingMethod::Direct => CompositingMethod::Direct,
            CompositingMethod::TransparencySupport => CompositingMethod::TransparencySupport,
            CompositingMethod::Manual(p) => CompositingMethod::Manual(p.clone()),
        }
    }
}

/// One color channel of a pixel with opacity `alpha` drawn over a channel value `old`:
/// the average of the two weighted by the opacity, rounded down.
pub open spec fn blend_channel(old: u8, new: u8, alpha: u8) -> int {
    (old * (255 - alpha) + new * alpha) / 255
}

/// Draws the pixel `new` onto `below`, mixing their colors by the opacity of `new`; the
/// result is opaque. This is how `CompositingMethod::TransparencySupport` draws.
pub fn composite_pixels_transparency_support(below: &mut [u8; 4], new: &[u8; 4])
    ensures
        forall|i: int| 0 <= i < 3 ==> final(below)@[i] == blend_channel(old(below)@[i], new@[i], new@[3]),
        final(below)@[3] == 255,
{
    let factor_new: u16 = new[3] as u16;
    let factor_old: u16 = 255 - factor_new;
    let ghost before = below@;
    let mut i: usize = 0;
    while i < 3
        invariant
            i <= 3,
            factor_new == new@[3],
            factor_old == 255 - new@[3],
            below@.len() == 4,
            forall|j: int| 0 <= j < i ==> below@[j] == blend_channel(before[j], new@[j], new@[3]),
            forall|j: int| i <= j < 4 ==> below@[j] == before[j],
        decreases 3 - i,
    {
        let o: u16 = below[i] as u16;
        let n: u16 = new[i] as u16;
        assert(o * factor_old + n * factor_new <= 255 * 255) by (nonlinear_arith)
            requires
                o <= 255,
                n <= 255,
                factor_old + factor_new == 255,
        {
            assert(o * factor_old <= 255 * factor_old);
            assert(n * factor_new <= 255 * factor_new);
        }
        let mixed: u16 = (o * factor_old + n * factor_new) / 255;
        below[i] = mixed as u8;
        i = i + 1;
    }
    below[3] = 255;
}

/// A fully opaque pixel replaces the color below it, a fully transparent one leaves
/// it as it was, and any other lies between the two.
pub proof fn lemma_blend_channel(old: u8, new: u8, alpha: u8)
    ensures
        alpha == 255 ==> blend_channel(old, new, alpha) == new,
        alpha == 0 ==> blend_channel(old, new, alpha) == old,
        (old <= new ==> old <= blend_channel(old, new, alpha) <= new),
        (new <= old ==> new <= blend_channel(old, new, alpha) <= old),
{
    let o = old as int;
    let n = new as int;
    let a = alpha as int;
    assert(o * (255 - a) + n * a <= 255 * (if o < n { n } else { o })) by (nonlinear_arith)
        requires
            0 <= a <= 255,
            0 <= o,
            0 <= n,
    {
        let m = if o < n { n } else { o };
        assert(o * (255 - a) <= m * (255 - a));
        assert(n * a <= m * a);
    }
    assert(o * (255 - a) + n * a >= 255 * (if o < n { o } else { n })) by (nonlinear_arith)
        requires
            0 <= a <= 255,
            0 <= o,
            0 <= n,
    {
        let m = if o < n { o } else { n };
        assert(o * (255 - a) >= m * (255 - a));
        assert(n * a >= m * a);
    }
    let s = o * (255 - a) + n * a;
    if a == 255 {
        assert(s == n * 255) by (nonlinear_arith)
            requires
                s == o * (255 - a) + n * a,
                a == 255;
        assert(s / 255 == n) by (nonlinear_arith)
            requires
                s == n * 255;
    }
    if a == 0 {
        assert(s == o * 255) by (nonlinear_arith)
            requires
                s == o * (255 - a) + n * a,
                a == 0;
        assert(s / 255 == o) by (nonlinear_arith)
            requires
                s == o * 255;
    }
    assert(s / 255 <= (if o < n { n } else { o })) by (nonlinear_arith)
        requires
            s <= 255 * (if o < n { n } else { o }),
            0 <= s;
    assert(s / 255 >= (if o < n { o } else { n })) by (nonlinear_arith)
        requires
            s >= 255 * (if o < n { o } else { n }),
            0 <= o,
            0 <= n;
}

// ------------------------------------------------------------------ the video tree

/// A video: what it shows, where and when in its parent it shows it, and changes
/// to it that wait to be applied.
pub struct Video {
    pub set_pos: Pos<Curve, Curve>,
    /// The point of the parent's progress at which this video starts.
    pub set_start_frame: Number,
    /// How much of the parent's progress this video lasts.
    pub set_length: Number,
    /// The video
    pub video: VideoType,
    /// how to write the pixels onto the underlying surface. If None, inherits from parent.
    pub compositing: Option<CompositingMethod>,
    generic_content_data: GenericContentData,
    pub as_content_changes: VideoChanges,
}

/// Changes to a video that are applied later, in this order: the position, the
/// start, the length, the changes to what it shows, wrapping it, and replacing what
/// it shows by another kind of content.
pub struct VideoChanges {
    pub pos: Option<(Option<Curve>, Option<Curve>, Option<Curve>, Option<Curve>)>,
    pub start: Option<Number>,
    pub length: Option<Number>,
    pub video: Option<VideoTypeChanges>,
    pub wrap: Option<VideoChangesWrapWith>,
    pub replace: Option<VideoChangesReplaceWith>,
}

/// What a video's content is wrapped in: the old content becomes the only child.
pub enum VideoChangesWrapWith {
    List,
    AspectRatio(Curve, Curve),
    WithEffect,
}

/// The kind of content that replaces a video's content.
#[derive(Clone, Copy, PartialEq, Eq, Structural, Debug)]
pub enum VideoChangesReplaceWith {
    List,
    AspectRatio,
    WithEffect,
    Text,
    Image,
    Raw,
    Ffmpeg,
}

/// What a video shows.
pub struct VideoType {
    pub vt: VideoTypeEnum,
    generic_content_data: GenericContentData,
}

/// The kinds of content.
pub enum VideoTypeEnum {
    /// Several videos, drawn in order.
    List(Vec<Video>),
    /// A video drawn at the aspect ratio of width to height.
    AspectRatio(Box<Video>, Curve, Curve),
    /// A video drawn through an effect.
    WithEffect(Box<Video>, Effect),
    Text(Text),
    Image(Image),
    /// A directory full of frames.
    Raw(InputVideo),
    /// A video file read through ffmpeg.
    Ffmpeg(FfmpegVid),
}

/// Changes to what a video shows; each but `ChangeType` applies to one kind of
/// content only.
pub enum VideoTypeChanges {
    List(Vec<VideoTypeChanges_List>),
    AspectRatio(Option<Box<VideoChanges>>, Option<Curve>, Option<Curve>),
    WithEffect(Option<Box<VideoChanges>>, Option<Effect>),
    Text(TextChanges),
    Image(ImageChanges),
    Ffmpeg(FfmpegVidChanges),
    /// Replaces the content.
    ChangeType(VideoTypeEnum),
}

/// One change to a list of videos; the changes of a list are applied in order.
#[allow(non_camel_case_types)]
pub enum VideoTypeChanges_List {
    Swap(usize, usize),
    /// Takes the video at the second index out and puts it back at the first.
    Move(usize, usize),
    Insert(usize, Video),
    Push(Video),
    /// Applies the changes to the video at the index.
    Change(usize, VideoChanges),
    Replace(usize, Video),
    Remove(usize),
}

/// The abstract value of a video.
pub struct VideoV {
    pub pos: Pos<CurveV, CurveV>,
    pub start: Seq<char>,
    pub length: Seq<char>,
    pub video: VideoTypeV,
    pub compositing: Option<CompositingMethodV>,
    pub data: GenericContentData,
    pub changes: VideoChangesV,
}

/// The abstract value of what a video shows.
pub struct VideoTypeV {
    pub vt: VideoTypeEnumV,
    pub data: GenericContentData,
}

/// The abstract value of a kind of content.
pub enum VideoTypeEnumV {
    List(Seq<VideoV>),
    AspectRatio(Box<VideoV>, CurveV, CurveV),
    WithEffect(Box<VideoV>, EffectV),
    Text(TextV),
    Image(ImageV),
    Raw(InputVideoV),
    Ffmpeg(FfmpegVidV),
}

/// The abstract value of a video's waiting changes.
pub struct VideoChangesV {
    pub pos: Option<(Option<CurveV>, Option<CurveV>, Option<CurveV>, Option<CurveV>)>,
    pub start: Option<Seq<char>>,
    pub length: Option<Seq<char>>,
    pub video: Option<VideoTypeChangesV>,
    pub wrap: Option<WrapWithV>,
    pub replace: Option<VideoChangesReplaceWith>,
}

/// The abstract value of a wrapping.
pub enum WrapWithV {
    List,
    AspectRatio(CurveV, CurveV),
    WithEffect,
}

/// The abstract value of changes to what a video shows.
pub enum VideoTypeChangesV {
    List(Seq<ListChangeV>),
    AspectRatio(Option<Box<VideoChangesV>>, Option<CurveV>, Option<CurveV>),
    WithEffect(Option<Box<VideoChangesV>>, Option<EffectV>),
    /// The new text, whether a new font is given, the new color.
    Text(Option<TextTypeV>, bool, Option<ColorV>),
    Image(Option<Seq<char>>),
    Ffmpeg(Option<Seq<char>>),
    ChangeType(VideoTypeEnumV),
}

/// The abstract value of a change to a list of videos.
pub enum ListChangeV {
    Swap(usize, usize),
    Move(usize, usize),
    Insert(usize, VideoV),
    Push(VideoV),
    Change(usize, VideoChangesV),
    Replace(usize, VideoV),
    Remove(usize),
}

pub open spec fn curve_opt_view(c: &Option<Curve>) -> Option<CurveV> {
    match c {
        Some(c) => Some(c@),
        None => None,
    }
}

pub open spec fn pos_change_view(
    c: &Option<(Option<Curve>, Option<Curve>, Option<Curve>, Option<Curve>)>,
) -> Option<(Option<CurveV>, Option<CurveV>, Option<CurveV>, Option<CurveV>)> {
    match c {
        Some((x, y, w, h)) => Some((curve_opt_view(x), curve_opt_view(y), curve_opt_view(w), curve_opt_view(h))),
        None => None,
    }
}

pub open spec fn number_opt_view(n: &Option<Number>) -> Option<Seq<char>> {
    match n {
        Some(n) => Some(n@),
        None => None,
    }
}

pub open spec fn wrap_opt_view(w: &Option<VideoChangesWrapWith>) -> Option<WrapWithV> {
    match w {
        Some(w) => Some(w@),
        None => None,
    }
}

pub open spec fn pos_view(p: &Pos<Curve, Curve>) -> Pos<CurveV, CurveV> {
    Pos {
        x: p.x@,
        y: p.y@,
        w: p.w@,
        h: p.h@,
        align: align_view(&p.align),
    }
}

pub open spec fn align_view(a: &PosAlign<Curve>) -> PosAlign<CurveV> {
    match a {
        PosAlign::TopLeft => PosAlign::TopLeft,
        PosAlign::Top => PosAlign::Top,
        PosAlign::TopRight => PosAlign::TopRight,
        PosAlign::Left => PosAlign::Left,
        PosAlign::Center => PosAlign::Center,
        PosAlign::Right => PosAlign::Right,
        PosAlign::BottomLeft => PosAlign::BottomLeft,
        PosAlign::Bottom => PosAlign::Bottom,
        PosAlign::BottomRight => PosAlign::BottomRight,
        PosAlign::Custom(a, b) => PosAlign::Custom(a@, b@),
    }
}

pub closed spec fn video_view(v: &Video) -> VideoV
    decreases v, 0nat,
{
    VideoV {
        pos: pos_view(&v.set_pos),
        start: v.set_start_frame@,
        length: v.set_length@,
        video: type_view(&v.video),
        compositing: match &v.compositing {
            Some(c) => Some(c@),
            None => None,
        },
        data: v.generic_content_data,
        changes: changes_view(&v.as_content_changes),
    }
}

pub closed spec fn type_view(t: &VideoType) -> VideoTypeV
    decreases t, 0nat,
{
    VideoTypeV { vt: enum_view(&t.vt), data: t.generic_content_data }
}

pub open spec fn enum_view(e: &VideoTypeEnum) -> VideoTypeEnumV
    decreases e, 0nat,
{
    match e {
        VideoTypeEnum::List(v) => VideoTypeEnumV::List(vec_videos_view(v, v@.len() as int)),
        VideoTypeEnum::AspectRatio(v, w, h) => VideoTypeEnumV::AspectRatio(Box::new(video_view(v)), w@, h@),
        VideoTypeEnum::WithEffect(v, e) => VideoTypeEnumV::WithEffect(Box::new(video_view(v)), e@),
        VideoTypeEnum::Text(t) => VideoTypeEnumV::Text(t@),
        VideoTypeEnum::Image(i) => VideoTypeEnumV::Image(i@),
        VideoTypeEnum::Raw(r) => VideoTypeEnumV::Raw(r@),
        VideoTypeEnum::Ffmpeg(f) => VideoTypeEnumV::Ffmpeg(f@),
    }
}

/// The views of the first `n` videos of `v`.
pub closed spec fn vec_videos_view(v: &Vec<Video>, n: int) -> Seq<VideoV>
    decreases v, n,
{
    if n <= 0 || n > v@.len() {
        Seq::empty()
    } else {
        vec_videos_view(v, n - 1).push(video_view(&v@[n - 1]))
    }
}

/// The views of the first `n` changes of `v`.
pub closed spec fn vec_list_changes_view(v: &Vec<VideoTypeChanges_List>, n: int) -> Seq<ListChangeV>
    decreases v, n,
{
    if n <= 0 || n > v@.len() {
        Seq::empty()
    } else {
        vec_list_changes_view(v, n - 1).push(list_change_view(&v@[n - 1]))
    }
}

pub open spec fn changes_view(c: &VideoChanges) -> VideoChangesV
    decreases c, 0nat,
{
    VideoChangesV {
        pos: pos_change_view(&c.pos),
        start: number_opt_view(&c.start),
        length: number_opt_view(&c.length),
        video: match &c.video {
            Some(tc) => Some(type_changes_view(tc)),
            None => None,
        },
        wrap: wrap_opt_view(&c.wrap),
        replace: c.replace,
    }
}

pub open spec fn type_changes_view(tc: &VideoTypeChanges) -> VideoTypeChangesV
    decreases tc, 0nat,
{
    match tc {
        VideoTypeChanges::List(v) => VideoTypeChangesV::List(vec_list_changes_view(v, v@.len() as int)),
        VideoTypeChanges::AspectRatio(c, w, h) => VideoTypeChangesV::AspectRatio(
            match c {
                Some(c) => Some(Box::new(changes_view(c))),
                None => None,
            },
            curve_opt_view(w),
            curve_opt_view(h),
        ),
        VideoTypeChanges::WithEffect(c, e) => VideoTypeChangesV::WithEffect(
            match c {
                Some(c) => Some(Box::new(changes_view(c))),
                None => None,
            },
            match e {
                Some(e) => Some(e@),
                None => None,
            },
        ),
        VideoTypeChanges::Text(t) => VideoTypeChangesV::Text(
            match &t.text {
                Some(t) => Some(t@),
                None => None,
            },
            t.font is Some,
            match &t.color {
                Some(c) => Some(c@),
                None => None,
            },
        ),
        VideoTypeChanges::Image(i) => VideoTypeChangesV::Image(
            match &i.path {
                Some(p) => Some(p@),
                None => None,
            },
        ),
        VideoTypeChanges::Ffmpeg(f) => VideoTypeChangesV::Ffmpeg(
            match &f.path {
                Some(p) => Some(p@),
                None => None,
            },
        ),
        VideoTypeChanges::ChangeType(e) => VideoTypeChangesV::ChangeType(enum_view(e)),
    }
}

pub open spec fn list_change_view(c: &VideoTypeChanges_List) -> ListChangeV
    decreases c, 0nat,
{
    match c {
        VideoTypeChanges_List::Swap(a, b) => ListChangeV::Swap(*a, *b),
        VideoTypeChanges_List::Move(a, b) => ListChangeV::Move(*a, *b),
        VideoTypeChanges_List::Insert(i, v) => ListChangeV::Insert(*i, video_view(v)),
        VideoTypeChanges_List::Push(v) => ListChangeV::Push(video_view(v)),
        VideoTypeChanges_List::Change(i, c) => ListChangeV::Change(*i, changes_view(c)),
        VideoTypeChanges_List::Replace(i, v) => ListChangeV::Replace(*i, video_view(v)),
        VideoTypeChanges_List::Remove(i) => ListChangeV::Remove(*i),
    }
}

impl View for VideoChangesWrapWith {
    type V = WrapWithV;

    open spec fn view(&self) -> WrapWithV {
        match self {
            VideoChangesWrapWith::List => WrapWithV::List,
            VideoChangesWrapWith::AspectRatio(w, h) => WrapWithV::AspectRatio(w@, h@),
            VideoChangesWrapWith::WithEffect => WrapWithV::WithEffect,
        }
    }
}

impl View for Video {
    type V = VideoV;

    open spec fn view(&self) -> VideoV {
        video_view(self)
    }
}

impl View for VideoType {
    type V = VideoTypeV;

    open spec fn view(&self) -> VideoTypeV {
        type_view(self)
    }
}

impl View for VideoTypeEnum {
    type V = VideoTypeEnumV;

    open spec fn view(&self) -> VideoTypeEnumV {
        enum_view(self)
    }
}

impl View for VideoChanges {
    type V = VideoChangesV;

    open spec fn view(&self) -> VideoChangesV {
        changes_view(self)
    }
}

impl View for VideoTypeChanges {
    type V = VideoTypeChangesV;

    open spec fn view(&self) -> VideoTypeChangesV {
        type_changes_view(self)
    }
}

impl View for VideoTypeChanges_List {
    type V = ListChangeV;

    open spec fn view(&self) -> ListChangeV {
        list_change_view(self)
    }
}

// ------------------------------------------------------------------ sizes

/// How much a video holds: its nodes, and what its waiting changes may add. Every
/// application of changes leaves a video no larger than this, which is why it ends.
pub open spec fn video_weight(v: VideoV) -> nat
    decreases v, 0nat,
{
    1 + enum_weight(v.video.vt) + changes_weight(v.changes)
}

pub open spec fn enum_weight(e: VideoTypeEnumV) -> nat
    decreases e, 0nat,
{
    match e {
        VideoTypeEnumV::List(vs) => videos_weight(vs, vs.len() as int),
        VideoTypeEnumV::AspectRatio(v, _, _) => 1 + video_weight(*v),
        VideoTypeEnumV::WithEffect(v, _) => 1 + video_weight(*v),
        _ => 0,
    }
}

/// The weight of the first `n` videos of `vs`.
pub open spec fn videos_weight(vs: Seq<VideoV>, n: int) -> nat
    decreases vs, n,
{
    if n <= 0 || n > vs.len() {
        0
    } else {
        videos_weight(vs, n - 1) + video_weight(vs[n - 1])
    }
}

pub open spec fn changes_weight(c: VideoChangesV) -> nat
    decreases c, 0nat,
{
    (if c.wrap is Some { 2nat } else { 0nat }) + (if c.replace is Some { 2nat } else { 0nat }) + match c.video {
        Some(tc) => type_changes_weight(tc),
        None => 0,
    }
}

pub open spec fn type_changes_weight(tc: VideoTypeChangesV) -> nat
    decreases tc, 0nat,
{
    2 + match tc {
        VideoTypeChangesV::List(lcs) => list_changes_weight(lcs, lcs.len() as int),
        VideoTypeChangesV::AspectRatio(Some(c), _, _) => changes_weight(*c),
        VideoTypeChangesV::WithEffect(Some(c), _) => changes_weight(*c),
        VideoTypeChangesV::ChangeType(e) => enum_weight(e),
        _ => 0,
    }
}

/// The weight of the first `n` changes of `lcs`.
pub open spec fn list_changes_weight(lcs: Seq<ListChangeV>, n: int) -> nat
    decreases lcs, n,
{
    if n <= 0 || n > lcs.len() {
        0
    } else {
        list_changes_weight(lcs, n - 1) + list_change_weight(lcs[n - 1])
    }
}

pub open spec fn list_change_weight(lc: ListChangeV) -> nat
    decreases lc, 0nat,
{
    1 + match lc {
        ListChangeV::Insert(_, v) => video_weight(v),
        ListChangeV::Push(v) => video_weight(v),
        ListChangeV::Replace(_, v) => video_weight(v),
        ListChangeV::Change(_, c) => changes_weight(c),
        _ => 0,
    }
}

pub open spec fn seq_weight(vs: Seq<VideoV>) -> nat {
    videos_weight(vs, vs.len() as int)
}

pub proof fn lemma_videos_weight_prefix(vs: Seq<VideoV>, m: int, n: int)
    requires
        0 <= m <= n <= vs.len(),
    ensures
        videos_weight(vs, m) <= videos_weight(vs, n),
        m < n ==> videos_weight(vs, m) + video_weight(vs[m]) <= videos_weight(vs, n),
    decreases n - m,
{
    if m < n {
        lemma_videos_weight_prefix(vs, m, n - 1);
        if m < n - 1 {
            lemma_videos_weight_prefix(vs, m + 1, n);
        }
    }
}

pub proof fn lemma_list_changes_weight_prefix(lcs: Seq<ListChangeV>, m: int, n: int)
    requires
        0 <= m <= n <= lcs.len(),
    ensures
        list_changes_weight(lcs, m) <= list_changes_weight(lcs, n),
    decreases n - m,
{
    if m < n {
        lemma_list_changes_weight_prefix(lcs, m, n - 1);
    }
}

/// Two sequences that agree on their first `n` videos weigh the same there.
pub proof fn lemma_videos_weight_same(a: Seq<VideoV>, b: Seq<VideoV>, n: int)
    requires
        0 <= n <= a.len(),
        n <= b.len(),
        forall|k: int| 0 <= k < n ==> a[k] == b[k],
    ensures
        videos_weight(a, n) == videos_weight(b, n),
    decreases n,
{
    if n > 0 {
        lemma_videos_weight_same(a, b, n - 1);
    }
}

pub proof fn lemma_seq_weight_update(vs: Seq<VideoV>, i: int, x: VideoV)
    requires
        0 <= i < vs.len(),
    ensures
        seq_weight(vs.update(i, x)) + video_weight(vs[i]) == seq_weight(vs) + video_weight(x),
    decreases vs.len(),
{
    let u = vs.update(i, x);
    if i == vs.len() - 1 {
        lemma_videos_weight_same(vs, u, i);
    } else {
        lemma_seq_weight_update(vs.drop_last(), i, x);
        lemma_videos_weight_same(vs, vs.drop_last(), vs.len() - 1);
        lemma_videos_weight_same(u, u.drop_last(), vs.len() - 1);
        assert(u.drop_last() =~= vs.drop_last().update(i, x));
    }
}

pub proof fn lemma_seq_weight_push(vs: Seq<VideoV>, x: VideoV)
    ensures
        seq_weight(vs.push(x)) == seq_weight(vs) + video_weight(x),
{
    lemma_videos_weight_same(vs, vs.push(x), vs.len() as int);
}

pub proof fn lemma_seq_weight_insert(vs: Seq<VideoV>, i: int, x: VideoV)
    requires
        0 <= i <= vs.len(),
    ensures
        seq_weight(vs.insert(i, x)) == seq_weight(vs) + video_weight(x),
    decreases vs.len(),
{
    if i == vs.len() {
        assert(vs.insert(i, x) =~= vs.push(x));
        lemma_seq_weight_push(vs, x);
    } else {
        let d = vs.drop_last();
        lemma_seq_weight_insert(d, i, x);
        assert(vs.insert(i, x) =~= d.insert(i, x).push(vs.last()));
        lemma_seq_weight_push(d.insert(i, x), vs.last());
        assert(vs =~= d.push(vs.last()));
        lemma_seq_weight_push(d, vs.last());
    }
}

pub proof fn lemma_seq_weight_remove(vs: Seq<VideoV>, i: int)
    requires
        0 <= i < vs.len(),
    ensures
        seq_weight(vs.remove(i)) + video_weight(vs[i]) == seq_weight(vs),
{
    let r = vs.remove(i);
    assert(r.insert(i, vs[i]) =~= vs);
    lemma_seq_weight_insert(r, i, vs[i]);
}

pub proof fn lemma_seq_weight_elem(vs: Seq<VideoV>, i: int)
    requires
        0 <= i < vs.len(),
    ensures
        video_weight(vs[i]) <= seq_weight(vs),
{
    lemma_videos_weight_prefix(vs, i, vs.len() as int);
}

// ------------------------------------------------------------------ applying changes

/// No waiting changes.
pub open spec fn no_changes() -> VideoChangesV {
    VideoChangesV { pos: None, start: None, length: None, video: None, wrap: None, replace: None }
}

/// A curve that always has the value written as `text`.
pub open spec fn const_curve(text: Seq<char>) -> CurveV {
    CurveV::Owned(CurveDataV::Constant(text))
}

/// Content data that is not selected.
pub open spec fn unselected() -> GenericContentData {
    GenericContentData { highlighted: GenericContentHighlighted::No }
}

/// The position of a video that fills its parent: centered, full width and height.
pub open spec fn full_pos() -> Pos<CurveV, CurveV> {
    Pos {
        x: const_curve("0.5"@),
        y: const_curve("0.5"@),
        w: const_curve("1.0"@),
        h: const_curve("1.0"@),
        align: PosAlign::Center,
    }
}

/// A video that shows `t` over the whole area and time of its parent.
pub open spec fn new_full_v(t: VideoTypeV) -> VideoV {
    VideoV {
        pos: full_pos(),
        start: "0.0"@,
        length: "1.0"@,
        video: t,
        compositing: None,
        data: unselected(),
        changes: no_changes(),
    }
}

/// An empty list.
pub open spec fn empty_list_v(data: GenericContentData) -> VideoTypeV {
    VideoTypeV { vt: VideoTypeEnumV::List(Seq::empty()), data }
}

/// `t` wrapped as `w` says; the new content has the data `data`.
pub open spec fn wrapped(t: VideoTypeV, w: WrapWithV, data: GenericContentData) -> VideoTypeV {
    match w {
        WrapWithV::List => VideoTypeV { vt: VideoTypeEnumV::List(seq![new_full_v(t)]), data },
        WrapWithV::AspectRatio(cw, ch) => VideoTypeV {
            vt: VideoTypeEnumV::AspectRatio(Box::new(new_full_v(t)), cw, ch),
            data,
        },
        WrapWithV::WithEffect => VideoTypeV {
            vt: VideoTypeEnumV::WithEffect(Box::new(new_full_v(t)), EffectV::Nothing),
            data,
        },
    }
}

/// `vt` already is content of the kind `r`.
pub open spec fn same_kind(vt: VideoTypeEnumV, r: VideoChangesReplaceWith) -> bool {
    match (vt, r) {
        (VideoTypeEnumV::List(_), VideoChangesReplaceWith::List) => true,
        (VideoTypeEnumV::AspectRatio(_, _, _), VideoChangesReplaceWith::AspectRatio) => true,
        (VideoTypeEnumV::WithEffect(_, _), VideoChangesReplaceWith::WithEffect) => true,
        (VideoTypeEnumV::Text(_), VideoChangesReplaceWith::Text) => true,
        (VideoTypeEnumV::Image(_), VideoChangesReplaceWith::Image) => true,
        (VideoTypeEnumV::Raw(_), VideoChangesReplaceWith::Raw) => true,
        (VideoTypeEnumV::Ffmpeg(_), VideoChangesReplaceWith::Ffmpeg) => true,
        _ => false,
    }
}

/// Fresh content of the kind `r`, made without anything of the old content.
pub open spec fn fresh_content(r: VideoChangesReplaceWith, data: GenericContentData) -> VideoTypeEnumV {
    match r {
        VideoChangesReplaceWith::List => VideoTypeEnumV::List(Seq::empty()),
        VideoChangesReplaceWith::AspectRatio => VideoTypeEnumV::AspectRatio(
            Box::new(new_full_v(empty_list_v(data))),
            const_curve("1.0"@),
            const_curve("1.0"@),
        ),
        VideoChangesReplaceWith::WithEffect => VideoTypeEnumV::WithEffect(
            Box::new(new_full_v(empty_list_v(data))),
            EffectV::Nothing,
        ),
        VideoChangesReplaceWith::Text => VideoTypeEnumV::Text(new_text(TextTypeV::Static("[some text]"@), data)),
        VideoChangesReplaceWith::Image => VideoTypeEnumV::Image(new_image("[image]"@)),
        VideoChangesReplaceWith::Ffmpeg => VideoTypeEnumV::Ffmpeg(
            FfmpegVidV { path: "[video]"@, data: unselected(), changed_path: None },
        ),
        VideoChangesReplaceWith::Raw => VideoTypeEnumV::List(Seq::empty()),
    }
}

/// Content that shows the file or text `path`, of the kind `r` (an image, a video
/// file or a text); other kinds are made fresh.
pub open spec fn content_from_path(path: Seq<char>, r: VideoChangesReplaceWith, data: GenericContentData) -> VideoTypeEnumV {
    match r {
        VideoChangesReplaceWith::Image => VideoTypeEnumV::Image(new_image(path)),
        VideoChangesReplaceWith::Ffmpeg => VideoTypeEnumV::Ffmpeg(FfmpegVidV { path, data: unselected(), changed_path: None }),
        VideoChangesReplaceWith::Text => VideoTypeEnumV::Text(new_text(TextTypeV::Static(path), data)),
        _ => fresh_content(r, data),
    }
}

/// The content that replaces `vt` when it becomes of the kind `r` (which it is not
/// yet): a directory of frames is kept as it is; content with one child keeps the
/// child, and a list gives its first video; an image, a video file and a directory
/// keep their path, and a text its text (or its program's path).
pub open spec fn replaced(vt: VideoTypeEnumV, r: VideoChangesReplaceWith, data: GenericContentData) -> VideoTypeEnumV {
    if r == VideoChangesReplaceWith::Raw {
        vt
    } else {
        match vt {
            VideoTypeEnumV::List(v) => match r {
                VideoChangesReplaceWith::AspectRatio => VideoTypeEnumV::AspectRatio(
                    Box::new(if v.len() == 0 { new_full_v(empty_list_v(data)) } else { v[0] }),
                    const_curve("1.0"@),
                    const_curve("1.0"@),
                ),
                VideoChangesReplaceWith::WithEffect => VideoTypeEnumV::WithEffect(
                    Box::new(if v.len() == 0 { new_full_v(empty_list_v(data)) } else { v[0] }),
                    EffectV::Nothing,
                ),
                _ => fresh_content(r, data),
            },
            VideoTypeEnumV::AspectRatio(v, _, _) => match r {
                VideoChangesReplaceWith::List => VideoTypeEnumV::List(seq![*v]),
                VideoChangesReplaceWith::WithEffect => VideoTypeEnumV::WithEffect(v, EffectV::Nothing),
                _ => fresh_content(r, data),
            },
            VideoTypeEnumV::WithEffect(v, _) => match r {
                VideoChangesReplaceWith::List => VideoTypeEnumV::List(seq![*v]),
                VideoChangesReplaceWith::AspectRatio => VideoTypeEnumV::AspectRatio(
                    v,
                    const_curve("1.0"@),
                    const_curve("1.0"@),
                ),
                _ => fresh_content(r, data),
            },
            VideoTypeEnumV::Image(img) => content_from_path(img.path, r, data),
            VideoTypeEnumV::Raw(iv) => content_from_path(iv.images_directory, r, data),
            VideoTypeEnumV::Ffmpeg(f) => content_from_path(f.path, r, data),
            VideoTypeEnumV::Text(t) => match r {
                VideoChangesReplaceWith::Image | VideoChangesReplaceWith::Ffmpeg => content_from_path(
                    match t.text {
                        TextTypeV::Static(s) => s,
                        TextTypeV::Program(p) => p.path,
                    },
                    r,
                    data,
                ),
                _ => fresh_content(r, data),
            },
        }
    }
}

/// An image after its waiting change was applied, and whether there was one.
pub open spec fn image_applied(img: ImageV) -> (ImageV, bool) {
    match img.changed_path {
        Some(p) => (with_path(ImageV { changed_path: None, ..img }, p), true),
        None => (img, false),
    }
}

pub open spec fn opt_or<T>(o: Option<T>, d: T) -> T {
    match o {
        Some(v) => v,
        None => d,
    }
}

/// The position `p` with the waiting position changes `c` applied.
pub open spec fn pos_applied(
    p: Pos<CurveV, CurveV>,
    c: Option<(Option<CurveV>, Option<CurveV>, Option<CurveV>, Option<CurveV>)>,
) -> Pos<CurveV, CurveV> {
    match c {
        Some((x, y, w, h)) => Pos { x: opt_or(x, p.x), y: opt_or(y, p.y), w: opt_or(w, p.w), h: opt_or(h, p.h), align: p.align },
        None => p,
    }
}

/// What `t` shows after it was wrapped as `w` says and then replaced by content of
/// the kind `r`, new content getting the data `data`; and whether it was replaced.
pub open spec fn shape_applied(
    t: VideoTypeV,
    w: Option<WrapWithV>,
    r: Option<VideoChangesReplaceWith>,
    data: GenericContentData,
) -> (VideoTypeV, bool) {
    let t2 = match w {
        Some(w) => wrapped(t, w, data),
        None => t,
    };
    match r {
        Some(r) => if same_kind(t2.vt, r) {
            (t2, false)
        } else {
            (VideoTypeV { vt: replaced(t2.vt, r, data), ..t2 }, true)
        },
        None => (t2, false),
    }
}

/// The video `v` after its waiting changes were applied, and whether something was
/// changed without a failure below; `None` where applying them fails (a change for
/// another kind of content, an index out of range, or changes to a text or a video
/// file, which cannot be applied).
pub open spec fn video_applied(v: VideoV) -> Option<(VideoV, bool)>
    decreases video_weight(v),
{
    let c = v.changes;
    let typed = match c.video {
        Some(tc) => match type_applied(v.video, tc) {
            Some((t, ok)) => Some((t, !ok)),
            None => None,
        },
        None => Some((v.video, false)),
    };
    match typed {
        None => None,
        Some((t1, err)) => {
            let (t3, replaced_it) = shape_applied(t1, c.wrap, c.replace, v.data);
            let out = c.pos is Some || c.start is Some || c.length is Some || c.video is Some || replaced_it;
            Some((
                VideoV {
                    pos: pos_applied(v.pos, c.pos),
                    start: opt_or(c.start, v.start),
                    length: opt_or(c.length, v.length),
                    video: t3,
                    changes: no_changes(),
                    ..v
                },
                out && !err,
            ))
        },
    }
}

/// Applying the changes of a video that has none waiting leaves it as it is and
/// reports that nothing changed.
pub proof fn lemma_apply_without_changes(v: VideoV)
    requires
        v.changes == no_changes(),
    ensures
        video_applied(v) == Some((v, false)),
{
}

/// Once the changes were applied, none wait any more: applying again changes nothing.
pub proof fn lemma_apply_twice(v: VideoV)
    requires
        video_applied(v) is Some,
    ensures
        video_applied(video_applied(v)->Some_0.0) == Some((video_applied(v)->Some_0.0, false)),
{
    lemma_apply_without_changes(video_applied(v)->Some_0.0);
}

/// What `t` shows after the changes `tc` were applied, and whether that worked
/// below; `None` where applying them fails.
pub open spec fn type_applied(t: VideoTypeV, tc: VideoTypeChangesV) -> Option<(VideoTypeV, bool)>
    decreases enum_weight(t.vt) + type_changes_weight(tc),
{
    match (tc, t.vt) {
        (VideoTypeChangesV::List(lcs), VideoTypeEnumV::List(vs)) => match list_applied(vs, lcs, 0) {
            Some(vs2) => Some((VideoTypeV { vt: VideoTypeEnumV::List(vs2), ..t }, true)),
            None => None,
        },
        (VideoTypeChangesV::AspectRatio(vc, w, h), VideoTypeEnumV::AspectRatio(v, ow, oh)) => {
            let child = match vc {
                Some(c) => video_applied(VideoV { changes: *c, ..*v }),
                None => Some((*v, true)),
            };
            match child {
                Some((c1, ok)) => Some((
                    VideoTypeV { vt: VideoTypeEnumV::AspectRatio(Box::new(c1), opt_or(w, ow), opt_or(h, oh)), ..t },
                    ok,
                )),
                None => None,
            }
        },
        (VideoTypeChangesV::WithEffect(vc, e), VideoTypeEnumV::WithEffect(v, oe)) => {
            let child = match vc {
                Some(c) => video_applied(VideoV { changes: *c, ..*v }),
                None => Some((*v, true)),
            };
            match child {
                Some((c1, ok)) => Some((
                    VideoTypeV { vt: VideoTypeEnumV::WithEffect(Box::new(c1), opt_or(e, oe)), ..t },
                    ok,
                )),
                None => None,
            }
        },
        (VideoTypeChangesV::Image(ic), VideoTypeEnumV::Image(img)) => {
            let (img2, ok) = image_applied(ImageV { changed_path: ic, ..img });
            Some((VideoTypeV { vt: VideoTypeEnumV::Image(img2), ..t }, ok))
        },
        (VideoTypeChangesV::ChangeType(e), _) => Some((VideoTypeV { vt: e, ..t }, true)),
        _ => None,
    }
}

/// The list `vs` after the change `lc` was applied; `None` where an index is out of
/// range or a changed video fails.
pub open spec fn list_step(vs: Seq<VideoV>, lc: ListChangeV) -> Option<Seq<VideoV>>
    decreases seq_weight(vs) + list_change_weight(lc),
{
    match lc {
        ListChangeV::Swap(a, b) => if a < vs.len() && b < vs.len() {
            Some(vs.update(a as int, vs[b as int]).update(b as int, vs[a as int]))
        } else {
            None
        },
        ListChangeV::Move(a, b) => if b < vs.len() && a < vs.len() {
            Some(vs.remove(b as int).insert(a as int, vs[b as int]))
        } else {
            None
        },
        ListChangeV::Insert(idx, v) => if idx <= vs.len() {
            Some(vs.insert(idx as int, v))
        } else {
            None
        },
        ListChangeV::Push(v) => Some(vs.push(v)),
        ListChangeV::Change(idx, vc) => if idx < vs.len() {
            proof {
                lemma_seq_weight_elem(vs, idx as int);
            }
            match video_applied(vs[idx as int]) {
                Some((c1, _)) => if video_weight(c1) <= video_weight(vs[idx as int]) {
                    match video_applied(VideoV { changes: vc, ..c1 }) {
                        Some((c3, _)) => Some(vs.update(idx as int, c3)),
                        None => None,
                    }
                } else {
                    None
                },
                None => None,
            }
        } else {
            None
        },
        ListChangeV::Replace(idx, v) => if idx < vs.len() {
            Some(vs.update(idx as int, v))
        } else {
            None
        },
        ListChangeV::Remove(idx) => if idx < vs.len() {
            Some(vs.remove(idx as int))
        } else {
            None
        },
    }
}

/// The list `vs` after the changes `lcs[i..]` were applied in order; `None` where an
/// index is out of range or a changed video fails.
#[verifier::opaque]
pub open spec fn list_applied(vs: Seq<VideoV>, lcs: Seq<ListChangeV>, i: int) -> Option<Seq<VideoV>>
    decreases seq_weight(vs) + list_changes_weight(lcs, lcs.len() as int) - list_changes_weight(lcs, i) + 1,
{
    if i < 0 || i >= lcs.len() {
        Some(vs)
    } else {
        proof {
            lemma_list_changes_weight_prefix(lcs, i + 1, lcs.len() as int);
            assert(list_changes_weight(lcs, i + 1) == list_changes_weight(lcs, i) + list_change_weight(lcs[i]));
        }
        match list_step(vs, lcs[i]) {
            Some(vs2) => if seq_weight(vs2) < seq_weight(vs) + list_change_weight(lcs[i]) {
                list_applied(vs2, lcs, i + 1)
            } else {
                None
            },
            None => None,
        }
    }
}

// ------------------------------------------------------------------ constructors

/// The views of a sequence of videos.
pub open spec fn videos_v(s: Seq<Video>) -> Seq<VideoV> {
    Seq::new(s.len(), |i: int| s[i]@)
}

#[verifier::spinoff_prover]
#[verifier::rlimit(50)]
proof fn lemma_vec_videos_view(v: &Vec<Video>, n: int)
    requires
        0 <= n <= v@.len(),
    ensures
        vec_videos_view(v, n) == videos_v(v@).take(n),
    decreases n,
{
    if n > 0 {
        lemma_vec_videos_view(v, n - 1);
        assert(videos_v(v@).take(n) =~= videos_v(v@).take(n - 1).push(v@[n - 1]@));
    } else {
        assert(videos_v(v@).take(0) =~= Seq::<VideoV>::empty());
    }
}

pub proof fn lemma_list_view(v: &Vec<Video>)
    ensures
        VideoTypeEnum::List(*v)@ == VideoTypeEnumV::List(videos_v(v@)),
{
    lemma_vec_videos_view(v, v@.len() as int);
    assert(videos_v(v@).take(v@.len() as int) =~= videos_v(v@));
}

/// The views of a sequence of list changes.
pub open spec fn list_changes_v(s: Seq<VideoTypeChanges_List>) -> Seq<ListChangeV> {
    Seq::new(s.len(), |i: int| s[i]@)
}

proof fn lemma_vec_list_changes_view(v: &Vec<VideoTypeChanges_List>, n: int)
    requires
        0 <= n <= v@.len(),
    ensures
        vec_list_changes_view(v, n) == list_changes_v(v@).take(n),
    decreases n,
{
    if n > 0 {
        lemma_vec_list_changes_view(v, n - 1);
        assert(list_changes_v(v@).take(n) =~= list_changes_v(v@).take(n - 1).push(v@[n - 1]@));
    } else {
        assert(list_changes_v(v@).take(0) =~= Seq::<ListChangeV>::empty());
    }
}

pub proof fn lemma_list_changes_view(v: &Vec<VideoTypeChanges_List>)
    ensures
        VideoTypeChanges::List(*v)@ == VideoTypeChangesV::List(list_changes_v(v@)),
{
    lemma_vec_list_changes_view(v, v@.len() as int);
    assert(list_changes_v(v@).take(v@.len() as int) =~= list_changes_v(v@));
}

impl VideoChanges {
    /// No waiting change.
    pub fn none() -> (r: VideoChanges)
        ensures
            r@ == no_changes(),
    {
        VideoChanges { pos: None, start: None, length: None, video: None, wrap: None, replace: None }
    }
}

impl VideoType {
    /// Content `vt` with the content data `generic_content_data`.
    pub fn new(vt: VideoTypeEnum, generic_content_data: GenericContentData) -> (r: VideoType)
        ensures
            r@ == (VideoTypeV { vt: vt@, data: generic_content_data }),
    {
        VideoType { vt, generic_content_data }
    }

    /// The content's data.
    pub fn generic_content_data(&self) -> (r: GenericContentData)
        ensures
            r == self@.data,
    {
        self.generic_content_data
    }

    /// An empty list.
    pub fn empty_list(generic_content_data: GenericContentData) -> (r: VideoType)
        ensures
            r@ == empty_list_v(generic_content_data),
    {
        let v: Vec<Video> = Vec::new();
        proof { lemma_list_view(&v); }
        assert(videos_v(v@) =~= Seq::<VideoV>::empty());
        VideoType::new(VideoTypeEnum::List(v), generic_content_data)
    }
}

/// The position of a video that fills its parent: centered, full width and height.
pub fn full_pos_exec() -> (r: Pos<Curve, Curve>)
    ensures
        pos_view(&r) == full_pos(),
{
    Pos {
        align: PosAlign::Center,
        x: Curve::constant("0.5"),
        y: Curve::constant("0.5"),
        w: Curve::constant("1.0"),
        h: Curve::constant("1.0"),
    }
}

impl Video {
    /// A video that shows `video` over the whole area and time of its parent.
    pub fn new_full(video: VideoType) -> (r: Video)
        ensures
            r@ == new_full_v(video@),
    {
        let data = video.generic_content_data.reset();
        Video {
            set_pos: full_pos_exec(),
            set_start_frame: Number::from_text("0.0"),
            set_length: Number::from_text("1.0"),
            compositing: None,
            generic_content_data: data,
            video,
            as_content_changes: VideoChanges::none(),
        }
    }

    /// A video that shows `video` over the whole area of its parent, from
    /// `start_frame` on for `length`.
    pub fn new_full_size(start_frame: Number, length: Number, video: VideoType) -> (r: Video)
        ensures
            r@ == (VideoV { start: start_frame@, length: length@, data: video@.data, ..new_full_v(video@) }),
    {
        let data = video.generic_content_data;
        Video {
            set_pos: full_pos_exec(),
            set_start_frame: start_frame,
            set_length: length,
            compositing: None,
            generic_content_data: data,
            video,
            as_content_changes: VideoChanges::none(),
        }
    }

    /// A video that shows `video` at `pos`, from `start_frame` on for `length`.
    pub fn new(pos: Pos<Curve, Curve>, start_frame: Number, length: Number, video: VideoType) -> (r: Video)
        ensures
            r@ == (VideoV {
                pos: pos_view(&pos),
                start: start_frame@,
                length: length@,
                video: video@,
                compositing: None,
                data: video@.data,
                changes: no_changes(),
            }),
    {
        let data = video.generic_content_data;
        Video {
            set_pos: pos,
            set_start_frame: start_frame,
            set_length: length,
            compositing: None,
            generic_content_data: data,
            video,
            as_content_changes: VideoChanges::none(),
        }
    }

    /// The video's content data.
    pub fn generic_content_data(&self) -> (r: GenericContentData)
        ensures
            r == self@.data,
    {
        self.generic_content_data
    }

    /// What the video shows.
    pub fn content(&self) -> (r: &VideoTypeEnum)
        ensures
            r@ == self@.video.vt,
    {
        &self.video.vt
    }

    /// Sets how the video's pixels are written.
    pub fn set_compositing(&mut self, compositing: Option<CompositingMethod>)
        ensures
            final(self)@ == (VideoV {
                compositing: match compositing {
                    Some(c) => Some(c@),
                    None => None,
                },
                ..old(self)@
            }),
    {
        self.compositing = compositing;
    }

    /// Whether a change waits to be applied.
    pub fn has_changes(&self) -> (r: bool)
        ensures
            r == (self@.changes != no_changes()),
    {
        let c = &self.as_content_changes;
        c.pos.is_some() || c.start.is_some() || c.length.is_some() || c.video.is_some() || c.wrap.is_some()
            || c.replace.is_some()
    }

    /// Sets the changes that wait to be applied.
    pub fn set_changes(&mut self, changes: VideoChanges)
        ensures
            final(self)@ == (VideoV { changes: changes@, ..old(self)@ }),
    {
        self.as_content_changes = changes;
    }
}

// ------------------------------------------------------------------ applying changes, executably

pub proof fn lemma_wrapped_weight(t: VideoTypeV, w: WrapWithV, data: GenericContentData)
    ensures
        enum_weight(wrapped(t, w, data).vt) <= enum_weight(t.vt) + 2,
{
    let n = new_full_v(t);
    assert(changes_weight(no_changes()) == 0);
    assert(video_weight(n) == 1 + enum_weight(t.vt));
    assert(videos_weight(seq![n], 0) == 0);
    assert(videos_weight(seq![n], 1) == video_weight(n));
}

pub proof fn lemma_fresh_weight(r: VideoChangesReplaceWith, data: GenericContentData)
    ensures
        enum_weight(fresh_content(r, data)) <= 2,
{
    let n = new_full_v(empty_list_v(data));
    assert(changes_weight(no_changes()) == 0);
    assert(videos_weight(Seq::<VideoV>::empty(), 0) == 0);
    assert(video_weight(n) == 1);
}

pub proof fn lemma_replaced_weight(vt: VideoTypeEnumV, r: VideoChangesReplaceWith, data: GenericContentData)
    ensures
        enum_weight(replaced(vt, r, data)) <= enum_weight(vt) + 2,
{
    lemma_fresh_weight(r, data);
    let n = new_full_v(empty_list_v(data));
    assert(changes_weight(no_changes()) == 0);
    assert(videos_weight(Seq::<VideoV>::empty(), 0) == 0);
    assert(video_weight(n) == 1);
    match vt {
        VideoTypeEnumV::List(v) => {
            if v.len() > 0 {
                lemma_seq_weight_elem(v, 0);
            }
        },
        VideoTypeEnumV::AspectRatio(v, _, _) => {
            assert(videos_weight(seq![*v], 0) == 0);
            assert(videos_weight(seq![*v], 1) == video_weight(*v));
        },
        VideoTypeEnumV::WithEffect(v, _) => {
            assert(videos_weight(seq![*v], 0) == 0);
            assert(videos_weight(seq![*v], 1) == video_weight(*v));
        },
        _ => {},
    }
}

/// Swaps the videos at `a` and `b`.
fn swap_videos(v: &mut Vec<Video>, a: usize, b: usize)
    requires
        a < old(v)@.len(),
        b < old(v)@.len(),
    ensures
        final(v)@ == old(v)@.update(a as int, old(v)@[b as int]).update(b as int, old(v)@[a as int]),
{
    if a == b {
        assert(old(v)@.update(a as int, old(v)@[b as int]).update(b as int, old(v)@[a as int]) =~= old(v)@);
        return;
    }
    let (lo, hi) = if a < b { (a, b) } else { (b, a) };
    let y = v.remove(hi);
    let x = v.remove(lo);
    v.insert(lo, y);
    v.insert(hi, x);
    assert(v@ =~= old(v)@.update(a as int, old(v)@[b as int]).update(b as int, old(v)@[a as int]));
}

/// Whether `vt` is content of the kind `r`.
pub fn kind_is(vt: &VideoTypeEnum, r: VideoChangesReplaceWith) -> (b: bool)
    ensures
        b == same_kind(vt@, r),
{
    match (vt, r) {
        (VideoTypeEnum::List(_), VideoChangesReplaceWith::List) => true,
        (VideoTypeEnum::AspectRatio(_, _, _), VideoChangesReplaceWith::AspectRatio) => true,
        (VideoTypeEnum::WithEffect(_, _), VideoChangesReplaceWith::WithEffect) => true,
        (VideoTypeEnum::Text(_), VideoChangesReplaceWith::Text) => true,
        (VideoTypeEnum::Image(_), VideoChangesReplaceWith::Image) => true,
        (VideoTypeEnum::Raw(_), VideoChangesReplaceWith::Raw) => true,
        (VideoTypeEnum::Ffmpeg(_), VideoChangesReplaceWith::Ffmpeg) => true,
        _ => false,
    }
}

/// An effect that does nothing.
fn nothing_effect() -> (e: Effect)
    ensures
        e@ == EffectV::Nothing,
{
    Effect::new_from_enum(EffectsEnum::Nothing(Nothing::new()))
}

/// A video showing an empty list over the whole area and time of its parent.
fn new_full_empty(data: GenericContentData) -> (r: Video)
    ensures
        r@ == new_full_v(empty_list_v(data)),
{
    Video::new_full(VideoType::empty_list(data))
}

/// `vt` wrapped as `w` says.
fn wrap_content(t: VideoType, w: VideoChangesWrapWith, data: GenericContentData) -> (r: VideoType)
    ensures
        r@ == wrapped(t@, w@, data),
{
    let inner = Video::new_full(t);
    match w {
        VideoChangesWrapWith::List => {
            let mut v: Vec<Video> = Vec::new();
            v.push(inner);
            proof {
                lemma_list_view(&v);
                assert(videos_v(v@) =~= seq![v@[0]@]);
            }
            VideoType::new(VideoTypeEnum::List(v), data)
        },
        VideoChangesWrapWith::AspectRatio(cw, ch) => VideoType::new(VideoTypeEnum::AspectRatio(Box::new(inner), cw, ch), data),
        VideoChangesWrapWith::WithEffect => VideoType::new(
            VideoTypeEnum::WithEffect(Box::new(inner), nothing_effect()),
            data,
        ),
    }
}

/// Content of the kind `r` that shows `path`.
fn content_from_path_exec(path: String, r: VideoChangesReplaceWith, data: GenericContentData) -> (n: VideoTypeEnum)
    ensures
        n@ == content_from_path(path@, r, data),
{
    match r {
        VideoChangesReplaceWith::Image => VideoTypeEnum::Image(Image::new(path)),
        VideoChangesReplaceWith::Ffmpeg => VideoTypeEnum::Ffmpeg(FfmpegVid::new(path, data.reset())),
        VideoChangesReplaceWith::Text => VideoTypeEnum::Text(Text::new(TextType::Static(path), data)),
        _ => fresh_content_exec(r, data),
    }
}

/// Fresh content of the kind `r`.
fn fresh_content_exec(r: VideoChangesReplaceWith, data: GenericContentData) -> (n: VideoTypeEnum)
    ensures
        n@ == fresh_content(r, data),
{
    match r {
        VideoChangesReplaceWith::List | VideoChangesReplaceWith::Raw => {
            let v: Vec<Video> = Vec::new();
            proof {
                lemma_list_view(&v);
                assert(videos_v(v@) =~= Seq::<VideoV>::empty());
            }
            VideoTypeEnum::List(v)
        },
        VideoChangesReplaceWith::AspectRatio => VideoTypeEnum::AspectRatio(
            Box::new(new_full_empty(data)),
            Curve::constant("1.0"),
            Curve::constant("1.0"),
        ),
        VideoChangesReplaceWith::WithEffect => VideoTypeEnum::WithEffect(Box::new(new_full_empty(data)), nothing_effect()),
        VideoChangesReplaceWith::Text => VideoTypeEnum::Text(Text::new(TextType::Static("[some text]".to_string()), data)),
        VideoChangesReplaceWith::Image => VideoTypeEnum::Image(Image::new("[image]".to_string())),
        VideoChangesReplaceWith::Ffmpeg => VideoTypeEnum::Ffmpeg(FfmpegVid::new("[video]".to_string(), data.reset())),
    }
}

/// The content that replaces `me` when it becomes of the kind `r`.
fn replace_content(me: VideoTypeEnum, r: VideoChangesReplaceWith, data: GenericContentData) -> (n: VideoTypeEnum)
    ensures
        n@ == replaced(me@, r, data),
{
    if r == VideoChangesReplaceWith::Raw {
        return me;
    }
    match me {
        VideoTypeEnum::List(mut v) => {
            proof { lemma_list_view(&v); }
            match r {
                VideoChangesReplaceWith::AspectRatio => {
                    let first = if v.len() == 0 { new_full_empty(data) } else { v.swap_remove(0) };
                    VideoTypeEnum::AspectRatio(Box::new(first), Curve::constant("1.0"), Curve::constant("1.0"))
                },
                VideoChangesReplaceWith::WithEffect => {
                    let first = if v.len() == 0 { new_full_empty(data) } else { v.swap_remove(0) };
                    VideoTypeEnum::WithEffect(Box::new(first), nothing_effect())
                },
                _ => fresh_content_exec(r, data),
            }
        },
        VideoTypeEnum::AspectRatio(v, _, _) => match r {
            VideoChangesReplaceWith::List => {
                let mut l: Vec<Video> = Vec::new();
                l.push(*v);
                proof {
                    lemma_list_view(&l);
                    assert(videos_v(l@) =~= seq![l@[0]@]);
                }
                VideoTypeEnum::List(l)
            },
            VideoChangesReplaceWith::WithEffect => VideoTypeEnum::WithEffect(v, nothing_effect()),
            _ => fresh_content_exec(r, data),
        },
        VideoTypeEnum::WithEffect(v, _) => match r {
            VideoChangesReplaceWith::List => {
                let mut l: Vec<Video> = Vec::new();
                l.push(*v);
                proof {
                    lemma_list_view(&l);
                    assert(videos_v(l@) =~= seq![l@[0]@]);
                }
                VideoTypeEnum::List(l)
            },
            VideoChangesReplaceWith::AspectRatio => VideoTypeEnum::AspectRatio(
                v,
                Curve::constant("1.0"),
                Curve::constant("1.0"),
            ),
            _ => fresh_content_exec(r, data),
        },
        VideoTypeEnum::Image(img) => content_from_path_exec(img.path().clone(), r, data),
        VideoTypeEnum::Raw(iv) => content_from_path_exec(iv.get_dir().clone(), r, data),
        VideoTypeEnum::Ffmpeg(f) => content_from_path_exec(f.path().clone(), r, data),
        VideoTypeEnum::Text(t) => match r {
            VideoChangesReplaceWith::Image | VideoChangesReplaceWith::Ffmpeg => {
                let text = match t.text() {
                    TextType::Static(s) => s.clone(),
                    TextType::Program(p) => p.path().clone(),
                };
                content_from_path_exec(text, r, data)
            },
            _ => fresh_content_exec(r, data),
        },
    }
}

/// Applying the changes from `i` on is applying the change at `i` and then those
/// after it.
proof fn lemma_list_applied_step(vs: Seq<VideoV>, lcs: Seq<ListChangeV>, i: int, vs2: Seq<VideoV>)
    requires
        0 <= i < lcs.len(),
        list_step(vs, lcs[i]) == Some(vs2),
        seq_weight(vs2) < seq_weight(vs) + list_change_weight(lcs[i]),
    ensures
        list_applied(vs, lcs, i) == list_applied(vs2, lcs, i + 1),
{
    reveal(list_applied);
}

proof fn lemma_list_applied_some_step(vs: Seq<VideoV>, lcs: Seq<ListChangeV>, i: int)
    requires
        0 <= i < lcs.len(),
        list_applied(vs, lcs, i) is Some,
    ensures
        list_step(vs, lcs[i]) is Some,
{
    reveal(list_applied);
}

proof fn lemma_list_applied_end(vs: Seq<VideoV>, lcs: Seq<ListChangeV>)
    ensures
        list_applied(vs, lcs, lcs.len() as int) == Some(vs),
{
    reveal(list_applied);
}

/// Applies the change `change` to the list `vt`.
#[verifier::spinoff_prover]
#[verifier::rlimit(60)]
fn apply_list_change(vt: &mut Vec<Video>, change: VideoTypeChanges_List)
    requires
        list_step(videos_v(old(vt)@), change@) is Some,
    ensures
        list_step(videos_v(old(vt)@), change@) == Some(videos_v(final(vt)@)),
        seq_weight(videos_v(final(vt)@)) < seq_weight(videos_v(old(vt)@)) + list_change_weight(change@),
    decreases seq_weight(videos_v(old(vt)@)) + list_change_weight(change@),
{
    let ghost vs = videos_v(vt@);
    match change {
        VideoTypeChanges_List::Swap(a, b) => {
            swap_videos(vt, a, b);
            proof {
                assert(videos_v(vt@) =~= vs.update(a as int, vs[b as int]).update(b as int, vs[a as int]));
                lemma_seq_weight_update(vs, a as int, vs[b as int]);
                lemma_seq_weight_update(vs.update(a as int, vs[b as int]), b as int, vs[a as int]);
            }
        },
        VideoTypeChanges_List::Move(a, b) => {
            let x = vt.remove(b);
            vt.insert(a, x);
            proof {
                assert(videos_v(vt@) =~= vs.remove(b as int).insert(a as int, vs[b as int]));
                lemma_seq_weight_remove(vs, b as int);
                lemma_seq_weight_insert(vs.remove(b as int), a as int, vs[b as int]);
            }
        },
        VideoTypeChanges_List::Insert(idx, v) => {
            let ghost x = v@;
            vt.insert(idx, v);
            proof {
                assert(videos_v(vt@) =~= vs.insert(idx as int, x));
                lemma_seq_weight_insert(vs, idx as int, x);
            }
        },
        VideoTypeChanges_List::Push(v) => {
            let ghost x = v@;
            vt.push(v);
            proof {
                assert(videos_v(vt@) =~= vs.push(x));
                lemma_seq_weight_push(vs, x);
            }
        },
        VideoTypeChanges_List::Change(idx, c) => {
            let mut child = vt.remove(idx);
            proof {
                assert(child@ == vs[idx as int]);
                lemma_seq_weight_elem(vs, idx as int);
            }
            child.apply_changes();
            let ghost c1 = child@;
            child.as_content_changes = c;
            assert(child@ == VideoV { changes: c@, ..c1 });
            child.apply_changes();
            let ghost c3 = child@;
            vt.insert(idx, child);
            proof {
                assert(videos_v(vt@) =~= vs.update(idx as int, c3));
                lemma_seq_weight_update(vs, idx as int, c3);
            }
        },
        VideoTypeChanges_List::Replace(idx, v) => {
            let ghost x = v@;
            vt.remove(idx);
            vt.insert(idx, v);
            proof {
                assert(videos_v(vt@) =~= vs.update(idx as int, x));
                lemma_seq_weight_update(vs, idx as int, x);
            }
        },
        VideoTypeChanges_List::Remove(idx) => {
            vt.remove(idx);
            proof {
                assert(videos_v(vt@) =~= vs.remove(idx as int));
                lemma_seq_weight_remove(vs, idx as int);
            }
        },
    }
}

/// Applies the changes `changes` to the list `vt`, in order.
#[verifier::spinoff_prover]
#[verifier::rlimit(60)]
fn apply_list_changes(vt: &mut Vec<Video>, changes: Vec<VideoTypeChanges_List>)
    requires
        list_applied(videos_v(old(vt)@), list_changes_v(changes@), 0) is Some,
    ensures
        list_applied(videos_v(old(vt)@), list_changes_v(changes@), 0) == Some(videos_v(final(vt)@)),
        seq_weight(videos_v(final(vt)@)) <= seq_weight(videos_v(old(vt)@)) + list_changes_weight(
            list_changes_v(changes@),
            changes@.len() as int,
        ),
    decreases seq_weight(videos_v(old(vt)@)) + list_changes_weight(list_changes_v(changes@), changes@.len() as int) + 1,
{
    let ghost all = changes@;
    let ghost lcs = list_changes_v(all);
    let ghost vs0 = videos_v(vt@);
    let ghost target = list_applied(vs0, lcs, 0);
    let ghost total = list_changes_weight(lcs, lcs.len() as int);
    let mut rest = changes;
    let ghost mut i: int = 0;
    assert(rest@ =~= all.skip(0));
    while rest.len() > 0
        invariant
            0 <= i <= lcs.len(),
            lcs == list_changes_v(all),
            all == changes@,
            vs0 == videos_v(old(vt)@),
            lcs.len() == all.len(),
            rest@ == all.skip(i),
            list_applied(videos_v(vt@), lcs, i) == target,
            target is Some,
            total == list_changes_weight(lcs, lcs.len() as int),
            list_changes_weight(lcs, i) <= total,
            seq_weight(videos_v(vt@)) + (total - list_changes_weight(lcs, i)) <= seq_weight(vs0) + total,
        decreases rest.len(),
    {
        let ghost vs = videos_v(vt@);
        let change = rest.remove(0);
        proof {
            assert(all.skip(i)[0] == all[i]);
            assert(change@ == lcs[i]);
            assert(rest@ =~= all.skip(i + 1));
            lemma_list_changes_weight_prefix(lcs, i + 1, lcs.len() as int);
            assert(list_changes_weight(lcs, i + 1) == list_changes_weight(lcs, i) + list_change_weight(lcs[i]));
            lemma_list_applied_some_step(vs, lcs, i);
        }
        apply_list_change(vt, change);
        proof {
            lemma_list_applied_step(vs, lcs, i, videos_v(vt@));
            i = i + 1;
        }
    }
    proof {
        lemma_list_applied_end(videos_v(vt@), lcs);
    }
}

impl VideoType {
    /// Applies the changes `changes` to what is shown; returns whether that worked
    /// below (a list always does; content with a child does as its child's changes
    /// do; an image does when it had a new path).
    #[verifier::spinoff_prover]
    #[verifier::rlimit(60)]
    pub fn apply_type_changes(&mut self, changes: VideoTypeChanges) -> (r: bool)
        requires
            type_applied(old(self)@, changes@) is Some,
        ensures
            type_applied(old(self)@, changes@) == Some((final(self)@, r)),
            enum_weight(final(self)@.vt) <= enum_weight(old(self)@.vt) + type_changes_weight(changes@),
        decreases enum_weight(old(self)@.vt) + type_changes_weight(changes@),
    {
        let mut vt = VideoTypeEnum::List(Vec::new());
        std::mem::swap(&mut vt, &mut self.vt);
        match changes {
            VideoTypeChanges::List(lcs) => match vt {
                VideoTypeEnum::List(mut vs) => {
                    proof {
                        lemma_list_view(&vs);
                        lemma_list_changes_view(&lcs);
                    }
                    apply_list_changes(&mut vs, lcs);
                    proof {
                        lemma_list_view(&vs);
                    }
                    self.vt = VideoTypeEnum::List(vs);
                    true
                },
                other => {
                    self.vt = other;
                    false
                },
            },
            VideoTypeChanges::AspectRatio(vc, w, h) => match vt {
                VideoTypeEnum::AspectRatio(mut v, ow, oh) => {
                    let mut ok = true;
                    if let Some(c) = vc {
                        v.as_content_changes = *c;
                        ok = v.apply_changes();
                    }
                    let nw = match w {
                        Some(w) => w,
                        None => ow,
                    };
                    let nh = match h {
                        Some(h) => h,
                        None => oh,
                    };
                    self.vt = VideoTypeEnum::AspectRatio(v, nw, nh);
                    ok
                },
                other => {
                    self.vt = other;
                    false
                },
            },
            VideoTypeChanges::WithEffect(vc, e) => match vt {
                VideoTypeEnum::WithEffect(mut v, oe) => {
                    let mut ok = true;
                    if let Some(c) = vc {
                        v.as_content_changes = *c;
                        ok = v.apply_changes();
                    }
                    let ne = match e {
                        Some(e) => e,
                        None => oe,
                    };
                    self.vt = VideoTypeEnum::WithEffect(v, ne);
                    ok
                },
                other => {
                    self.vt = other;
                    false
                },
            },
            VideoTypeChanges::Image(ic) => match vt {
                VideoTypeEnum::Image(mut img) => {
                    img.set_changes(ic);
                    let ok = img.apply_changes();
                    self.vt = VideoTypeEnum::Image(img);
                    ok
                },
                other => {
                    self.vt = other;
                    false
                },
            },
            VideoTypeChanges::ChangeType(e) => {
                self.vt = e;
                true
            },
            VideoTypeChanges::Text(_) | VideoTypeChanges::Ffmpeg(_) => {
                self.vt = vt;
                false
            },
        }
    }

    /// Whether changes wait to be applied to what is shown: never, since a video
    /// hands its changes over as it applies them.
    pub fn has_changes(&self) -> (r: bool)
        ensures
            !r,
    {
        false
    }
}

impl VideoType {
    /// Wraps what is shown as `wrap` says, then replaces it by content of the kind
    /// `replace` unless it already is of that kind; new content gets the data
    /// `data`. Returns whether it was replaced.
    pub fn reshape(
        &mut self,
        wrap: Option<VideoChangesWrapWith>,
        replace: Option<VideoChangesReplaceWith>,
        data: GenericContentData,
    ) -> (r: bool)
        ensures
            (final(self)@, r) == shape_applied(old(self)@, wrap_opt_view(&wrap), replace, data),
            enum_weight(final(self)@.vt) <= enum_weight(old(self)@.vt) + (if wrap is Some { 2int } else { 0 }) + (
            if replace is Some { 2int } else { 0 }),
    {
        let ghost t1 = self@;
        if let Some(w) = wrap {
            let ghost wv = w@;
            let mut me = VideoType::empty_list(data);
            std::mem::swap(&mut me, self);
            *self = wrap_content(me, w, data);
            proof {
                lemma_wrapped_weight(t1, wv, data);
            }
        }
        let ghost t2 = self@;
        if let Some(r) = replace {
            if !kind_is(&self.vt, r) {
                let mut me = VideoTypeEnum::List(Vec::new());
                std::mem::swap(&mut me, &mut self.vt);
                self.vt = replace_content(me, r, data);
                proof {
                    lemma_replaced_weight(t2.vt, r, data);
                }
                return true;
            }
        }
        false
    }
}

impl Video {
    /// Applies new values of the position, the start and the length; returns whether
    /// there were any.
    fn apply_settings(
        &mut self,
        pos: Option<(Option<Curve>, Option<Curve>, Option<Curve>, Option<Curve>)>,
        start: Option<Number>,
        length: Option<Number>,
    ) -> (r: bool)
        ensures
            final(self)@ == (VideoV {
                pos: pos_applied(old(self)@.pos, pos_change_view(&pos)),
                start: opt_or(number_opt_view(&start), old(self)@.start),
                length: opt_or(number_opt_view(&length), old(self)@.length),
                ..old(self)@
            }),
            r == (pos is Some || start is Some || length is Some),
    {
        let mut out = false;
        if let Some(p) = pos {
            let (x, y, w, h) = p;
            if let Some(x) = x {
                self.set_pos.x = x;
            }
            if let Some(y) = y {
                self.set_pos.y = y;
            }
            if let Some(w) = w {
                self.set_pos.w = w;
            }
            if let Some(h) = h {
                self.set_pos.h = h;
            }
            out = true;
        }
        if let Some(s) = start {
            self.set_start_frame = s;
            out = true;
        }
        if let Some(l) = length {
            self.set_length = l;
            out = true;
        }
        out
    }

    /// Applies the waiting changes in their order (position, start, length, what
    /// is shown, wrapping, replacing) and clears them; returns whether something was
    /// changed and nothing below failed.
    pub fn apply_changes(&mut self) -> (r: bool)
        requires
            video_applied(old(self)@) is Some,
        ensures
            video_applied(old(self)@) == Some((final(self)@, r)),
            video_weight(final(self)@) <= video_weight(old(self)@),
        decreases video_weight(old(self)@),
    {
        let ghost v0 = self@;
        let mut changes = VideoChanges::none();
        std::mem::swap(&mut changes, &mut self.as_content_changes);
        let VideoChanges { pos, start, length, video, wrap, replace } = changes;
        let mut out = self.apply_settings(pos, start, length);
        let mut err = false;
        if let Some(tc) = video {
            if !self.video.apply_type_changes(tc) {
                err = true;
            }
            out = true;
        }
        let data = self.generic_content_data;
        if self.video.reshape(wrap, replace, data) {
            out = true;
        }
        out && !err
    }
}

// ------------------------------------------------------------------ copies

/// A copy of the video `v`, without anything cached, waiting or selected, and
/// without its own compositing method.
pub open spec fn video_cloned(v: VideoV) -> VideoV
    decreases v, 0nat,
{
    VideoV {
        pos: v.pos,
        start: v.start,
        length: v.length,
        video: type_cloned(v.video),
        compositing: None,
        data: unselected(),
        changes: no_changes(),
    }
}

pub open spec fn type_cloned(t: VideoTypeV) -> VideoTypeV
    decreases t, 0nat,
{
    VideoTypeV { vt: enum_cloned(t.vt), data: unselected() }
}

pub open spec fn enum_cloned(e: VideoTypeEnumV) -> VideoTypeEnumV
    decreases e, 0nat,
{
    match e {
        VideoTypeEnumV::List(vs) => VideoTypeEnumV::List(videos_cloned(vs, vs.len() as int)),
        VideoTypeEnumV::AspectRatio(v, w, h) => VideoTypeEnumV::AspectRatio(Box::new(video_cloned(*v)), w, h),
        VideoTypeEnumV::WithEffect(v, ef) => VideoTypeEnumV::WithEffect(Box::new(video_cloned(*v)), ef),
        VideoTypeEnumV::Text(t) => VideoTypeEnumV::Text(new_text(t.text, unselected())),
        VideoTypeEnumV::Image(i) => VideoTypeEnumV::Image(new_image(i.path)),
        VideoTypeEnumV::Raw(r) => VideoTypeEnumV::Raw(InputVideoV {
            offsets: Seq::new(r.frames.len(), |i: int| None::<i8>),
            frames: Seq::new(r.frames.len(), |i: int| new_image(r.frames[i].path)),
            ..r
        }),
        VideoTypeEnumV::Ffmpeg(f) => VideoTypeEnumV::Ffmpeg(FfmpegVidV { path: f.path, data: unselected(), changed_path: None }),
    }
}

/// Copies of the first `n` videos of `vs`.
pub open spec fn videos_cloned(vs: Seq<VideoV>, n: int) -> Seq<VideoV>
    decreases vs, n,
{
    if n <= 0 || n > vs.len() {
        Seq::empty()
    } else {
        videos_cloned(vs, n - 1).push(video_cloned(vs[n - 1]))
    }
}

/// A copy of the alignment.
pub fn clone_align(a: &PosAlign<Curve>) -> (r: PosAlign<Curve>)
    ensures
        align_view(&r) == align_view(a),
{
    match a {
        PosAlign::TopLeft => PosAlign::TopLeft,
        PosAlign::Top => PosAlign::Top,
        PosAlign::TopRight => PosAlign::TopRight,
        PosAlign::Left => PosAlign::Left,
        PosAlign::Center => PosAlign::Center,
        PosAlign::Right => PosAlign::Right,
        PosAlign::BottomLeft => PosAlign::BottomLeft,
        PosAlign::Bottom => PosAlign::Bottom,
        PosAlign::BottomRight => PosAlign::BottomRight,
        PosAlign::Custom(x, y) => PosAlign::Custom(x.clone(), y.clone()),
    }
}

/// A copy of the position.
pub fn clone_pos(p: &Pos<Curve, Curve>) -> (r: Pos<Curve, Curve>)
    ensures
        pos_view(&r) == pos_view(p),
{
    Pos { x: p.x.clone(), y: p.y.clone(), w: p.w.clone(), h: p.h.clone(), align: clone_align(&p.align) }
}

impl Video {
    /// A copy of the video, without anything cached, waiting or selected, and without
    /// its own compositing method.
    pub fn clone_no_caching(&self) -> (r: Video)
        ensures
            r@ == video_cloned(self@),
        decreases self, 1nat,
    {
        Video::new(
            clone_pos(&self.set_pos),
            self.set_start_frame.clone(),
            self.set_length.clone(),
            self.video.clone_no_caching(),
        )
    }
}

impl VideoType {
    /// A copy of what is shown, without anything cached, waiting or selected.
    pub fn clone_no_caching(&self) -> (r: VideoType)
        ensures
            r@ == type_cloned(self@),
        decreases self, 0nat,
    {
        let vt = match &self.vt {
            VideoTypeEnum::List(vec) => {
                let mut nvec: Vec<Video> = Vec::with_capacity(vec.len());
                let mut i: usize = 0;
                while i < vec.len()
                    invariant
                        i <= vec@.len(),
                        videos_v(nvec@) == videos_cloned(videos_v(vec@), i as int),
                        self.vt == VideoTypeEnum::List(*vec),
                    decreases vec@.len() - i,
                {
                    assert(self.vt->List_0 == *vec);
                    assert(decreases_to!(self.vt => self.vt->List_0));
                    assert(decreases_to!(*vec => vec@));
                    assert(decreases_to!(vec@ => vec@[i as int]));
                    assert(decreases_to!(self => vec@[i as int]));
                    let c = vec[i].clone_no_caching();
                    let ghost before = nvec@;
                    nvec.push(c);
                    assert(videos_v(nvec@) =~= videos_v(before).push(c@));
                    i = i + 1;
                }
                proof {
                    lemma_list_view(vec);
                    lemma_list_view(&nvec);
                }
                VideoTypeEnum::List(nvec)
            },
            VideoTypeEnum::AspectRatio(v, w, h) => VideoTypeEnum::AspectRatio(
                Box::new(v.clone_no_caching()),
                w.clone(),
                h.clone(),
            ),
            VideoTypeEnum::WithEffect(v, e) => VideoTypeEnum::WithEffect(Box::new(v.clone_no_caching()), e.clone_no_caching()),
            VideoTypeEnum::Text(t) => VideoTypeEnum::Text(t.clone_no_caching()),
            VideoTypeEnum::Image(img) => VideoTypeEnum::Image(img.clone_no_caching()),
            VideoTypeEnum::Raw(v) => VideoTypeEnum::Raw(v.clone_no_caching()),
            VideoTypeEnum::Ffmpeg(v) => VideoTypeEnum::Ffmpeg(v.clone_no_caching()),
        };
        VideoType::new(vt, self.generic_content_data.reset())
    }
}

// ------------------------------------------------------------------ the tree's nodes

/// The videos that `v` shows directly.
pub open spec fn children_v(v: VideoV) -> Seq<VideoV> {
    match v.video.vt {
        VideoTypeEnumV::List(vs) => vs,
        VideoTypeEnumV::AspectRatio(c, _, _) => seq![*c],
        VideoTypeEnumV::WithEffect(c, _) => seq![*c],
        _ => Seq::empty(),
    }
}

/// `v` and all the videos below it, each before the videos below it, children in
/// their order.
pub open spec fn preorder(v: VideoV) -> Seq<VideoV>
    decreases v, 1nat,
{
    seq![v] + match v.video.vt {
        VideoTypeEnumV::List(vs) => preorder_all(vs, vs.len() as int),
        VideoTypeEnumV::AspectRatio(c, _, _) => preorder(*c),
        VideoTypeEnumV::WithEffect(c, _) => preorder(*c),
        _ => Seq::empty(),
    }
}

/// The preorders of the first `n` videos of `vs`, one after the other.
pub open spec fn preorder_all(vs: Seq<VideoV>, n: int) -> Seq<VideoV>
    decreases vs, n,
{
    if n <= 0 || n > vs.len() {
        Seq::empty()
    } else {
        preorder_all(vs, n - 1) + preorder(vs[n - 1])
    }
}

pub proof fn lemma_preorder_children(v: VideoV)
    ensures
        preorder(v) == seq![v] + preorder_all(children_v(v), children_v(v).len() as int),
{
    match v.video.vt {
        VideoTypeEnumV::AspectRatio(c, _, _) => {
            assert(preorder_all(seq![*c], 0) =~= Seq::<VideoV>::empty());
            assert(preorder_all(seq![*c], 1) =~= preorder(*c));
        },
        VideoTypeEnumV::WithEffect(c, _) => {
            assert(preorder_all(seq![*c], 0) =~= Seq::<VideoV>::empty());
            assert(preorder_all(seq![*c], 1) =~= preorder(*c));
        },
        VideoTypeEnumV::List(vs) => {},
        _ => {
            assert(preorder_all(Seq::<VideoV>::empty(), 0) =~= Seq::<VideoV>::empty());
        },
    }
}

impl Video {
    /// The videos this video shows directly.
    pub fn children(&self) -> (r: Vec<&Video>)
        ensures
            r@.len() == children_v(self@).len(),
            forall|i: int| 0 <= i < r@.len() ==> (#[trigger] r@[i])@ == children_v(self@)[i],
    {
        let mut r: Vec<&Video> = Vec::new();
        match &self.video.vt {
            VideoTypeEnum::List(vec) => {
                proof { lemma_list_view(vec); }
                let mut i: usize = 0;
                while i < vec.len()
                    invariant
                        i <= vec@.len(),
                        r@.len() == i,
                        forall|j: int| 0 <= j < i ==> (#[trigger] r@[j])@ == vec@[j]@,
                    decreases vec@.len() - i,
                {
                    r.push(&vec[i]);
                    i = i + 1;
                }
            },
            VideoTypeEnum::AspectRatio(v, _, _) => r.push(&**v),
            VideoTypeEnum::WithEffect(v, _) => r.push(&**v),
            _ => {},
        }
        r
    }
}

impl Video {
    /// Takes what the video shows out of it, leaving an empty list.
    pub fn take_content(&mut self) -> (vt: VideoTypeEnum)
        ensures
            vt@ == old(self)@.video.vt,
            final(self)@ == (VideoV {
                video: VideoTypeV { vt: VideoTypeEnumV::List(Seq::empty()), ..old(self)@.video },
                ..old(self)@
            }),
    {
        let empty: Vec<Video> = Vec::new();
        proof {
            lemma_list_view(&empty);
            assert(videos_v(empty@) =~= Seq::<VideoV>::empty());
        }
        let mut vt = VideoTypeEnum::List(empty);
        std::mem::swap(&mut vt, &mut self.video.vt);
        vt
    }

    /// Makes the video show `vt`.
    pub fn put_content(&mut self, vt: VideoTypeEnum)
        ensures
            final(self)@ == (VideoV { video: VideoTypeV { vt: vt@, ..old(self)@.video }, ..old(self)@ }),
    {
        self.video.vt = vt;
    }
}

/// The views of a list with one video replaced are the views with its view replaced.
pub proof fn lemma_videos_v_update()
    ensures
        forall|s: Seq<Video>, k: int, x: Video| 0 <= k < s.len() ==> #[trigger] videos_v(s.update(k, x)) == videos_v(s).update(k, x@),
{
    assert forall|s: Seq<Video>, k: int, x: Video| 0 <= k < s.len() implies #[trigger] videos_v(s.update(k, x)) == videos_v(s).update(k, x@) by {
        assert(videos_v(s.update(k, x)) =~= videos_v(s).update(k, x@));
    }
}

/// The view of a list of videos is the list of their views.
pub proof fn lemma_list_view_all()
    ensures
        forall|v: Vec<Video>| #[trigger] enum_view(&VideoTypeEnum::List(v)) == VideoTypeEnumV::List(videos_v(v@)),
{
    assert forall|v: Vec<Video>| #[trigger] enum_view(&VideoTypeEnum::List(v)) == VideoTypeEnumV::List(videos_v(v@)) by {
        lemma_list_view(&v);
    }
}

/// The video at place `k` of `vec`, to be changed.
fn list_elem_mut(vec: &mut Vec<Video>, k: usize) -> (r: &mut Video)
    requires
        k < old(vec)@.len(),
    ensures
        (*r)@ == videos_v(old(vec)@)[k as int],
        enum_view(&VideoTypeEnum::List(*final(vec))) == VideoTypeEnumV::List(videos_v(old(vec)@).update(k as int, (*final(r))@)),
{
    proof {
        lemma_videos_v_update();
        lemma_list_view_all();
    }
    &mut vec[k]
}

/// `v` with its child at place `k` (see `children_v`) replaced by `c`.
pub open spec fn with_child(v: VideoV, k: int, c: VideoV) -> VideoV {
    match v.video.vt {
        VideoTypeEnumV::List(vs) => VideoV { video: VideoTypeV { vt: VideoTypeEnumV::List(vs.update(k, c)), ..v.video }, ..v },
        VideoTypeEnumV::AspectRatio(_, w, h) => VideoV {
            video: VideoTypeV { vt: VideoTypeEnumV::AspectRatio(Box::new(c), w, h), ..v.video },
            ..v
        },
        VideoTypeEnumV::WithEffect(_, e) => VideoV {
            video: VideoTypeV { vt: VideoTypeEnumV::WithEffect(Box::new(c), e), ..v.video },
            ..v
        },
        _ => v,
    }
}

impl Video {
    /// The video that this video shows directly at place `k`, to be changed.
    #[verifier::spinoff_prover]
    pub fn child_mut(&mut self, k: usize) -> (r: &mut Video)
        requires
            k < children_v(old(self)@).len(),
        ensures
            (*r)@ == children_v(old(self)@)[k as int],
            final(self)@ == with_child(old(self)@, k as int, (*final(r))@),
    {
        proof {
            lemma_list_view(&self.video.vt->List_0);
        }
        match &mut self.video.vt {
            VideoTypeEnum::List(vec) => list_elem_mut(vec, k),
            VideoTypeEnum::AspectRatio(b, _, _) => &mut **b,
            VideoTypeEnum::WithEffect(b, _) => &mut **b,
            _ => vstd::pervasive::unreached(),
        }
    }
}


/// Applying a video's changes gives it each coordinate, start and length that the
/// changes name, and keeps the ones they leave out, and its alignment.
pub proof fn lemma_applied_changes_take_their_values(v: VideoV)
    requires
        video_applied(v) is Some,
    ensures
        ({
            let nv = video_applied(v)->Some_0.0;
            let c = v.changes;
            &&& nv.pos.align == v.pos.align
            &&& match c.pos {
                Some((x, y, w, h)) => {
                    &&& (x matches Some(cx) ==> nv.pos.x == cx) && (x is None ==> nv.pos.x == v.pos.x)
                    &&& (y matches Some(cy) ==> nv.pos.y == cy) && (y is None ==> nv.pos.y == v.pos.y)
                    &&& (w matches Some(cw) ==> nv.pos.w == cw) && (w is None ==> nv.pos.w == v.pos.w)
                    &&& (h matches Some(ch) ==> nv.pos.h == ch) && (h is None ==> nv.pos.h == v.pos.h)
                },
                None => nv.pos.x == v.pos.x && nv.pos.y == v.pos.y && nv.pos.w == v.pos.w && nv.pos.h == v.pos.h,
            }
            &&& (c.start matches Some(s) ==> nv.start == s) && (c.start is None ==> nv.start == v.start)
            &&& (c.length matches Some(l) ==> nv.length == l) && (c.length is None ==> nv.length == v.length)
            &&& nv.changes == no_changes()
        }),
{
}

} // verus!
