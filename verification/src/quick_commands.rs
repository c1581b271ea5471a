//! Quick commands: short typed commands that edit the video, and the completions
//! offered while one is typed.

use vstd::prelude::*;
use crate::strings::{chars_of, string_from_chars, append_str, string_is};
use crate::numbers::{decimal_value, parse_uint};
use crate::curve::{Curve, CurveData, CurveV, CurveDataV, Number};
use crate::content::{GenericContentData, Image, FfmpegVid, FfmpegVidV, InputVideo, InputVideoV, TextType, TextTypeV, new_image, is_frames_video};
use crate::video::{
    Video, VideoV, VideoType, VideoTypeV, VideoTypeEnum, VideoTypeEnumV, VideoChanges, VideoChangesV, VideoTypeChanges,
    VideoTypeChanges_List, VideoTypeChangesV, ListChangeV, VideoChangesWrapWith, WrapWithV, no_changes, new_full_v,
    empty_list_v, unselected, lemma_list_view, lemma_list_changes_view, list_changes_v, videos_v,
};
use crate::effect::{Effect, EffectV};
use crate::effect::effects::{EffectsEnum, Nothing};
use crate::files::file_handler::split_at_char;

verus! {

// ------------------------------------------------------------------ text

/// A character that `char::is_whitespace` accepts: the characters with Unicode's
/// White_Space property.
pub open spec fn is_white(c: char) -> bool {
    let u = c as u32;
    (0x9 <= u && u <= 0xD) || u == 0x20 || u == 0x85 || u == 0xA0 || u == 0x1680 || (0x2000 <= u && u <= 0x200A)
        || u == 0x2028 || u == 0x2029 || u == 0x202F || u == 0x205F || u == 0x3000
}

/// Whether `c` is white space.
pub fn char_is_white(c: char) -> (r: bool)
    ensures
        r == is_white(c),
{
    let u = c as u32;
    (0x9 <= u && u <= 0xD) || u == 0x20 || u == 0x85 || u == 0xA0 || u == 0x1680 || (0x2000 <= u && u <= 0x200A)
        || u == 0x2028 || u == 0x2029 || u == 0x202F || u == 0x205F || u == 0x3000
}

/// The first word of `s` (a run of characters that are not white space) and what
/// follows it, if `s` has a word.
pub open spec fn first_word(s: Seq<char>) -> Option<(Seq<char>, Seq<char>)>
    decreases s.len(),
{
    if s.len() == 0 {
        None
    } else if is_white(s[0]) {
        first_word(s.drop_first())
    } else {
        let (w, rest) = word_run(s);
        Some((w, rest))
    }
}

/// The characters of `s` up to its first white space, and the rest.
pub open spec fn word_run(s: Seq<char>) -> (Seq<char>, Seq<char>)
    decreases s.len(),
{
    if s.len() == 0 || is_white(s[0]) {
        (Seq::empty(), s)
    } else {
        let (w, rest) = word_run(s.drop_first());
        (seq![s[0]] + w, rest)
    }
}

/// The first word of `s`, if any (`split_whitespace().next()`).
pub open spec fn word1(s: Seq<char>) -> Option<Seq<char>> {
    match first_word(s) {
        Some((w, _)) => Some(w),
        None => None,
    }
}

/// The second word of `s`, if any.
pub open spec fn word2(s: Seq<char>) -> Option<Seq<char>> {
    match first_word(s) {
        Some((_, rest)) => word1(rest),
        None => None,
    }
}

/// Reads the first word of `s[i..]` and where it ends.
fn first_word_exec(s: &Vec<char>, i: usize) -> (r: Option<(Vec<char>, usize)>)
    requires
        i <= s@.len(),
    ensures
        match first_word(s@.skip(i as int)) {
            Some((w, rest)) => r matches Some((x, j)) && x@ == w && j <= s@.len() && s@.skip(j as int) == rest,
            None => r is None,
        },
{
    let mut k: usize = i;
    while k < s.len() && char_is_white(s[k])
        invariant
            i <= k <= s@.len(),
            first_word(s@.skip(i as int)) == first_word(s@.skip(k as int)),
        decreases s.len() - k,
    {
        assert(s@.skip(k as int).drop_first() =~= s@.skip(k + 1));
        k = k + 1;
    }
    if k == s.len() {
        assert(s@.skip(k as int).len() == 0);
        return None;
    }
    let start = k;
    let mut w: Vec<char> = Vec::new();
    while k < s.len() && !char_is_white(s[k])
        invariant
            start <= k <= s@.len(),
            start < s@.len(),
            !is_white(s@[start as int]),
            w@ == s@.subrange(start as int, k as int),
            word_run(s@.skip(start as int)) == ({
                let (x, rest) = word_run(s@.skip(k as int));
                (w@ + x, rest)
            }),
        decreases s.len() - k,
    {
        let ghost before = w@;
        assert(s@.skip(k as int).drop_first() =~= s@.skip(k + 1));
        assert(s@.skip(k as int)[0] == s@[k as int]);
        w.push(s[k]);
        assert(w@ =~= s@.subrange(start as int, k + 1));
        assert(seq![s@[k as int]] + word_run(s@.skip(k + 1)).0 == (seq![s@[k as int]] + word_run(s@.skip(k + 1)).0));
        assert(before + (seq![s@[k as int]] + word_run(s@.skip(k + 1)).0) =~= w@ + word_run(s@.skip(k + 1)).0);
        k = k + 1;
    }
    assert(word_run(s@.skip(k as int)) == (Seq::<char>::empty(), s@.skip(k as int)));
    assert(w@ + Seq::<char>::empty() =~= w@);
    Some((w, k))
}

/// The number of bytes of `c` in UTF-8.
pub open spec fn utf8_len(c: char) -> nat {
    let u = c as u32;
    if u < 0x80 {
        1
    } else if u < 0x800 {
        2
    } else if u < 0x10000 {
        3
    } else {
        4
    }
}

/// The number of bytes of `s` in UTF-8.
pub open spec fn bytes_len(s: Seq<char>) -> nat
    decreases s.len(),
{
    if s.len() == 0 {
        0
    } else {
        utf8_len(s[0]) + bytes_len(s.drop_first())
    }
}

/// What follows the first `b` bytes of `s`; `None` where that is not the end of a
/// character (slicing there panics).
pub open spec fn byte_skip(s: Seq<char>, b: int) -> Option<Seq<char>>
    decreases s.len(),
{
    if b == 0 {
        Some(s)
    } else if s.len() == 0 || b < 0 || utf8_len(s[0]) > b {
        None
    } else {
        byte_skip(s.drop_first(), b - utf8_len(s[0]))
    }
}

/// The number of bytes of `c` in UTF-8.
fn char_utf8_len(c: char) -> (n: u64)
    ensures
        n == utf8_len(c),
{
    let u = c as u32;
    if u < 0x80 {
        1
    } else if u < 0x800 {
        2
    } else if u < 0x10000 {
        3
    } else {
        4
    }
}

pub proof fn lemma_bytes_len_bound(s: Seq<char>)
    ensures
        bytes_len(s) <= 4 * s.len(),
    decreases s.len(),
{
    if s.len() > 0 {
        lemma_bytes_len_bound(s.drop_first());
    }
}

/// The number of bytes of `s[i..]` in UTF-8.
fn bytes_len_exec(s: &Vec<char>, i: usize) -> (n: u128)
    requires
        i <= s@.len(),
    ensures
        n == bytes_len(s@.skip(i as int)),
{
    let mut n: u128 = 0;
    let mut k: usize = s.len();
    assert(s@.skip(k as int) =~= Seq::<char>::empty());
    while k > i
        invariant
            i <= k <= s@.len(),
            s@.len() <= usize::MAX,
            n == bytes_len(s@.skip(k as int)),
            n <= 4 * (s@.len() - k),
        decreases k - i,
    {
        k = k - 1;
        assert(s@.skip(k as int).drop_first() =~= s@.skip(k + 1));
        n = n + char_utf8_len(s[k]) as u128;
    }
    n
}

/// What follows the first `b` bytes of `s[i..]`, as an index into `s`; `None` where
/// that is not the end of a character.
fn byte_skip_exec(s: &Vec<char>, i: usize, b: u128) -> (r: Option<usize>)
    requires
        i <= s@.len(),
    ensures
        match byte_skip(s@.skip(i as int), b as int) {
            Some(rest) => r matches Some(j) && i <= j <= s@.len() && s@.skip(j as int) == rest,
            None => r is None,
        },
{
    let mut k: usize = i;
    let mut left: u128 = b;
    while left > 0
        invariant
            i <= k <= s@.len(),
            left <= b,
            byte_skip(s@.skip(i as int), b as int) == byte_skip(s@.skip(k as int), left as int),
        decreases left,
    {
        if k == s.len() {
            return None;
        }
        let n = char_utf8_len(s[k]) as u128;
        assert(s@.skip(k as int)[0] == s@[k as int]);
        if n > left {
            return None;
        }
        assert(s@.skip(k as int).drop_first() =~= s@.skip(k + 1));
        left = left - n;
        k = k + 1;
    }
    Some(k)
}

/// The Unicode lowercase of `s`, as `str::to_lowercase` gives it.
pub uninterp spec fn lowercase(s: Seq<char>) -> Seq<char>;

/// `str::to_lowercase`: maps every character to its Unicode lowercase, which
/// depends on the text alone. What that mapping is is not written out here.
#[verifier::external_body]
pub(crate) fn to_lowercase(s: &str) -> (r: String)
    ensures
        r@ == lowercase(s@),
{
    s.to_lowercase()
}

/// `s` starts with `p`.
pub open spec fn starts_with(s: Seq<char>, p: Seq<char>) -> bool {
    s.len() >= p.len() && s.take(p.len() as int) == p
}

/// Whether `s` starts with the characters of `p`.
fn starts_with_exec(s: &Vec<char>, p: &str) -> (r: bool)
    ensures
        r == starts_with(s@, p@),
{
    let pc = chars_of(p);
    if pc.len() > s.len() {
        return false;
    }
    let mut i: usize = 0;
    while i < pc.len()
        invariant
            i <= pc@.len() <= s@.len(),
            pc@ == p@,
            s@.take(i as int) == pc@.take(i as int),
        decreases pc.len() - i,
    {
        if s[i] != pc[i] {
            assert(s@.take(pc@.len() as int)[i as int] != pc@[i as int]);
            return false;
        }
        assert(s@.take(i + 1) =~= s@.take(i as int).push(s@[i as int]));
        assert(pc@.take(i + 1) =~= pc@.take(i as int).push(pc@[i as int]));
        i = i + 1;
    }
    assert(pc@.take(pc@.len() as int) =~= pc@);
    true
}

/// The characters of `s` from `i` on, as a text.
fn string_from(s: &Vec<char>, i: usize) -> (r: String)
    requires
        i <= s@.len(),
    ensures
        r@ == s@.skip(i as int),
{
    let mut r = String::new();
    let mut j: usize = i;
    while j < s.len()
        invariant
            i <= j <= s@.len(),
            r@ == s@.subrange(i as int, j as int),
        decreases s.len() - j,
    {
        r.push(s[j]);
        assert(s@.subrange(i as int, j as int).push(s@[j as int]) =~= s@.subrange(i as int, j + 1));
        j = j + 1;
    }
    assert(s@.subrange(i as int, s@.len() as int) =~= s@.skip(i as int));
    r
}

// ------------------------------------------------------------------ commands

/// What a quick command asks the editor to do.
pub enum QctCommand {
    UnsetEditing,
    SetEditingTo(u32),
    SetQueryTo(String),
    ApplyChanges(VideoChanges),
}

/// The abstract value of such a request.
pub enum QctCommandV {
    UnsetEditing,
    SetEditingTo(u32),
    SetQueryTo(Seq<char>),
    ApplyChanges(VideoChangesV),
}

impl View for QctCommand {
    type V = QctCommandV;

    open spec fn view(&self) -> QctCommandV {
        match self {
            QctCommand::UnsetEditing => QctCommandV::UnsetEditing,
            QctCommand::SetEditingTo(i) => QctCommandV::SetEditingTo(*i),
            QctCommand::SetQueryTo(s) => QctCommandV::SetQueryTo(s@),
            QctCommand::ApplyChanges(c) => QctCommandV::ApplyChanges(c@),
        }
    }
}

pub open spec fn commands_v(v: Seq<QctCommand>) -> Seq<QctCommandV> {
    Seq::new(v.len(), |i: int| v[i]@)
}

/// What running a command gives: the editor's requests or a message for the user;
/// or, before that, the outside work that the command needs.
pub enum QctOutcome {
    Done(Result<Vec<QctCommand>, String>),
    /// The command adds the directory of frames at this path: its files must be listed
    /// (see `frames_added`).
    ListFrames(String),
    /// The command wraps the edited video in this aspect ratio, written as these two
    /// numbers: they must be read (see `aspect_ratio_result`).
    ReadAspectRatio(String, String),
}

/// The abstract value of such an outcome.
pub enum QctOutcomeV {
    Done(Result<Seq<QctCommandV>, Seq<char>>),
    ListFrames(Seq<char>),
    ReadAspectRatio(Seq<char>, Seq<char>),
}

impl View for QctOutcome {
    type V = QctOutcomeV;

    open spec fn view(&self) -> QctOutcomeV {
        match self {
            QctOutcome::Done(Ok(v)) => QctOutcomeV::Done(Ok(commands_v(v@))),
            QctOutcome::Done(Err(s)) => QctOutcomeV::Done(Err(s@)),
            QctOutcome::ListFrames(p) => QctOutcomeV::ListFrames(p@),
            QctOutcome::ReadAspectRatio(a, b) => QctOutcomeV::ReadAspectRatio(a@, b@),
        }
    }
}

/// The changes that put a video showing `vt` first in the edited list.
pub open spec fn add_changes(vt: VideoTypeEnumV) -> VideoChangesV {
    VideoChangesV {
        video: Some(VideoTypeChangesV::List(seq![ListChangeV::Insert(0, new_full_v(VideoTypeV { vt, data: unselected() }))])),
        ..no_changes()
    }
}

/// The content that `add` makes of the kind `kind` (lowercased), given the text
/// after the kind, if any; `None` for a kind that does not exist.
pub open spec fn added_content(kind: Seq<char>, rest: Option<Seq<char>>) -> Option<VideoTypeEnumV> {
    let path = match rest {
        Some(r) => r,
        None => Seq::empty(),
    };
    if kind == "list"@ {
        Some(VideoTypeEnumV::List(Seq::empty()))
    } else if kind == "effect"@ {
        Some(VideoTypeEnumV::WithEffect(Box::new(new_full_v(empty_list_v(unselected()))), EffectV::Nothing))
    } else if kind == "img"@ {
        Some(VideoTypeEnumV::Image(new_image(path)))
    } else if kind == "vid"@ {
        Some(VideoTypeEnumV::Raw(InputVideoV { images_directory: path, crop: (0, 0, true), offsets: Seq::empty(), frames: Seq::empty() }))
    } else if kind == "ffmpeg"@ {
        Some(VideoTypeEnumV::Ffmpeg(FfmpegVidV { path, data: unselected(), changed_path: None }))
    } else {
        None
    }
}

/// The text after a command's first word `word` (lowercased as `low`) in `next`:
/// what follows one more character after as many bytes as `low` has, if `next` is
/// longer than that. `None` inside where that is not the end of a character.
pub open spec fn rest_after(next: Seq<char>, low: Seq<char>) -> Option<Option<Seq<char>>> {
    if bytes_len(next) > bytes_len(low) + 1 {
        match byte_skip(next, (bytes_len(low) + 1) as int) {
            Some(r) => Some(Some(r)),
            None => None,
        }
    } else {
        Some(None)
    }
}

/// What running the quick command `cmd` gives; `None` where it panics (nothing
/// follows `add ` or `wrap`, or a text is cut inside a character).
pub open spec fn command_outcome(cmd: Seq<char>) -> Option<QctOutcomeV> {
    if cmd == "deselect editing"@ {
        Some(QctOutcomeV::Done(Ok(seq![QctCommandV::UnsetEditing])))
    } else if word1(cmd) == Some("edit"@) {
        Some(QctOutcomeV::Done(match word2(cmd) {
            Some(num) => match decimal_value(num, u32::MAX as int) {
                Ok(n) => Ok(seq![QctCommandV::SetEditingTo(n as u32)]),
                Err(_) => Err(cmd + " <- not a number"@),
            },
            None => Err("edit [num]"@),
        }))
    } else if starts_with(cmd, "add "@) {
        let next = cmd.skip(4);
        match word1(next) {
            None => None,
            Some(w) => {
                let kind = lowercase(w);
                match rest_after(next, kind) {
                    None => None,
                    Some(rest) => if kind == "vid"@ && rest is Some {
                        Some(QctOutcomeV::ListFrames(rest->Some_0))
                    } else {
                        Some(QctOutcomeV::Done(match added_content(kind, rest) {
                            Some(vt) => Ok(seq![QctCommandV::ApplyChanges(add_changes(vt))]),
                            None => Err(cmd + " <- expected list/effect/img/vid/ffmpeg"@),
                        }))
                    },
                }
            },
        }
    } else if starts_with(cmd, "wrap"@) {
        match byte_skip(cmd, 5) {
            None => None,
            Some(next) => match word1(next) {
                None => None,
                Some(w) => {
                    let kind = lowercase(w);
                    match rest_after(next, kind) {
                        None => None,
                        Some(rest) => if kind == "aspect_ratio"@ {
                            Some(match rest {
                                Some(r) => match crate::strings::first_index_of(r, ':') {
                                    Some(k) => {
                                        let after = r.skip(k + 1);
                                        QctOutcomeV::ReadAspectRatio(
                                            r.take(k),
                                            match crate::strings::first_index_of(after, ':') {
                                                Some(k2) => after.take(k2),
                                                None => after,
                                            },
                                        )
                                    },
                                    None => QctOutcomeV::Done(Err(
                                        "wrap type 'aspect_ratio' requires an aspect ratio specified as [width]:[height]."@,
                                    )),
                                },
                                None => QctOutcomeV::Done(Err(cmd + " (?)"@)),
                            })
                        } else if kind == "list"@ {
                            Some(QctOutcomeV::Done(Ok(seq![QctCommandV::ApplyChanges(
                                VideoChangesV { wrap: Some(WrapWithV::List), ..no_changes() },
                            )])))
                        } else {
                            Some(QctOutcomeV::Done(Err("Invalid wrap type: '"@ + kind + "'"@)))
                        },
                    }
                },
            },
        }
    } else {
        Some(QctOutcomeV::Done(Err(cmd + " (?)"@)))
    }
}

/// The requests that put a video showing `vt` first in the edited list.
pub fn add_content_command(vt: VideoTypeEnum) -> (r: Vec<QctCommand>)
    ensures
        commands_v(r@) == seq![QctCommandV::ApplyChanges(add_changes(vt@))],
{
    let v = Video::new_full(VideoType::new(vt, GenericContentData::new()));
    let mut list: Vec<VideoTypeChanges_List> = Vec::new();
    list.push(VideoTypeChanges_List::Insert(0, v));
    proof {
        lemma_list_changes_view(&list);
        assert(list_changes_v(list@) =~= seq![list@[0]@]);
    }
    let mut c = VideoChanges::none();
    c.video = Some(VideoTypeChanges::List(list));
    let mut r: Vec<QctCommand> = Vec::new();
    r.push(QctCommand::ApplyChanges(c));
    assert(commands_v(r@) =~= seq![r@[0]@]);
    r
}

/// The one request `c`.
fn one_command(c: QctCommand) -> (r: Vec<QctCommand>)
    ensures
        commands_v(r@) == seq![c@],
{
    let mut r: Vec<QctCommand> = Vec::new();
    r.push(c);
    assert(commands_v(r@) =~= seq![c@]);
    r
}

/// The text after the first word of `cs[i..]` (see `rest_after`), `kind` being that
/// word lowercased; `None` where it panics.
fn rest_after_exec(cs: &Vec<char>, i: usize, kind: &String) -> (r: Option<Option<String>>)
    requires
        i <= cs@.len(),
    ensures
        match rest_after(cs@.skip(i as int), kind@) {
            None => r is None,
            Some(None) => r == Some(None::<String>),
            Some(Some(x)) => r matches Some(Some(y)) && y@ == x,
        },
{
    let kc = chars_of(kind.as_str());
    let _kl = kc.len();
    let bl_next = bytes_len_exec(cs, i);
    let bl_kind = bytes_len_exec(&kc, 0);
    assert(kc@.skip(0) =~= kc@);
    proof {
        lemma_bytes_len_bound(kc@);
    }
    assert(bl_kind <= 4 * usize::MAX);
    if bl_next > bl_kind + 1 {
        match byte_skip_exec(cs, i, bl_kind + 1) {
            Some(j) => Some(Some(string_from(cs, j))),
            None => None,
        }
    } else {
        Some(None)
    }
}

/// Runs an `add` command; `cs` holds the command `cmd`.
fn run_add(command: &String, cs: &Vec<char>) -> (r: Option<QctOutcome>)
    requires
        cs@ == command@,
        starts_with(cs@, "add "@),
    ensures
        ({
            let next = command@.skip(4);
            match word1(next) {
                None => r is None,
                Some(w) => {
                    let kind = lowercase(w);
                    match rest_after(next, kind) {
                        None => r is None,
                        Some(rest) => r matches Some(o) && o@ == if kind == "vid"@ && rest is Some {
                            QctOutcomeV::ListFrames(rest->Some_0)
                        } else {
                            QctOutcomeV::Done(match added_content(kind, rest) {
                                Some(vt) => Ok(seq![QctCommandV::ApplyChanges(add_changes(vt))]),
                                None => Err(command@ + " <- expected list/effect/img/vid/ffmpeg"@),
                            })
                        },
                    }
                },
            }
        }),
{
    proof {
        reveal_strlit("add ");
        reveal_strlit("list");
        reveal_strlit("effect");
        reveal_strlit("img");
        reveal_strlit("vid");
        reveal_strlit("ffmpeg");
    }
    let (w, _) = match first_word_exec(cs, 4) {
        Some(x) => x,
        None => return None,
    };
    let kind = to_lowercase(string_from_chars(&w).as_str());
    let rest = match rest_after_exec(cs, 4, &kind) {
        Some(r) => r,
        None => return None,
    };
    let path = match &rest {
        Some(p) => p.clone(),
        None => String::new(),
    };
    let vt = if string_is(&kind, "list") {
        let v: Vec<Video> = Vec::new();
        proof {
            lemma_list_view(&v);
            assert(videos_v(v@) =~= Seq::<VideoV>::empty());
        }
        VideoTypeEnum::List(v)
    } else if string_is(&kind, "effect") {
        VideoTypeEnum::WithEffect(
            Box::new(Video::new_full(VideoType::empty_list(GenericContentData::new()))),
            Effect::new_from_enum(EffectsEnum::Nothing(Nothing::new())),
        )
    } else if string_is(&kind, "img") {
        VideoTypeEnum::Image(Image::new(path))
    } else if string_is(&kind, "vid") {
        match rest {
            Some(p) => return Some(QctOutcome::ListFrames(p)),
            None => VideoTypeEnum::Raw(InputVideo::new(path, (0, 0, true))),
        }
    } else if string_is(&kind, "ffmpeg") {
        VideoTypeEnum::Ffmpeg(FfmpegVid::new(path, GenericContentData::new()))
    } else {
        let mut m = command.clone();
        append_str(&mut m, " <- expected list/effect/img/vid/ffmpeg");
        return Some(QctOutcome::Done(Err(m)));
    };
    Some(QctOutcome::Done(Ok(add_content_command(vt))))
}

/// Runs a `wrap` command; `cs` holds the command.
fn run_wrap(command: &String, cs: &Vec<char>) -> (r: Option<QctOutcome>)
    requires
        cs@ == command@,
        starts_with(cs@, "wrap"@),
    ensures
        match byte_skip(command@, 5) {
            None => r is None,
            Some(next) => match word1(next) {
                None => r is None,
                Some(w) => {
                    let kind = lowercase(w);
                    match rest_after(next, kind) {
                        None => r is None,
                        Some(rest) => r matches Some(o) && o@ == if kind == "aspect_ratio"@ {
                            match rest {
                                Some(x) => match crate::strings::first_index_of(x, ':') {
                                    Some(k) => {
                                        let after = x.skip(k + 1);
                                        QctOutcomeV::ReadAspectRatio(
                                            x.take(k),
                                            match crate::strings::first_index_of(after, ':') {
                                                Some(k2) => after.take(k2),
                                                None => after,
                                            },
                                        )
                                    },
                                    None => QctOutcomeV::Done(Err(
                                        "wrap type 'aspect_ratio' requires an aspect ratio specified as [width]:[height]."@,
                                    )),
                                },
                                None => QctOutcomeV::Done(Err(command@ + " (?)"@)),
                            }
                        } else if kind == "list"@ {
                            QctOutcomeV::Done(Ok(seq![QctCommandV::ApplyChanges(
                                VideoChangesV { wrap: Some(WrapWithV::List), ..no_changes() },
                            )]))
                        } else {
                            QctOutcomeV::Done(Err("Invalid wrap type: '"@ + kind + "'"@))
                        },
                    }
                },
            },
        },
{
    proof {
        reveal_strlit("aspect_ratio");
        reveal_strlit("list");
    }
    let j0 = match byte_skip_exec(cs, 0, 5) {
        Some(j) => j,
        None => {
            assert(cs@.skip(0) =~= cs@);
            return None;
        },
    };
    assert(cs@.skip(0) =~= cs@);
    let (w, _) = match first_word_exec(cs, j0) {
        Some(x) => x,
        None => return None,
    };
    let kind = to_lowercase(string_from_chars(&w).as_str());
    let rest = match rest_after_exec(cs, j0, &kind) {
        Some(r) => r,
        None => return None,
    };
    if string_is(&kind, "aspect_ratio") {
        match rest {
            Some(x) => match split_at_char(&x, ':') {
                Some((n1, after)) => {
                    let n2 = match split_at_char(&after, ':') {
                        Some((n2, _)) => n2,
                        None => after,
                    };
                    Some(QctOutcome::ReadAspectRatio(n1, n2))
                },
                None => Some(QctOutcome::Done(Err(
                    "wrap type 'aspect_ratio' requires an aspect ratio specified as [width]:[height].".to_string(),
                ))),
            },
            None => {
                let mut m = command.clone();
                append_str(&mut m, " (?)");
                Some(QctOutcome::Done(Err(m)))
            },
        }
    } else if string_is(&kind, "list") {
        let mut c = VideoChanges::none();
        c.wrap = Some(VideoChangesWrapWith::List);
        Some(QctOutcome::Done(Ok(one_command(QctCommand::ApplyChanges(c)))))
    } else {
        let mut m = String::new();
        append_str(&mut m, "Invalid wrap type: '");
        append_str(&mut m, kind.as_str());
        append_str(&mut m, "'");
        assert(m@ =~= "Invalid wrap type: '"@ + kind@ + "'"@);
        Some(QctOutcome::Done(Err(m)))
    }
}

/// Runs the quick command `command` (see `command_outcome`); `None` where running it
/// panics.
fn run_command(command: &String) -> (r: Option<QctOutcome>)
    ensures
        match command_outcome(command@) {
            None => r is None,
            Some(o) => r matches Some(x) && x@ == o,
        },
{
    proof {
        reveal_strlit("edit");
    }
    let cs = chars_of(command.as_str());
    if string_is(command, "deselect editing") {
        return Some(QctOutcome::Done(Ok(one_command(QctCommand::UnsetEditing))));
    }
    assert(cs@.skip(0) =~= cs@);
    if let Some((w1, j)) = first_word_exec(&cs, 0) {
        let w1s = string_from_chars(&w1);
        if string_is(&w1s, "edit") {
            return Some(QctOutcome::Done(match first_word_exec(&cs, j) {
                Some((num, _)) => {
                    let nums = string_from_chars(&num);
                    match parse_uint::<u32>(nums.as_str()) {
                        Ok(n) => Ok(one_command(QctCommand::SetEditingTo(n))),
                        Err(_) => {
                            let mut m = command.clone();
                            append_str(&mut m, " <- not a number");
                            Err(m)
                        },
                    }
                },
                None => Err("edit [num]".to_string()),
            }));
        }
    }
    if starts_with_exec(&cs, "add ") {
        return run_add(command, &cs);
    }
    if starts_with_exec(&cs, "wrap") {
        return run_wrap(command, &cs);
    }
    let mut m = command.clone();
    append_str(&mut m, " (?)");
    Some(QctOutcome::Done(Err(m)))
}

/// Whether running the quick command `command` panics (see `command_outcome`).
pub fn command_panics(command: &String) -> (r: bool)
    ensures
        r == (command_outcome(command@) is None),
{
    run_command(command).is_none()
}

/// Runs the quick command `command`: `deselect editing`; `edit` and a video's
/// number; `add` and a kind of content (and its path); `wrap` and `list` or
/// `aspect_ratio` with `width:height` (see `command_outcome`).
pub fn exec_command(command: &String) -> (r: QctOutcome)
    requires
        command_outcome(command@) is Some,
    ensures
        command_outcome(command@) == Some(r@),
{
    match run_command(command) {
        Some(o) => o,
        None => QctOutcome::Done(Err(String::new())),
    }
}

/// The result of wrapping in the aspect ratio written as `n1:n2`, given why each
/// number could not be read as a float, if it could not.
pub fn aspect_ratio_result(n1: String, n2: String, e1: Option<String>, e2: Option<String>) -> (r: Result<Vec<QctCommand>, String>)
    ensures
        match (e1, e2) {
            (None, None) => r matches Ok(v) && commands_v(v@) == seq![QctCommandV::ApplyChanges(VideoChangesV {
                wrap: Some(WrapWithV::AspectRatio(
                    CurveV::Owned(CurveDataV::Constant(n1@)),
                    CurveV::Owned(CurveDataV::Constant(n2@)),
                )),
                ..no_changes()
            })],
            (None, Some(b)) => r matches Err(m) && m@ == "width '"@ + n2@ + "' could not be parsed: "@ + b@,
            (Some(a), None) => r matches Err(m) && m@ == "height '"@ + n1@ + "' could not be parsed: "@ + a@,
            (Some(a), Some(b)) => r matches Err(m) && m@ == "width '"@ + n1@ + "' and height '"@ + n2@
                + "' could not be parsed: "@ + a@ + " | "@ + b@,
        },
{
    match (e1, e2) {
        (None, None) => {
            let mut c = VideoChanges::none();
            c.wrap = Some(VideoChangesWrapWith::AspectRatio(
                Curve::owned(CurveData::Constant(Number::new(n1))),
                Curve::owned(CurveData::Constant(Number::new(n2))),
            ));
            Ok(one_command(QctCommand::ApplyChanges(c)))
        },
        (None, Some(b)) => {
            let mut m = String::new();
            append_str(&mut m, "width '");
            append_str(&mut m, n2.as_str());
            append_str(&mut m, "' could not be parsed: ");
            append_str(&mut m, b.as_str());
            assert(m@ =~= "width '"@ + n2@ + "' could not be parsed: "@ + b@);
            Err(m)
        },
        (Some(a), None) => {
            let mut m = String::new();
            append_str(&mut m, "height '");
            append_str(&mut m, n1.as_str());
            append_str(&mut m, "' could not be parsed: ");
            append_str(&mut m, a.as_str());
            assert(m@ =~= "height '"@ + n1@ + "' could not be parsed: "@ + a@);
            Err(m)
        },
        (Some(a), Some(b)) => {
            let mut m = String::new();
            append_str(&mut m, "width '");
            append_str(&mut m, n1.as_str());
            append_str(&mut m, "' and height '");
            append_str(&mut m, n2.as_str());
            append_str(&mut m, "' could not be parsed: ");
            append_str(&mut m, a.as_str());
            append_str(&mut m, " | ");
            append_str(&mut m, b.as_str());
            assert(m@ =~= "width '"@ + n1@ + "' and height '"@ + n2@ + "' could not be parsed: "@ + a@ + " | "@ + b@);
            Err(m)
        },
    }
}

/// The result of adding the directory of frames `dir`, given its files' names, or why
/// they could not be listed.
pub fn frames_added(dir: String, listing: Result<Vec<String>, String>) -> (r: Result<Vec<QctCommand>, String>)
    ensures
        match listing {
            Ok(names) => r matches Ok(v) && exists|iv: InputVideoV| #[trigger] is_frames_video(iv, dir@, (0, 0, true), names@)
                && commands_v(v@) == seq![QctCommandV::ApplyChanges(add_changes(VideoTypeEnumV::Raw(iv)))],
            Err(e) => r matches Err(m) && m@ == "Could not create video: "@ + e@,
        },
{
    match listing {
        Ok(names) => {
            let ghost d = dir@;
            let ghost n = names@;
            let v = InputVideo::new_from_directory_full_of_frames(dir, (0, 0, true), names);
            let ghost iv = v@;
            let r = add_content_command(VideoTypeEnum::Raw(v));
            assert(is_frames_video(iv, d, (0, 0, true), n));
            Ok(r)
        },
        Err(e) => {
            let mut m = String::new();
            append_str(&mut m, "Could not create video: ");
            append_str(&mut m, e.as_str());
            assert(m@ =~= "Could not create video: "@ + e@);
            Err(m)
        },
    }
}

// ------------------------------------------------------------------ the edited part

/// What the completions need to know of the video being edited.
pub enum EditingPartAbstract {
    /// Nothing is being edited.
    NotEditing,
    List { length: usize },
    AspectRatio { vid: Box<EditingPartAbstract>, width: Curve, height: Curve },
    WithEffect { effect: (), contained: Box<EditingPartAbstract> },
    Text(TextType),
    Image { path: String },
    Video { path: String },
    Ffmpeg { path: String },
}

/// The abstract value of the edited part.
pub enum EditingPartAbstractV {
    NotEditing,
    List { length: usize },
    AspectRatio { vid: Box<EditingPartAbstractV>, width: CurveV, height: CurveV },
    WithEffect { contained: Box<EditingPartAbstractV> },
    Text(TextTypeV),
    Image { path: Seq<char> },
    Video { path: Seq<char> },
    Ffmpeg { path: Seq<char> },
}

impl View for EditingPartAbstract {
    type V = EditingPartAbstractV;

    open spec fn view(&self) -> EditingPartAbstractV
        decreases self,
    {
        match self {
            EditingPartAbstract::NotEditing => EditingPartAbstractV::NotEditing,
            EditingPartAbstract::List { length } => EditingPartAbstractV::List { length: *length },
            EditingPartAbstract::AspectRatio { vid, width, height } => EditingPartAbstractV::AspectRatio {
                vid: Box::new((**vid).view()),
                width: width@,
                height: height@,
            },
            EditingPartAbstract::WithEffect { effect: _, contained } => EditingPartAbstractV::WithEffect {
                contained: Box::new((**contained).view()),
            },
            EditingPartAbstract::Text(t) => EditingPartAbstractV::Text(t@),
            EditingPartAbstract::Image { path } => EditingPartAbstractV::Image { path: path@ },
            EditingPartAbstract::Video { path } => EditingPartAbstractV::Video { path: path@ },
            EditingPartAbstract::Ffmpeg { path } => EditingPartAbstractV::Ffmpeg { path: path@ },
        }
    }
}

/// What the completions need to know of the video `v`.
pub open spec fn abstract_of(v: VideoV) -> EditingPartAbstractV
    decreases v,
{
    match v.video.vt {
        VideoTypeEnumV::List(vs) => EditingPartAbstractV::List { length: vs.len() as usize },
        VideoTypeEnumV::AspectRatio(c, w, h) => EditingPartAbstractV::AspectRatio {
            vid: Box::new(abstract_of(*c)),
            width: w,
            height: h,
        },
        VideoTypeEnumV::WithEffect(c, _) => EditingPartAbstractV::WithEffect { contained: Box::new(abstract_of(*c)) },
        VideoTypeEnumV::Text(t) => EditingPartAbstractV::Text(t.text),
        VideoTypeEnumV::Image(i) => EditingPartAbstractV::Image { path: i.path },
        VideoTypeEnumV::Raw(r) => EditingPartAbstractV::Video { path: r.images_directory },
        VideoTypeEnumV::Ffmpeg(f) => EditingPartAbstractV::Ffmpeg { path: f.path },
    }
}

impl EditingPartAbstract {
    /// What the completions need to know of the video `vid`.
    pub fn from(vid: &Video) -> (r: EditingPartAbstract)
        ensures
            r@ == abstract_of(vid@),
        decreases crate::video::video_weight(vid@),
    {
        match vid.content() {
            VideoTypeEnum::List(vec) => {
                proof { lemma_list_view(vec); }
                EditingPartAbstract::List { length: vec.len() }
            },
            VideoTypeEnum::AspectRatio(v, w, h) => {
                EditingPartAbstract::AspectRatio {
                    vid: Box::new(EditingPartAbstract::from(&**v)),
                    width: w.clone(),
                    height: h.clone(),
                }
            },
            VideoTypeEnum::WithEffect(v, _) => {
                EditingPartAbstract::WithEffect { effect: (), contained: Box::new(EditingPartAbstract::from(&**v)) }
            },
            VideoTypeEnum::Text(t) => EditingPartAbstract::Text(t.text().clone()),
            VideoTypeEnum::Image(img) => EditingPartAbstract::Image { path: img.path().clone() },
            VideoTypeEnum::Raw(r) => EditingPartAbstract::Video { path: r.get_dir().clone() },
            VideoTypeEnum::Ffmpeg(f) => EditingPartAbstract::Ffmpeg { path: f.path().clone() },
        }
    }

    /// Whether something is being edited.
    pub fn is_some(&self) -> (r: bool)
        ensures
            r == !(self@ is NotEditing),
    {
        match self {
            EditingPartAbstract::NotEditing => false,
            _ => true,
        }
    }

    /// Whether a list is being edited.
    pub fn is_list(&self) -> (r: bool)
        ensures
            r == (self@ is List),
    {
        match self {
            EditingPartAbstract::List { .. } => true,
            _ => false,
        }
    }
}

// ------------------------------------------------------------------ completions

pub open spec fn strings_of(v: Seq<String>) -> Seq<Seq<char>> {
    Seq::new(v.len(), |i: int| v[i]@)
}

/// The index of the last `c` in `s`, if any.
pub open spec fn last_index_of(s: Seq<char>, c: char) -> Option<int>
    decreases s.len(),
{
    if s.len() == 0 {
        None
    } else if s.last() == c {
        Some(s.len() - 1)
    } else {
        last_index_of(s.drop_last(), c)
    }
}

/// The directory to list and the start of the file names to offer, for the path
/// `path` typed after `add img `, `add vid ` or `add ffmpeg `: before and after its
/// last `/`; without a `/`, no directory, and the path without its first character.
/// `None` where that cuts a character.
pub open spec fn path_parts(path: Seq<char>) -> Option<(Seq<char>, Option<Seq<char>>)> {
    match last_index_of(path, '/') {
        Some(k) => Some((path.take(k), if path.len() > k + 1 { Some(path.skip(k + 1)) } else { None })),
        None => if bytes_len(path) > 1 {
            match byte_skip(path, 1) {
                Some(f) => Some((Seq::empty(), Some(f))),
                None => None,
            }
        } else {
            Some((Seq::empty(), None))
        },
    }
}

/// The kind (`img`, `vid` or `ffmpeg`) and the path typed after `add ` in `what`
/// (lowercased as `whatl`), if a path of one of them is being typed; `None` inside
/// where the path starts inside a character.
pub open spec fn typed_path(what: Seq<char>, whatl: Seq<char>) -> Option<Option<(Seq<char>, Seq<char>)>> {
    let (kind, n) = if starts_with(whatl, "img "@) {
        ("img"@, 4int)
    } else if starts_with(whatl, "vid "@) {
        ("vid"@, 4int)
    } else if starts_with(whatl, "ffmpeg "@) {
        ("ffmpeg"@, 7int)
    } else {
        (Seq::empty(), 0int)
    };
    if n == 0 {
        Some(None)
    } else {
        match byte_skip(what, n) {
            Some(path) => Some(Some((kind, path))),
            None => None,
        }
    }
}

/// The directory whose files are offered while `query` is typed, if any: the
/// directory part of a path typed after `add img `, `add vid ` or `add ffmpeg `.
/// `None` inside where reading the path panics (a cut inside a character).
pub open spec fn listing_dir(query: Seq<char>) -> Option<Option<Seq<char>>> {
    if !starts_with(query, "add "@) {
        Some(None)
    } else {
        let what = query.skip(4);
        match typed_path(what, lowercase(what)) {
            None => None,
            Some(None) => Some(None),
            Some(Some((_, path))) => match path_parts(path) {
                None => None,
                Some((dir, _)) => Some(Some(dir)),
            },
        }
    }
}

/// The entries of a listed directory (their paths, and their file names where they
/// have one) whose names start with `file`, each as `kind`, a space and its path.
pub open spec fn entry_suggestions(kind: Seq<char>, file: Option<Seq<char>>, entries: Seq<(Seq<char>, Option<Seq<char>>)>) -> Seq<Seq<char>>
    decreases entries.len(),
{
    if entries.len() == 0 {
        Seq::empty()
    } else {
        let (path, name) = entries[0];
        let ok = match file {
            Some(f) => match name {
                Some(n) => starts_with(n, f),
                None => false,
            },
            None => true,
        };
        (if ok { seq![kind + " "@ + path] } else { Seq::empty() }) + entry_suggestions(kind, file, entries.drop_first())
    }
}

/// `c` when `b`, else nothing.
pub open spec fn when(b: bool, c: Seq<char>) -> Seq<Seq<char>> {
    if b { seq![c] } else { Seq::empty() }
}

/// Each of `v` after `p`.
pub open spec fn prefixed(p: Seq<char>, v: Seq<Seq<char>>) -> Seq<Seq<char>> {
    Seq::new(v.len(), |i: int| p + v[i])
}

/// The files offered for the path being typed in `what` (what follows `add `).
pub open spec fn listed_suggestions(what: Seq<char>, entries: Seq<(Seq<char>, Option<Seq<char>>)>) -> Seq<Seq<char>> {
    match typed_path(what, lowercase(what)) {
        Some(Some((kind, path))) => match path_parts(path) {
            Some((_, file)) => entry_suggestions(kind, file, entries),
            None => Seq::empty(),
        },
        _ => Seq::empty(),
    }
}

/// What `add ` may be followed by, given what follows it so far (`what`) and the
/// entries of the directory being typed (see `listing_dir`).
pub open spec fn add_suggestions(what: Seq<char>, entries: Seq<(Seq<char>, Option<Seq<char>>)>) -> Seq<Seq<char>> {
    let whatl = lowercase(what);
    let listed = listed_suggestions(what, entries);
    let img = if starts_with(whatl, "img "@) { listed } else { Seq::empty() };
    let vid = if starts_with(whatl, "vid "@) { listed } else { Seq::empty() };
    let ffmpeg = if starts_with(whatl, "ffmpeg "@) { listed } else { Seq::empty() };
    when(starts_with("list"@, whatl), "list"@) + when(starts_with("effect"@, whatl), "effect"@) + when(
        starts_with("img"@, whatl),
        "img"@,
    ) + when(whatl == "img"@, "img [path]"@) + img + when(starts_with("vid"@, whatl), "vid"@) + when(
        whatl == "vid"@,
        "vid [path]"@,
    ) + vid + when(starts_with("ffmpeg"@, whatl), "ffmpeg"@) + when(whatl == "ffmpeg"@, "ffmpeg [path]"@) + ffmpeg
}

/// What a wrap may be followed by, given what follows `wrap ` so far.
pub open spec fn wrap_suggestions(mode: Seq<char>) -> Seq<Seq<char>> {
    when(starts_with("list"@, mode) && bytes_len(mode) <= 4, "list"@) + if "aspect_ratio "@ == mode {
        seq!["aspect_ratio [w]:[h]"@]
    } else if starts_with("aspect_ratio"@, mode) {
        seq!["aspect_ratio"@]
    } else if starts_with(mode, "aspect_ratio "@) {
        seq![mode]
    } else {
        Seq::empty()
    }
}

/// The completions that step `step` of going through the commands offers for
/// `query`, while `editing` is edited and the directory being typed holds `entries`.
pub open spec fn completions_at(
    step: u32,
    query: Seq<char>,
    editing: EditingPartAbstractV,
    entries: Seq<(Seq<char>, Option<Seq<char>>)>,
) -> Seq<Seq<char>> {
    if step == 1 {
        when(!(editing is NotEditing) && starts_with("deselect editing"@, query), "deselect editing"@)
    } else if step == 2 {
        if starts_with("edit "@, query) {
            seq!["edit [num]"@]
        } else {
            when(starts_with(query, "edit "@), query)
        }
    } else if step == 3 {
        if editing is NotEditing {
            Seq::empty()
        } else {
            when(starts_with("wrap "@, query), "wrap [mode]"@) + if starts_with(query, "wrap "@) {
                prefixed("wrap "@, wrap_suggestions(query.skip(5)))
            } else {
                Seq::empty()
            }
        }
    } else if step == 4 {
        if editing is List {
            when(starts_with("add "@, query), "add [what]"@) + if starts_with(query, "add "@) {
                prefixed("add "@, add_suggestions(query.skip(4), entries))
            } else {
                Seq::empty()
            }
        } else {
            Seq::empty()
        }
    } else {
        when(starts_with("test"@, query), "test"@)
    }
}

pub open spec fn entries_v(v: Seq<(String, Option<String>)>) -> Seq<(Seq<char>, Option<Seq<char>>)> {
    Seq::new(
        v.len(),
        |i: int|
            (
                v[i].0@,
                match v[i].1 {
                    Some(n) => Some(n@),
                    None => None,
                },
            ),
    )
}

/// Whether the characters `q` begin `lit`.
fn is_prefix_of(q: &Vec<char>, lit: &str) -> (r: bool)
    ensures
        r == starts_with(lit@, q@),
{
    let lc = chars_of(lit);
    if q.len() > lc.len() {
        return false;
    }
    let mut i: usize = 0;
    while i < q.len()
        invariant
            i <= q@.len() <= lc@.len(),
            lc@ == lit@,
            lc@.take(i as int) == q@.take(i as int),
        decreases q.len() - i,
    {
        if q[i] != lc[i] {
            assert(lc@.take(q@.len() as int)[i as int] != q@[i as int]);
            return false;
        }
        assert(lc@.take(i + 1) =~= lc@.take(i as int).push(lc@[i as int]));
        assert(q@.take(i + 1) =~= q@.take(i as int).push(q@[i as int]));
        i = i + 1;
    }
    assert(q@.take(q@.len() as int) =~= q@);
    true
}

/// The index of the last `c` in `s`, if any.
fn last_index_of_exec(s: &Vec<char>, c: char) -> (r: Option<usize>)
    ensures
        match last_index_of(s@, c) {
            Some(k) => r == Some(k as usize) && 0 <= k < s@.len(),
            None => r is None,
        },
{
    let mut k: usize = s.len();
    assert(s@.take(k as int) =~= s@);
    while k > 0
        invariant
            k <= s@.len(),
            last_index_of(s@, c) == last_index_of(s@.take(k as int), c),
        decreases k,
    {
        assert(s@.take(k as int).drop_last() =~= s@.take(k - 1));
        if s[k - 1] == c {
            return Some(k - 1);
        }
        k = k - 1;
    }
    None
}

/// The characters of `s` before `k`, as a text.
fn string_upto(s: &Vec<char>, k: usize) -> (r: String)
    requires
        k <= s@.len(),
    ensures
        r@ == s@.take(k as int),
{
    let mut r = String::new();
    let mut j: usize = 0;
    while j < k
        invariant
            j <= k <= s@.len(),
            r@ == s@.take(j as int),
        decreases k - j,
    {
        r.push(s[j]);
        assert(s@.take(j as int).push(s@[j as int]) =~= s@.take(j + 1));
        j = j + 1;
    }
    r
}

/// `path_parts` of `path`.
fn path_parts_exec(path: &Vec<char>) -> (r: Option<(String, Option<String>)>)
    ensures
        match path_parts(path@) {
            None => r is None,
            Some((d, f)) => r matches Some((x, y)) && x@ == d && match f {
                Some(ff) => y matches Some(yy) && yy@ == ff,
                None => y is None,
            },
        },
{
    match last_index_of_exec(path, '/') {
        Some(k) => {
            let dir = string_upto(path, k);
            let file = if path.len() > k + 1 { Some(string_from(path, k + 1)) } else { None };
            Some((dir, file))
        },
        None => {
            let bl = bytes_len_exec(path, 0);
            assert(path@.skip(0) =~= path@);
            if bl > 1 {
                match byte_skip_exec(path, 0, 1) {
                    Some(j) => Some((String::new(), Some(string_from(path, j)))),
                    None => None,
                }
            } else {
                Some((String::new(), None))
            }
        },
    }
}

/// `typed_path` of `what` (lowercased as `whatl`).
fn typed_path_exec(what: &Vec<char>, whatl: &Vec<char>) -> (r: Option<Option<(String, Vec<char>)>>)
    ensures
        match typed_path(what@, whatl@) {
            None => r is None,
            Some(None) => r matches Some(x) && x is None,
            Some(Some((k, p))) => r matches Some(Some((kk, pp))) && kk@ == k && pp@ == p,
        },
{
    proof {
        reveal_strlit("img ");
        reveal_strlit("vid ");
        reveal_strlit("ffmpeg ");
    }
    let (kind, n): (String, u128) = if starts_with_exec(whatl, "img ") {
        ("img".to_string(), 4)
    } else if starts_with_exec(whatl, "vid ") {
        ("vid".to_string(), 4)
    } else if starts_with_exec(whatl, "ffmpeg ") {
        ("ffmpeg".to_string(), 7)
    } else {
        return Some(None);
    };
    assert(what@.skip(0) =~= what@);
    match byte_skip_exec(what, 0, n) {
        Some(j) => {
            let mut p: Vec<char> = Vec::new();
            let mut i: usize = j;
            while i < what.len()
                invariant
                    j <= i <= what@.len(),
                    p@ == what@.subrange(j as int, i as int),
                decreases what.len() - i,
            {
                p.push(what[i]);
                assert(what@.subrange(j as int, i as int).push(what@[i as int]) =~= what@.subrange(j as int, i + 1));
                i = i + 1;
            }
            assert(what@.subrange(j as int, what@.len() as int) =~= what@.skip(j as int));
            Some(Some((kind, p)))
        },
        None => None,
    }
}

/// The directory whose files are to be listed while `query` is typed (see
/// `listing_dir`); `None` where reading the typed path panics.
pub fn completion_listing(query: &String) -> (r: Option<Option<String>>)
    ensures
        match listing_dir(query@) {
            None => r is None,
            Some(None) => r matches Some(x) && x is None,
            Some(Some(d)) => r matches Some(Some(x)) && x@ == d,
        },
{
    proof {
        reveal_strlit("add ");
    }
    let qc = chars_of(query.as_str());
    if !starts_with_exec(&qc, "add ") {
        return Some(None);
    }
    let what = string_from(&qc, 4);
    let whatl = to_lowercase(what.as_str());
    let wc = chars_of(what.as_str());
    let wl = chars_of(whatl.as_str());
    match typed_path_exec(&wc, &wl) {
        None => None,
        Some(None) => Some(None),
        Some(Some((_, path))) => match path_parts_exec(&path) {
            None => None,
            Some((dir, _)) => Some(Some(dir)),
        },
    }
}

/// Appends `s` to the completions `out`.
fn push_completion(out: &mut Vec<String>, s: String)
    ensures
        strings_of(final(out)@) == strings_of(old(out)@).push(s@),
{
    let ghost before = strings_of(out@);
    out.push(s);
    assert(strings_of(out@) =~= before.push(s@));
}

/// Appends `p` and `s` to the completions `out`.
fn push_prefixed(out: &mut Vec<String>, p: &str, s: &String)
    ensures
        strings_of(final(out)@) == strings_of(old(out)@).push(p@ + s@),
{
    let mut t = p.to_string();
    append_str(&mut t, s.as_str());
    push_completion(out, t);
}

/// Appends `s` to the completions `out` when `b`.
fn push_when(out: &mut Vec<String>, b: bool, s: &str)
    ensures
        strings_of(final(out)@) == strings_of(old(out)@) + when(b, s@),
{
    let ghost before = strings_of(out@);
    if b {
        push_completion(out, s.to_string());
        assert(before.push(s@) =~= before + when(b, s@));
    } else {
        assert(before =~= before + when(b, s@));
    }
}

/// Appends the completions `v` to `out`.
fn append_all(out: &mut Vec<String>, v: Vec<String>)
    ensures
        strings_of(final(out)@) == strings_of(old(out)@) + strings_of(v@),
{
    let ghost before = strings_of(out@);
    let mut i: usize = 0;
    assert(strings_of(v@).take(0) =~= Seq::<Seq<char>>::empty());
    assert(before + Seq::<Seq<char>>::empty() =~= before);
    while i < v.len()
        invariant
            i <= v@.len(),
            strings_of(out@) == before + strings_of(v@).take(i as int),
        decreases v.len() - i,
    {
        push_completion(out, v[i].clone());
        assert(before + strings_of(v@).take(i + 1) =~= (before + strings_of(v@).take(i as int)).push(v@[i as int]@));
        i = i + 1;
    }
    assert(strings_of(v@).take(v@.len() as int) =~= strings_of(v@));
}

/// `entry_suggestions` of the entries `entries`.
fn entry_suggestions_exec(kind: &String, file: &Option<String>, entries: &Vec<(String, Option<String>)>) -> (r: Vec<String>)
    ensures
        strings_of(r@) == entry_suggestions(
            kind@,
            match file {
                Some(f) => Some(f@),
                None => None,
            },
            entries_v(entries@),
        ),
{
    let ghost fv = match file {
        Some(f) => Some(f@),
        None => None::<Seq<char>>,
    };
    let ghost all = entries_v(entries@);
    let mut r: Vec<String> = Vec::new();
    let mut i: usize = entries.len();
    let mut rev: Vec<String> = Vec::new();
    assert(all.skip(i as int) =~= Seq::<(Seq<char>, Option<Seq<char>>)>::empty());
    while i > 0
        invariant
            i <= entries@.len(),
            all == entries_v(entries@),
            fv == match file {
                Some(f) => Some(f@),
                None => None::<Seq<char>>,
            },
            strings_of(rev@) == entry_suggestions(kind@, fv, all.skip(i as int)),
        decreases i,
    {
        i = i - 1;
        let (path, name) = &entries[i];
        let ok = match file {
            Some(f) => match name {
                Some(n) => {
                    let nc = chars_of(n.as_str());
                    starts_with_exec(&nc, f.as_str())
                },
                None => false,
            },
            None => true,
        };
        let ghost tail = strings_of(rev@);
        assert(all.skip(i as int).drop_first() =~= all.skip(i + 1));
        assert(all.skip(i as int)[0] == all[i as int]);
        let mut nrev: Vec<String> = Vec::new();
        if ok {
            let mut t = kind.clone();
            append_str(&mut t, " ");
            append_str(&mut t, path.as_str());
            nrev.push(t);
        }
        let ghost head = strings_of(nrev@);
        append_all(&mut nrev, rev);
        rev = nrev;
        assert(head =~= (if ok { seq![kind@ + " "@ + path@] } else { Seq::empty() }));
    }
    assert(all.skip(0) =~= all);
    rev
}

/// `listed_suggestions` of `what`.
fn listed_exec(what: &String, entries: &Vec<(String, Option<String>)>) -> (r: Vec<String>)
    ensures
        strings_of(r@) == listed_suggestions(what@, entries_v(entries@)),
{
    let whatl = to_lowercase(what.as_str());
    let wc = chars_of(what.as_str());
    let wl = chars_of(whatl.as_str());
    let empty: Vec<String> = Vec::new();
    assert(strings_of(empty@) =~= Seq::<Seq<char>>::empty());
    match typed_path_exec(&wc, &wl) {
        Some(Some((kind, path))) => match path_parts_exec(&path) {
            Some((_, file)) => entry_suggestions_exec(&kind, &file, entries),
            None => empty,
        },
        _ => empty,
    }
}

/// `add_suggestions` of `what`.
#[verifier::spinoff_prover]
#[verifier::rlimit(40)]
fn add_suggestions_exec(what: &String, entries: &Vec<(String, Option<String>)>) -> (r: Vec<String>)
    ensures
        strings_of(r@) == add_suggestions(what@, entries_v(entries@)),
{
    proof {
        reveal_strlit("img ");
        reveal_strlit("vid ");
        reveal_strlit("ffmpeg ");
    }
    let whatl = to_lowercase(what.as_str());
    let wl = chars_of(whatl.as_str());
    let listed = listed_exec(what, entries);
    let is_img = starts_with_exec(&wl, "img ");
    let is_vid = starts_with_exec(&wl, "vid ");
    let is_ffmpeg = starts_with_exec(&wl, "ffmpeg ");
    let mut out: Vec<String> = Vec::new();
    assert(strings_of(out@) =~= Seq::<Seq<char>>::empty());
    push_when(&mut out, is_prefix_of(&wl, "list"), "list");
    assert(Seq::<Seq<char>>::empty() + when(starts_with("list"@, whatl@), "list"@) =~= when(starts_with("list"@, whatl@), "list"@));
    push_when(&mut out, is_prefix_of(&wl, "effect"), "effect");
    push_when(&mut out, is_prefix_of(&wl, "img"), "img");
    push_when(&mut out, string_is(&whatl, "img"), "img [path]");
    if is_img {
        append_all(&mut out, listed.clone());
    } else {
        assert(strings_of(out@) + Seq::<Seq<char>>::empty() =~= strings_of(out@));
    }
    push_when(&mut out, is_prefix_of(&wl, "vid"), "vid");
    push_when(&mut out, string_is(&whatl, "vid"), "vid [path]");
    if is_vid {
        append_all(&mut out, listed.clone());
    } else {
        assert(strings_of(out@) + Seq::<Seq<char>>::empty() =~= strings_of(out@));
    }
    push_when(&mut out, is_prefix_of(&wl, "ffmpeg"), "ffmpeg");
    push_when(&mut out, string_is(&whatl, "ffmpeg"), "ffmpeg [path]");
    if is_ffmpeg {
        append_all(&mut out, listed);
    } else {
        assert(strings_of(out@) + Seq::<Seq<char>>::empty() =~= strings_of(out@));
    }
    out
}

/// Each of `v` after `p`.
fn prefix_all(p: &str, v: Vec<String>) -> (r: Vec<String>)
    ensures
        strings_of(r@) == prefixed(p@, strings_of(v@)),
{
    let mut r: Vec<String> = Vec::new();
    let mut i: usize = 0;
    while i < v.len()
        invariant
            i <= v@.len(),
            strings_of(r@) == prefixed(p@, strings_of(v@)).take(i as int),
        decreases v.len() - i,
    {
        push_prefixed(&mut r, p, &v[i]);
        assert(prefixed(p@, strings_of(v@)).take(i + 1) =~= prefixed(p@, strings_of(v@)).take(i as int).push(p@ + v@[i as int]@));
        i = i + 1;
    }
    assert(prefixed(p@, strings_of(v@)).take(v@.len() as int) =~= prefixed(p@, strings_of(v@)));
    r
}

/// The completions that step `step` offers for `query` (see `completions_at`), the
/// directory being typed holding `entries` (see `completion_listing`).
pub fn completions(step: u32, query: &String, editing: &EditingPartAbstract, entries: &Vec<(String, Option<String>)>) -> (r: Vec<String>)
    ensures
        strings_of(r@) == completions_at(step, query@, editing@, entries_v(entries@)),
{
    proof {
        reveal_strlit("wrap ");
        reveal_strlit("add ");
    }
    let qc = chars_of(query.as_str());
    let mut out: Vec<String> = Vec::new();
    assert(strings_of(out@) =~= Seq::<Seq<char>>::empty());
    if step == 1 {
        push_when(&mut out, editing.is_some() && is_prefix_of(&qc, "deselect editing"), "deselect editing");
        assert(Seq::<Seq<char>>::empty() + when(!(editing@ is NotEditing) && starts_with("deselect editing"@, query@), "deselect editing"@) =~= when(!(editing@ is NotEditing) && starts_with("deselect editing"@, query@), "deselect editing"@));
    } else if step == 2 {
        if is_prefix_of(&qc, "edit ") {
            push_completion(&mut out, "edit [num]".to_string());
        } else if starts_with_exec(&qc, "edit ") {
            push_completion(&mut out, query.clone());
        }
    } else if step == 3 {
        if editing.is_some() {
            push_when(&mut out, is_prefix_of(&qc, "wrap "), "wrap [mode]");
            assert(Seq::<Seq<char>>::empty() + when(starts_with("wrap "@, query@), "wrap [mode]"@) =~= when(starts_with("wrap "@, query@), "wrap [mode]"@));
            if starts_with_exec(&qc, "wrap ") {
                let mode = string_from(&qc, 5);
                let mc = chars_of(mode.as_str());
                let mut comps: Vec<String> = Vec::new();
                assert(strings_of(comps@) =~= Seq::<Seq<char>>::empty());
                let bl = bytes_len_exec(&mc, 0);
                assert(mc@.skip(0) =~= mc@);
                push_when(&mut comps, is_prefix_of(&mc, "list") && bl <= 4, "list");
                assert(Seq::<Seq<char>>::empty() + when(starts_with("list"@, mode@) && bytes_len(mode@) <= 4, "list"@) =~= when(starts_with("list"@, mode@) && bytes_len(mode@) <= 4, "list"@));
                if string_is(&mode, "aspect_ratio ") {
                    push_completion(&mut comps, "aspect_ratio [w]:[h]".to_string());
                } else if is_prefix_of(&mc, "aspect_ratio") {
                    push_completion(&mut comps, "aspect_ratio".to_string());
                } else if starts_with_exec(&mc, "aspect_ratio ") {
                    push_completion(&mut comps, mode.clone());
                } else {
                    assert(strings_of(comps@) + Seq::<Seq<char>>::empty() =~= strings_of(comps@));
                }
                append_all(&mut out, prefix_all("wrap ", comps));
            } else {
                assert(strings_of(out@) + Seq::<Seq<char>>::empty() =~= strings_of(out@));
            }
        }
    } else if step == 4 {
        if editing.is_list() {
            push_when(&mut out, is_prefix_of(&qc, "add "), "add [what]");
            assert(Seq::<Seq<char>>::empty() + when(starts_with("add "@, query@), "add [what]"@) =~= when(starts_with("add "@, query@), "add [what]"@));
            if starts_with_exec(&qc, "add ") {
                let what = string_from(&qc, 4);
                let sugg = add_suggestions_exec(&what, entries);
                append_all(&mut out, prefix_all("add ", sugg));
            } else {
                assert(strings_of(out@) + Seq::<Seq<char>>::empty() =~= strings_of(out@));
            }
        }
    } else {
        push_when(&mut out, is_prefix_of(&qc, "test"), "test");
        assert(Seq::<Seq<char>>::empty() + when(starts_with("test"@, query@), "test"@) =~= when(starts_with("test"@, query@), "test"@));
    }
    out
}


/// `add` makes the content of the kind typed, and where that content is read from a
/// path (`img`, `vid`, `ffmpeg`) the path is exactly the text typed after the kind,
/// empty where nothing follows it; any other kind is refused.
pub proof fn lemma_added_content_keeps_the_path(kind: Seq<char>, rest: Option<Seq<char>>)
    ensures
        ({
            let path = match rest {
                Some(r) => r,
                None => Seq::<char>::empty(),
            };
            &&& kind == "img"@ ==> (added_content(kind, rest) matches Some(VideoTypeEnumV::Image(i)) && i.path == path
                && i == new_image(path))
            &&& kind == "ffmpeg"@ ==> (added_content(kind, rest) matches Some(VideoTypeEnumV::Ffmpeg(f)) && f.path == path
                && f.changed_path is None)
            &&& kind == "vid"@ ==> (added_content(kind, rest) matches Some(VideoTypeEnumV::Raw(v))
                && v.images_directory == path && v.frames.len() == 0)
            &&& kind == "list"@ ==> added_content(kind, rest) == Some(VideoTypeEnumV::List(Seq::empty()))
            &&& kind == "effect"@ ==> (added_content(kind, rest) matches Some(VideoTypeEnumV::WithEffect(_, e))
                && e == EffectV::Nothing)
            &&& (kind != "img"@ && kind != "ffmpeg"@ && kind != "vid"@ && kind != "list"@ && kind != "effect"@)
                ==> added_content(kind, rest) is None
        }),
{
    reveal_strlit("img");
    reveal_strlit("ffmpeg");
    reveal_strlit("vid");
    reveal_strlit("list");
    reveal_strlit("effect");
    assert("img"@ != "list"@ && "img"@ != "effect"@ && "img"@ != "vid"@ && "img"@ != "ffmpeg"@) by {
        assert("img"@.len() != "list"@.len() && "img"@.len() != "effect"@.len() && "img"@[0] != "vid"@[0]);
        assert("img"@.len() != "ffmpeg"@.len());
    }
    assert("vid"@ != "list"@ && "vid"@ != "effect"@ && "vid"@ != "ffmpeg"@) by {
        assert("vid"@.len() != "list"@.len() && "vid"@.len() != "effect"@.len() && "vid"@.len() != "ffmpeg"@.len());
    }
    assert("ffmpeg"@ != "list"@ && "ffmpeg"@ != "effect"@) by {
        assert("ffmpeg"@.len() != "list"@.len() && "ffmpeg"@[0] != "effect"@[0]);
    }
    assert("list"@ != "effect"@) by {
        assert("list"@.len() != "effect"@.len());
    }
}

} // verus!
