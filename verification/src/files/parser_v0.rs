//! The project file format, version 0.

use vstd::prelude::*;
use crate::strings::{CharStream, drop_blanks, count_blanks, first_index_of, lemma_first_index_of, lemma_first_index_is};
use crate::numbers::{DecimalTarget, decimal_value, parse_uint};
use crate::curve::{Number, Curve, CurveData, CurveV, CurveDataV, CurveExternalProgramMode};
use crate::external_program::{ExternalProgram, ExternalProgramMode, ExternalProgramV};
use crate::types::{Color, ColorV};
use crate::strings::{string_is, append_str};
use crate::project::{Project, ProjectData, ProjectDataV};
use crate::numbers::IntParseError;
use crate::effect::{Effect, EffectV};
use crate::effect::effects::{EffectsEnum, Nothing, BlackWhite, Shake, ChangeTime, Blur, Blur_Mode, ColorAdjust, ColorAdjust_Mode, ColorKey, ColorKey_Mode};
use crate::content::{GenericContentData, Image, ImageV, FfmpegVid, FfmpegVidV, Text, TextType, TextTypeV, TextV, InputVideo, InputVideoV, new_image, new_text, strings_view};
use crate::video::{
    Video, VideoV, VideoType, VideoTypeV, VideoTypeEnum, VideoTypeEnumV, Pos, PosAlign, CompositingMethod,
    CompositingMethodV, no_changes, unselected, pos_view, videos_v, lemma_list_view,
};
use crate::paths::{pushed, push_path};
use crate::files::parser_general::{ParserError, ParserErrorV};

verus! {

broadcast use vstd::string::group_string_axioms;

/// Reads up to the first `;`, skipping spaces and tabs, and appends what it read to
/// `prepend`. The first member is `Ok` with that text when a `;` was found (which is
/// consumed), and `Err` with that text when the stream ended first. The second member
/// counts the characters kept and the spaces and tabs dropped.
pub fn parse_vid_to_next_semicolon(prepend: String, chars: &mut CharStream) -> (res: (Result<String, String>, (u32, u32)))
    requires
        old(chars)@.len() <= u32::MAX,
    ensures
        ({
            let input = old(chars)@;
            match first_index_of(input, ';') {
                Some(k) => {
                    &&& res.0 is Ok
                    &&& res.0->Ok_0@ == prepend@ + drop_blanks(input.take(k))
                    &&& final(chars)@ == input.skip(k + 1)
                    &&& res.1.0 == drop_blanks(input.take(k)).len()
                    &&& res.1.1 == count_blanks(input.take(k))
                },
                None => {
                    &&& res.0 is Err
                    &&& res.0->Err_0@ == prepend@ + drop_blanks(input)
                    &&& final(chars)@ == Seq::<char>::empty()
                    &&& res.1.0 == drop_blanks(input).len()
                    &&& res.1.1 == count_blanks(input)
                },
            }
        }),
{
    let ghost input = chars@;
    proof { lemma_first_index_of(input, ';'); }
    let mut buf = prepend;
    let ghost start = buf@;
    let mut chars_added: u32 = 0;
    let mut chars_discarded: u32 = 0;
    let ghost mut i: int = 0;
    loop
        invariant
            0 <= i <= input.len(),
            input.len() <= u32::MAX,
            chars@ == input.skip(i),
            buf@ == start + drop_blanks(input.take(i)),
            input == old(chars)@,
            start == prepend@,
            chars_added == drop_blanks(input.take(i)).len(),
            chars_discarded == count_blanks(input.take(i)),
            drop_blanks(input.take(i)).len() + count_blanks(input.take(i)) == i,
            forall|j: int| 0 <= j < i ==> input[j] != ';',
        decreases input.len() - i,
    {
        let ghost before = chars@;
        match chars.next() {
            Some(c) => {
                assert(before[0] == input[i]);
                assert(input.take(i + 1).drop_last() =~= input.take(i));
                assert(input.skip(i).drop_first() =~= input.skip(i + 1));
                if c == ';' {
                    proof {
                        lemma_first_index_is(input, ';', i);
                        assert(chars@ == input.skip(i + 1));
                    }
                    return (Ok(buf), (chars_added, chars_discarded));
                } else if c == ' ' || c == '\t' {
                    chars_discarded = chars_discarded + 1;
                } else {
                    buf.push(c);
                    chars_added = chars_added + 1;
                }
                proof { i = i + 1; }
            },
            None => {
                assert(input.skip(i).len() == 0);
                assert(i == input.len());
                assert(input.take(i) =~= input);
                assert forall|j: int| 0 <= j < input.len() implies input[j] != ';' by {}
                proof {
                    lemma_first_index_of(input, ';');
                    if let Some(k) = first_index_of(input, ';') {
                        assert(input[k] == ';');
                    }
                }
                return (Err(buf), (chars_added, chars_discarded));
            },
        }
    }
}

/// The text before the first `stop` (without spaces and tabs where `skip_blanks`),
/// and what follows that `stop`; `None` when there is no `stop`.
pub open spec fn sp_token(s: Seq<char>, stop: char, skip_blanks: bool) -> Option<(Seq<char>, Seq<char>)> {
    match first_index_of(s, stop) {
        Some(k) => Some((if skip_blanks { drop_blanks(s.take(k)) } else { s.take(k) }, s.skip(k + 1))),
        None => None,
    }
}

/// Reads up to the first `stop`, which is consumed, leaving out spaces and tabs
/// where `skip_blanks`; `None` when the stream ends first.
pub fn read_token(chars: &mut CharStream, stop: char, skip_blanks: bool) -> (r: Option<String>)
    ensures
        match sp_token(old(chars)@, stop, skip_blanks) {
            Some((t, rest)) => r matches Some(x) && x@ == t && final(chars)@ == rest,
            None => r is None,
        },
        final(chars)@.len() <= old(chars)@.len(),
        r is Some ==> final(chars)@.len() < old(chars)@.len(),
{
    let ghost input = chars@;
    proof { lemma_first_index_of(input, stop); }
    let mut buf = String::new();
    let ghost mut i: int = 0;
    loop
        invariant
            0 <= i <= input.len(),
            chars@ == input.skip(i),
            buf@ == (if skip_blanks { drop_blanks(input.take(i)) } else { input.take(i) }),
            input == old(chars)@,
            forall|j: int| 0 <= j < i ==> input[j] != stop,
        decreases input.len() - i,
    {
        let ghost before = chars@;
        match chars.next() {
            Some(c) => {
                assert(before[0] == input[i]);
                assert(input.take(i + 1).drop_last() =~= input.take(i));
                assert(input.take(i).push(c) =~= input.take(i + 1));
                assert(input.skip(i).drop_first() =~= input.skip(i + 1));
                if c == stop {
                    proof {
                        lemma_first_index_is(input, stop, i);
                        assert(chars@ == input.skip(i + 1));
                    }
                    return Some(buf);
                } else if skip_blanks && (c == ' ' || c == '\t') {
                } else {
                    buf.push(c);
                }
                proof { i = i + 1; }
            },
            None => {
                assert(input.skip(i).len() == 0);
                proof {
                    lemma_first_index_of(input, stop);
                    if let Some(k) = first_index_of(input, stop) {
                        assert(input[k] == stop);
                    }
                }
                return None;
            },
        }
    }
}

/// The text up to the first `;` without spaces and tabs, after `pre`, and what
/// follows the `;`; the end of the file where there is no `;`.
pub open spec fn sp_semicolon(pre: Seq<char>, s: Seq<char>) -> Result<(Seq<char>, Seq<char>), ParserErrorV> {
    match sp_token(s, ';', true) {
        Some((t, rest)) => Ok((pre + t, rest)),
        None => Err(ParserErrorV::UnexpectedEOF),
    }
}

/// `parse_vid_to_next_semicolon`, where reaching the end of the file is an error.
pub fn parse_vid_to_next_semicolon_errors(prepend: String, chars: &mut CharStream) -> (res: Result<String, ParserError>)
    requires
        old(chars)@.len() <= u32::MAX,
    ensures
        sp_semicolon(prepend@, old(chars)@) == match res {
            Ok(v) => Ok((v@, final(chars)@)),
            Err(e) => Err(e@),
        },
        res is Ok ==> final(chars)@.len() < old(chars)@.len(),
        res is Err ==> final(chars)@ == Seq::<char>::empty(),
        match first_index_of(old(chars)@, ';') {
            Some(k) => res matches Ok(t) && t@ == prepend@ + drop_blanks(old(chars)@.take(k))
                && final(chars)@ == old(chars)@.skip(k + 1),
            None => res matches Err(ParserError::UnexpectedEOF) && final(chars)@ == Seq::<char>::empty(),
        },
{
    let ghost input = chars@;
    let ghost pre = prepend@;
    if let Ok(text) = parse_vid_to_next_semicolon(prepend, chars).0 {
        proof {
            lemma_first_index_of(input, ';');
        }
        Ok(text)
    } else {
        Err(ParserError::UnexpectedEOF)
    }
}

/// An unsigned integer of at most `max`, written before the next `;`, and what
/// follows the `;`.
pub open spec fn sp_int(s: Seq<char>, max: int) -> Result<(int, Seq<char>), ParserErrorV> {
    match sp_semicolon(Seq::empty(), s) {
        Ok((t, rest)) => match decimal_value(t, max) {
            Ok(v) => Ok((v, rest)),
            Err(e) => Err(ParserErrorV::ParseIntError(t, e)),
        },
        Err(e) => Err(e),
    }
}

/// Parses an integer in the form "(int);"
pub fn parse_vid_int<T: DecimalTarget>(chars: &mut CharStream) -> (res: Result<T, ParserError>)
    requires
        old(chars)@.len() <= u32::MAX,
        0 <= T::max_value() <= u64::MAX,
    ensures
        sp_int(old(chars)@, T::max_value()) == match res {
            Ok(v) => Ok((v.to_int(), final(chars)@)),
            Err(e) => Err(e@),
        },
        res is Ok ==> final(chars)@.len() < old(chars)@.len(),
{
    let text = parse_vid_to_next_semicolon_errors(String::new(), chars)?;
    assert(Seq::<char>::empty() + text@ == text@);
    match parse_uint::<T>(text.as_str()) {
        Ok(v) => Ok(v),
        Err(err) => Err(ParserError::ParseIntError(text, err)),
    }
}

/// The number written before the next `;`, after `pre`, and what follows the `;`.
pub open spec fn sp_number(pre: Seq<char>, s: Seq<char>) -> Result<(Seq<char>, Seq<char>), ParserErrorV> {
    sp_semicolon(pre, s)
}

/// Reads a number written before the next `;`, after the characters `prepend`. Its
/// text is kept; it is read as a number where it is used.
pub fn parse_vid_f64_prepend(prepend: String, chars: &mut CharStream) -> (res: Result<Number, ParserError>)
    requires
        old(chars)@.len() <= u32::MAX,
    ensures
        sp_number(prepend@, old(chars)@) == match res {
            Ok(v) => Ok((v@, final(chars)@)),
            Err(e) => Err(e@),
        },
        res is Ok ==> final(chars)@.len() < old(chars)@.len(),
{
    let text = parse_vid_to_next_semicolon_errors(prepend, chars)?;
    Ok(Number::new(text))
}

/// Reads a number written before the next `;`.
pub fn parse_vid_f64(chars: &mut CharStream) -> (res: Result<Number, ParserError>)
    requires
        old(chars)@.len() <= u32::MAX,
    ensures
        sp_number(Seq::empty(), old(chars)@) == match res {
            Ok(v) => Ok((v@, final(chars)@)),
            Err(e) => Err(e@),
        },
        res is Ok ==> final(chars)@.len() < old(chars)@.len(),
{
    parse_vid_f64_prepend(String::new(), chars)
}

/// A string read from `s` onto `buf`, `backslash` saying whether the last character
/// was an unpaired backslash: up to `\!`, with `\\`, `\n` and `\t` standing for a
/// backslash, a newline and a tab, and a backslash before any other character kept.
pub open spec fn sp_string_from(s: Seq<char>, buf: Seq<char>, backslash: bool) -> Result<(Seq<char>, Seq<char>), ParserErrorV>
    decreases s.len(),
{
    if s.len() == 0 {
        Err(ParserErrorV::UnexpectedEOF)
    } else {
        let c = s[0];
        let r = s.drop_first();
        if !backslash {
            if c == '\\' {
                sp_string_from(r, buf, true)
            } else {
                sp_string_from(r, buf.push(c), false)
            }
        } else if c == 'n' {
            sp_string_from(r, buf.push('\n'), false)
        } else if c == '\\' {
            sp_string_from(r, buf.push('\\'), false)
        } else if c == 't' {
            sp_string_from(r, buf.push('\t'), false)
        } else if c == '!' {
            Ok((buf, r))
        } else {
            sp_string_from(r, buf.push('\\').push(c), false)
        }
    }
}

pub open spec fn sp_string(s: Seq<char>) -> Result<(Seq<char>, Seq<char>), ParserErrorV> {
    sp_string_from(s, Seq::empty(), false)
}

/// Reads all chars into a buffer, stopping at '\!', and interpreting '\\' as '\', '\n' as newline, etc. \x with an unknown x will be interpreted litterally, but this is unreliable, so please remember to replace all '\'s with '\\' when saving!
pub fn parse_string(chars: &mut CharStream) -> (res: Result<String, ParserError>)
    ensures
        sp_string(old(chars)@) == match res {
            Ok(v) => Ok((v@, final(chars)@)),
            Err(e) => Err(e@),
        },
        res is Ok ==> final(chars)@.len() < old(chars)@.len(),
{
    let mut buf = String::new();
    let mut backslash = false;
    loop
        invariant
            sp_string(old(chars)@) == sp_string_from(chars@, buf@, backslash),
            chars@.len() <= old(chars)@.len(),
            backslash ==> chars@.len() < old(chars)@.len(),
        decreases chars@.len(),
    {
        if let Some(ch) = chars.next() {
            if !backslash {
                if ch == '\\' {
                    backslash = true;
                } else {
                    buf.push(ch);
                }
            } else {
                if ch == 'n' {
                    buf.push('\n');
                } else if ch == '\\' {
                    buf.push('\\');
                } else if ch == 't' {
                    buf.push('\t');
                } else if ch == '!' {
                    return Ok(buf);
                } else {
                    buf.push('\\');
                    buf.push(ch);
                }
                backslash = false;
            }
        } else {
            return Err(ParserError::UnexpectedEOF);
        }
    }
}

/// `t` as it is written into a project file so that `parse_string` reads it back:
/// each backslash doubled, newlines and tabs as `\n` and `\t`.
pub open spec fn escaped(t: Seq<char>) -> Seq<char>
    decreases t.len(),
{
    if t.len() == 0 {
        Seq::empty()
    } else {
        let c = t[0];
        (if c == '\\' {
            seq!['\\', '\\']
        } else if c == '\n' {
            seq!['\\', 'n']
        } else if c == '\t' {
            seq!['\\', 't']
        } else {
            seq![c]
        }) + escaped(t.drop_first())
    }
}

proof fn lemma_string_escaped_from(t: Seq<char>, buf: Seq<char>, rest: Seq<char>)
    ensures
        sp_string_from(escaped(t) + seq!['\\', '!'] + rest, buf, false) == Ok::<(Seq<char>, Seq<char>), ParserErrorV>((buf + t, rest)),
    decreases t.len(),
{
    let end = seq!['\\', '!'] + rest;
    let x = escaped(t) + seq!['\\', '!'] + rest;
    if t.len() == 0 {
        assert(x =~= end);
        assert(end.drop_first().drop_first() =~= rest);
        assert(sp_string_from(x, buf, false) == sp_string_from(x.drop_first(), buf, true));
        assert(buf + t =~= buf);
    } else {
        let c = t[0];
        let tail = escaped(t.drop_first()) + seq!['\\', '!'] + rest;
        lemma_string_escaped_from(t.drop_first(), buf.push(c), rest);
        assert(buf.push(c) + t.drop_first() =~= buf + t);
        if c == '\\' || c == '\n' || c == '\t' {
            let e = if c == '\\' { '\\' } else if c == '\n' { 'n' } else { 't' };
            assert(x =~= seq!['\\', e] + tail);
            assert(x.drop_first().drop_first() =~= tail);
            assert(x[0] == '\\');
            assert(x.drop_first()[0] == e);
            assert(sp_string_from(x, buf, false) == sp_string_from(x.drop_first(), buf, true));
            assert(sp_string_from(x.drop_first(), buf, true) == sp_string_from(tail, buf.push(c), false));
        } else {
            assert(x =~= seq![c] + tail);
            assert(x.drop_first() =~= tail);
            assert(sp_string_from(x, buf, false) == sp_string_from(tail, buf.push(c), false));
        }
    }
}

/// A text written escaped and followed by `\!` reads back as itself, and the
/// reading stops right after the `\!`.
pub proof fn lemma_parse_string_escaped(t: Seq<char>, rest: Seq<char>)
    ensures
        sp_string(escaped(t) + seq!['\\', '!'] + rest) == Ok::<(Seq<char>, Seq<char>), ParserErrorV>((t, rest)),
{
    lemma_string_escaped_from(t, Seq::empty(), rest);
    assert(Seq::<char>::empty() + t =~= t);
}

/// A path read from `s`: components separated by `/` are added onto `path` (the
/// one being read is `cur`), and a `\` ends it.
pub open spec fn sp_path_from(s: Seq<char>, path: Seq<char>, cur: Seq<char>) -> Result<(Seq<char>, Seq<char>), ParserErrorV>
    decreases s.len(),
{
    if s.len() == 0 {
        Err(ParserErrorV::UnexpectedEOF)
    } else {
        let c = s[0];
        let r = s.drop_first();
        if c == '/' {
            sp_path_from(r, pushed(path, cur), Seq::empty())
        } else if c == '\\' {
            Ok((if cur.len() != 0 { pushed(path, cur) } else { path }, r))
        } else {
            sp_path_from(r, path, cur.push(c))
        }
    }
}

/// The path written in `s` up to a `\`, starting from the root `/`.
pub open spec fn sp_path(s: Seq<char>) -> Result<(Seq<char>, Seq<char>), ParserErrorV> {
    sp_path_from(s, seq!['/'], Seq::empty())
}

/// Reads a path: components separated by `/`, ended by `\`, below the root.
pub fn parse_path(chars: &mut CharStream) -> (res: Result<String, ParserError>)
    ensures
        sp_path(old(chars)@) == match res {
            Ok(v) => Ok((v@, final(chars)@)),
            Err(e) => Err(e@),
        },
        res is Ok ==> final(chars)@.len() < old(chars)@.len(),
{
    let mut path = String::new();
    path.push('/');
    assert(path@ =~= seq!['/']);
    let mut path_current = String::new();
    loop
        invariant
            sp_path(old(chars)@) == sp_path_from(chars@, path@, path_current@),
            chars@.len() <= old(chars)@.len(),
        decreases chars@.len(),
    {
        match chars.next() {
            Some('/') => {
                push_path(&mut path, path_current.as_str());
                path_current = String::new();
            },
            Some('\\') => {
                if !path_current.as_str().is_empty() {
                    push_path(&mut path, path_current.as_str());
                }
                return Ok(path);
            },
            Some(ch) => path_current.push(ch),
            None => return Err(ParserError::UnexpectedEOF),
        }
    }
}

/// The characters that start a number.
pub open spec fn is_number_start(c: char) -> bool {
    c == '-' || c == '.' || ('0' <= c && c <= '9')
}

/// A curve that always has the value written as `text`.
pub open spec fn constant_curve(text: Seq<char>) -> CurveV {
    CurveV::Owned(CurveDataV::Constant(text))
}

/// A curve that asks the program at `path` for its value.
pub open spec fn program_curve(path: Seq<char>) -> CurveV {
    CurveV::Owned(CurveDataV::Program(
        ExternalProgramV { path, args: Seq::empty(), mode: ExternalProgramMode::RunOnceArg },
        CurveExternalProgramMode::String,
    ))
}

/// The curve written at the start of `s` (after spaces and tabs), and what follows
/// it: a number up to `;`; `/` or `s` followed by two curves (linear or smooth
/// from the first to the second); `#` followed by the parts of a chain; `!`
/// followed by the path of a program.
pub open spec fn sp_curve(s: Seq<char>) -> Result<(CurveV, Seq<char>), ParserErrorV>
    decreases s.len(), 1nat,
{
    if s.len() == 0 {
        Err(ParserErrorV::UnexpectedEOF)
    } else {
        let c = s[0];
        let r = s.drop_first();
        if c == ' ' || c == '\t' {
            sp_curve(r)
        } else if is_number_start(c) {
            match sp_number(seq![c], r) {
                Ok((t, r2)) => Ok((constant_curve(t), r2)),
                Err(e) => Err(e),
            }
        } else if c == '/' || c == 's' {
            match sp_curve(r) {
                Ok((a, r2)) => if r2.len() < r.len() {
                    match sp_curve(r2) {
                        Ok((b, r3)) => Ok((
                            CurveV::Owned(
                                if c == '/' {
                                    CurveDataV::Linear(Box::new(a), Box::new(b))
                                } else {
                                    CurveDataV::SmoothFlat(Box::new(a), Box::new(b))
                                },
                            ),
                            r3,
                        )),
                        Err(e) => Err(e),
                    }
                } else {
                    Err(ParserErrorV::UnexpectedEOF)
                },
                Err(e) => Err(e),
            }
        } else if c == '#' {
            sp_chain(r, Seq::empty())
        } else if c == '!' {
            match sp_path(r) {
                Ok((p, r2)) => Ok((program_curve(p), r2)),
                Err(e) => Err(e),
            }
        } else {
            Err(ParserErrorV::InvalidCurveIdentifier(c))
        }
    }
}

/// The parts of a chain read from `s` after the parts `acc`: each part is `+`, the
/// number where it starts and its curve; any other character ends the chain.
pub open spec fn sp_chain(s: Seq<char>, acc: Seq<(CurveV, Seq<char>)>) -> Result<(CurveV, Seq<char>), ParserErrorV>
    decreases s.len(), 0nat,
{
    if s.len() == 0 {
        Err(ParserErrorV::UnexpectedEOF)
    } else if s[0] == '+' {
        match sp_number(Seq::empty(), s.drop_first()) {
            Ok((f, r1)) => if r1.len() < s.len() {
                match sp_curve(r1) {
                    Ok((cv, r2)) => if r2.len() < s.len() {
                        sp_chain(r2, acc.push((cv, f)))
                    } else {
                        Err(ParserErrorV::UnexpectedEOF)
                    },
                    Err(e) => Err(e),
                }
            } else {
                Err(ParserErrorV::UnexpectedEOF)
            },
            Err(e) => Err(e),
        }
    } else {
        Ok((CurveV::Owned(CurveDataV::Chain(acc)), s.drop_first()))
    }
}

/// The views of the parts of a chain.
pub open spec fn chain_view(v: Seq<(Curve, Number)>) -> Seq<(CurveV, Seq<char>)> {
    Seq::new(v.len(), |i: int| (v[i].0@, v[i].1@))
}

/// Reads a curve (see `sp_curve`).
pub fn parse_vid_curve(chars: &mut CharStream) -> (res: Result<Curve, ParserError>)
    requires
        old(chars)@.len() <= u32::MAX,
    ensures
        sp_curve(old(chars)@) == match res {
            Ok(v) => Ok((v@, final(chars)@)),
            Err(e) => Err(e@),
        },
        res is Ok ==> final(chars)@.len() < old(chars)@.len(),
    decreases old(chars)@.len(), 1nat,
{
    loop
        invariant
            sp_curve(old(chars)@) == sp_curve(chars@),
            chars@.len() <= old(chars)@.len(),
            old(chars)@.len() <= u32::MAX,
        decreases chars@.len(),
    {
        let ghost s = chars@;
        match chars.next() {
            Some(c) => {
                if c == ' ' || c == '\t' {
                    continue;
                }
                if c == '-' || c == '.' || ('0' <= c && c <= '9') {
                    let mut pre = String::new();
                    pre.push(c);
                    assert(pre@ =~= seq![c]);
                    let n = parse_vid_f64_prepend(pre, chars)?;
                    return Ok(Curve::owned(CurveData::Constant(n)));
                }
                if c == '/' || c == 's' {
                    let a = parse_vid_curve(chars)?;
                    let b = parse_vid_curve(chars)?;
                    if c == '/' {
                        return Ok(Curve::owned(CurveData::Linear(a, b)));
                    } else {
                        return Ok(Curve::owned(CurveData::SmoothFlat(a, b)));
                    }
                }
                if c == '#' {
                    return parse_vid_chain(chars);
                }
                if c == '!' {
                    let path = parse_path(chars)?;
                    let p = ExternalProgram::new(path, ExternalProgramMode::RunOnceArg);
                    return Ok(Curve::owned(CurveData::Program(p, CurveExternalProgramMode::String)));
                }
                return Err(ParserError::InvalidCurveIdentifier(c));
            },
            None => return Err(ParserError::UnexpectedEOF),
        }
    }
}

/// Reads the parts of a chain, after its `#` (see `sp_chain`).
fn parse_vid_chain(chars: &mut CharStream) -> (res: Result<Curve, ParserError>)
    requires
        old(chars)@.len() <= u32::MAX,
    ensures
        sp_chain(old(chars)@, Seq::empty()) == match res {
            Ok(v) => Ok((v@, final(chars)@)),
            Err(e) => Err(e@),
        },
        res is Ok ==> final(chars)@.len() < old(chars)@.len(),
    decreases old(chars)@.len(), 0nat,
{
    let mut vec: Vec<(Curve, Number)> = Vec::new();
    assert(chain_view(vec@) =~= Seq::<(CurveV, Seq<char>)>::empty());
    loop
        invariant
            sp_chain(old(chars)@, Seq::empty()) == sp_chain(chars@, chain_view(vec@)),
            chars@.len() <= old(chars)@.len(),
            old(chars)@.len() <= u32::MAX,
        decreases chars@.len(),
    {
        let ghost s = chars@;
        match chars.next() {
            Some('+') => {
                let f = parse_vid_f64(chars)?;
                let c = parse_vid_curve(chars)?;
                let ghost acc = chain_view(vec@);
                let ghost item = (c@, f@);
                vec.push((c, f));
                assert(chain_view(vec@) =~= acc.push(item));
            },
            None => return Err(ParserError::UnexpectedEOF),
            Some(_) => {
                let ghost acc = chain_view(vec@);
                let r = Curve::owned(CurveData::Chain(vec));
                assert(r@ == CurveV::Owned(CurveDataV::Chain(acc))) by {
                    let d = CurveData::Chain(vec);
                    assert(crate::curve::curve_data_view(&d)->Chain_0 =~= acc);
                }
                return Ok(r);
            },
        }
    }
}

/// The color written at the start of `s`: `r` and four curves (red, green, blue,
/// alpha).
pub open spec fn sp_color(s: Seq<char>) -> Result<(ColorV, Seq<char>), ParserErrorV> {
    if s.len() == 0 {
        Err(ParserErrorV::UnexpectedEOF)
    } else if s[0] != 'r' {
        Err(ParserErrorV::Todo)
    } else {
        match sp_curve(s.drop_first()) {
            Err(e) => Err(e),
            Ok((r, s1)) => match sp_curve(s1) {
                Err(e) => Err(e),
                Ok((g, s2)) => match sp_curve(s2) {
                    Err(e) => Err(e),
                    Ok((b, s3)) => match sp_curve(s3) {
                        Err(e) => Err(e),
                        Ok((a, s4)) => Ok((ColorV::RGBA(r, g, b, a), s4)),
                    },
                },
            },
        }
    }
}

impl Color {
    /// Reads a color (see `sp_color`).
    pub fn parse(chars: &mut CharStream) -> (res: Result<Color, ParserError>)
        requires
            old(chars)@.len() <= u32::MAX,
        ensures
            sp_color(old(chars)@) == match res {
                Ok(v) => Ok((v@, final(chars)@)),
                Err(e) => Err(e@),
            },
            res is Ok ==> final(chars)@.len() < old(chars)@.len(),
    {
        match chars.next() {
            Some('r') => {
                let r = parse_vid_curve(chars)?;
                let g = parse_vid_curve(chars)?;
                let b = parse_vid_curve(chars)?;
                let a = parse_vid_curve(chars)?;
                Ok(Color::RGBA(r, g, b, a))
            },
            Some(_) => Err(ParserError::Todo),
            None => Err(ParserError::UnexpectedEOF),
        }
    }
}

// ------------------------------------------------------------------ videos

/// A video's settings read so far.
pub struct VidFieldsV {
    pub pos: Option<Pos<CurveV, CurveV>>,
    pub start: Option<Seq<char>>,
    pub length: Option<Seq<char>>,
    pub video: Option<VideoTypeV>,
    pub compositing: Option<CompositingMethodV>,
}

pub open spec fn no_fields() -> VidFieldsV {
    VidFieldsV { pos: None, start: None, length: None, video: None, compositing: None }
}

/// The position a video gets when the file gives none: the whole parent, from its
/// top left corner.
pub open spec fn default_file_pos() -> Pos<CurveV, CurveV> {
    Pos {
        x: constant_curve("0.0"@),
        y: constant_curve("0.0"@),
        w: constant_curve("1.0"@),
        h: constant_curve("1.0"@),
        align: PosAlign::TopLeft,
    }
}

/// The video made of the settings `f`; it must have been given what it shows.
pub open spec fn vid_of_fields(f: VidFieldsV) -> Result<VideoV, ParserErrorV> {
    match f.video {
        None => Err(ParserErrorV::MissingVideoInfoKey("video"@)),
        Some(t) => Ok(VideoV {
            pos: match f.pos {
                Some(p) => p,
                None => default_file_pos(),
            },
            start: match f.start {
                Some(x) => x,
                None => "0.0"@,
            },
            length: match f.length {
                Some(x) => x,
                None => "1.0"@,
            },
            video: t,
            compositing: f.compositing,
            data: t.data,
            changes: no_changes(),
        }),
    }
}

/// The alignment named by `c` (other than a custom one).
pub open spec fn fixed_align(c: char) -> Option<PosAlign<CurveV>> {
    if c == '^' {
        Some(PosAlign::Top)
    } else if c == 'v' {
        Some(PosAlign::Bottom)
    } else if c == '<' {
        Some(PosAlign::Left)
    } else if c == '>' {
        Some(PosAlign::Right)
    } else if c == '+' {
        Some(PosAlign::Center)
    } else if c == '1' {
        Some(PosAlign::TopLeft)
    } else if c == '2' {
        Some(PosAlign::TopRight)
    } else if c == '3' {
        Some(PosAlign::BottomLeft)
    } else if c == '4' {
        Some(PosAlign::BottomRight)
    } else {
        None
    }
}

/// Four curves read one after another from `s`.
pub open spec fn sp_four_curves(s: Seq<char>) -> Result<((CurveV, CurveV, CurveV, CurveV), Seq<char>), ParserErrorV> {
    match sp_curve(s) {
        Err(e) => Err(e),
        Ok((a, s1)) => match sp_curve(s1) {
            Err(e) => Err(e),
            Ok((b, s2)) => match sp_curve(s2) {
                Err(e) => Err(e),
                Ok((c, s3)) => match sp_curve(s3) {
                    Err(e) => Err(e),
                    Ok((d, s4)) => Ok(((a, b, c, d), s4)),
                },
            },
        },
    }
}

/// A position: its alignment (one character, `!` followed by two curves for a custom
/// one), then the curves x, y, width and height.
pub open spec fn sp_pos(s: Seq<char>) -> Result<(Pos<CurveV, CurveV>, Seq<char>), ParserErrorV> {
    if s.len() == 0 {
        Err(ParserErrorV::UnexpectedEOF)
    } else {
        let c = s[0];
        let r = s.drop_first();
        let aligned: Result<(PosAlign<CurveV>, Seq<char>), ParserErrorV> = if c == '!' {
            match sp_curve(r) {
                Err(e) => Err(e),
                Ok((a, r1)) => match sp_curve(r1) {
                    Err(e) => Err(e),
                    Ok((b, r2)) => Ok((PosAlign::Custom(a, b), r2)),
                },
            }
        } else {
            match fixed_align(c) {
                Some(a) => Ok((a, r)),
                None => Err(ParserErrorV::InvalidPosAlignment(c)),
            }
        };
        match aligned {
            Err(e) => Err(e),
            Ok((align, r1)) => match sp_four_curves(r1) {
                Err(e) => Err(e),
                Ok(((x, y, w, h), r2)) => Ok((Pos { x, y, w, h, align }, r2)),
            },
        }
    }
}

/// The compositing method named by `c`.
pub open spec fn compositing_of(c: char) -> Option<CompositingMethodV> {
    if c == '_' {
        Some(CompositingMethodV::Ignore)
    } else if c == '=' {
        Some(CompositingMethodV::Opaque)
    } else if c == '|' {
        Some(CompositingMethodV::Direct)
    } else if c == '*' {
        Some(CompositingMethodV::TransparencySupport)
    } else {
        None
    }
}

/// The first frame, the second number and whether it counts from the end, read
/// from `s` up to `;`: digits go to the first number until a `-` or `+`, and to the
/// second after it; later signs are dropped.
pub open spec fn sp_crop(s: Seq<char>, first: Seq<char>, second: Seq<char>, rev: Option<bool>) -> Result<((u32, u32, bool), Seq<char>), ParserErrorV>
    decreases s.len(),
{
    if s.len() == 0 {
        Err(ParserErrorV::UnexpectedEOF)
    } else {
        let c = s[0];
        let r = s.drop_first();
        if c == '-' {
            sp_crop(r, first, second, if rev is None { Some(false) } else { rev })
        } else if c == '+' {
            sp_crop(r, first, second, if rev is None { Some(true) } else { rev })
        } else if c == ';' {
            match rev {
                None => Err(ParserErrorV::VideoFileFailedToParseStartOrEndFrame(
                    "the two numbers were not separated by a + or - symbol. (';' too early)"@,
                )),
                Some(rv) => match decimal_value(first, u32::MAX as int) {
                    Err(e) => Err(ParserErrorV::ParseIntError(first, e)),
                    Ok(f1) => match decimal_value(second, u32::MAX as int) {
                        Err(e) => Err(ParserErrorV::ParseIntError(second, e)),
                        Ok(f2) => Ok(((f1 as u32, f2 as u32, rv), r)),
                    },
                },
            }
        } else if rev is None {
            sp_crop(r, first.push(c), second, rev)
        } else {
            sp_crop(r, first, second.push(c), rev)
        }
    }
}

/// The effect named `name`, read with its settings from `s`.
pub open spec fn sp_effect(name: Seq<char>, s: Seq<char>) -> Result<(EffectV, Seq<char>), ParserErrorV> {
    if name == "None"@ {
        Ok((EffectV::Nothing, s))
    } else if name == "BlackWhite"@ {
        Ok((EffectV::BlackWhite, s))
    } else if name == "Shake"@ {
        match sp_number(Seq::empty(), s) {
            Err(e) => Err(e),
            Ok((a, s1)) => match sp_number(Seq::empty(), s1) {
                Err(e) => Err(e),
                Ok((b, s2)) => match sp_number(Seq::empty(), s2) {
                    Err(e) => Err(e),
                    Ok((c, s3)) => match sp_number(Seq::empty(), s3) {
                        Err(e) => Err(e),
                        Ok((d, s4)) => Ok((EffectV::Shake(a, b, c, d), s4)),
                    },
                },
            },
        }
    } else if name == "ChangeTime"@ {
        match sp_curve(s) {
            Err(e) => Err(e),
            Ok((c, s1)) => Ok((EffectV::ChangeTime(c), s1)),
        }
    } else if name == "Blur"@ {
        match sp_token(s, ':', false) {
            None => Err(ParserErrorV::UnexpectedEOF),
            Some((id, s1)) => if id == "Square"@ {
                match sp_curve(s1) {
                    Err(e) => Err(e),
                    Ok((c, s2)) => Ok((EffectV::BlurSquare(c), s2)),
                }
            } else if id == "Downscale"@ {
                match sp_curve(s1) {
                    Err(e) => Err(e),
                    Ok((w, s2)) => match sp_curve(s2) {
                        Err(e) => Err(e),
                        Ok((h, s3)) => Ok((EffectV::BlurDownscale(w, h), s3)),
                    },
                }
            } else {
                Err(ParserErrorV::EffectParseError {
                    effect_identifier: name,
                    custom_error: "Blur mode '"@ + id + "' does not exist! Try Square (Curve) or Downscale (Curve + Curve)"@,
                })
            },
        }
    } else if name == "ColorAdjust"@ {
        match sp_token(s, ':', false) {
            None => Err(ParserErrorV::UnexpectedEOF),
            Some((id, s1)) => if id == "rgba"@ {
                match sp_four_curves(s1) {
                    Err(e) => Err(e),
                    Ok(((r, g, b, a), s2)) => Ok((EffectV::ColorAdjust(r, g, b, a), s2)),
                }
            } else {
                Err(ParserErrorV::EffectParseError {
                    effect_identifier: name,
                    custom_error: "'"@ + id + "' is not a valid ColorAdjustMode. Try rgba:RGBA where R,G,B,A are Curve."@,
                })
            },
        }
    } else if name == "ColorKey"@ {
        match sp_token(s, ':', false) {
            None => Err(ParserErrorV::UnexpectedEOF),
            Some((id, s1)) => if id == "rgb_eq"@ {
                match sp_bytes(s1, 3) {
                    Err(e) => Err(e),
                    Ok((v, s2)) => Ok((EffectV::ColorKey(ColorKey_Mode::TransparentIfMatches((v[0], v[1], v[2]))), s2)),
                }
            } else if id == "rgb_rng"@ {
                match sp_bytes(s1, 6) {
                    Err(e) => Err(e),
                    Ok((v, s2)) => Ok((
                        EffectV::ColorKey(ColorKey_Mode::TransparentIfRange(((v[0], v[1]), (v[2], v[3]), (v[4], v[5])))),
                        s2,
                    )),
                }
            } else {
                Err(ParserErrorV::EffectParseError {
                    effect_identifier: name,
                    custom_error: "'"@ + id
                        + "' is not a valid ColorKeyMode. Try rgb_eq:R;G;B where R,G,B are int-u8, or rgb_rng:R1;R2;G1;G2;B1;B2 where R1,R2,G1,G2,B1,B2 are int-u8."@,
                })
            },
        }
    } else {
        Err(ParserErrorV::UnknownEffect(name))
    }
}

/// `n` bytes, each written before a `;`, read one after another from `s`.
pub open spec fn sp_bytes(s: Seq<char>, n: nat) -> Result<(Seq<u8>, Seq<char>), ParserErrorV>
    decreases n,
{
    if n == 0 {
        Ok((Seq::empty(), s))
    } else {
        match sp_bytes(s, (n - 1) as nat) {
            Err(e) => Err(e),
            Ok((v, s1)) => match sp_int(s1, u8::MAX as int) {
                Err(e) => Err(e),
                Ok((b, s2)) => Ok((v.push(b as u8), s2)),
            },
        }
    }
}

/// The text's source after its font and color: `s` and a string for a fixed text, or
/// `!`, any one character and the path of a program.
pub open spec fn sp_text_type(s: Seq<char>) -> Result<(TextTypeV, Seq<char>), ParserErrorV> {
    if s.len() == 0 {
        Err(ParserErrorV::UnexpectedEOF)
    } else if s[0] == 's' {
        match sp_string(s.drop_first()) {
            Err(e) => Err(e),
            Ok((t, r)) => Ok((TextTypeV::Static(t), r)),
        }
    } else if s[0] == '!' {
        let r = s.drop_first();
        if r.len() == 0 {
            Err(ParserErrorV::UnexpectedEOF)
        } else {
            match sp_path(r.drop_first()) {
                Err(e) => Err(e),
                Ok((p, r2)) => Ok((
                    TextTypeV::Program(ExternalProgramV { path: p, args: Seq::empty(), mode: ExternalProgramMode::RunOnceArg }),
                    r2,
                )),
            }
        }
    } else {
        Err(ParserErrorV::InvalidTextType(s[0]))
    }
}

/// A text: the path of its font file, the font's index in it, its color and its
/// source. The font is read from the file by whoever reads files.
pub open spec fn sp_text(s: Seq<char>) -> Result<(TextV, Seq<char>), ParserErrorV> {
    match sp_path(s) {
        Err(e) => Err(e),
        Ok((font_path, s1)) => match sp_int(s1, u32::MAX as int) {
            Err(e) => Err(e),
            Ok((index, s2)) => match sp_color(s2) {
                Err(e) => Err(e),
                Ok((color, s3)) => match sp_text_type(s3) {
                    Err(e) => Err(e),
                    Ok((t, s4)) => Ok((
                        TextV { color, font_file: Some((font_path, index as u32)), ..new_text(t, unselected()) },
                        s4,
                    )),
                },
            },
        },
    }
}

/// Content that the file describes by a path (or a path and a crop).
pub open spec fn sp_leaf_video(id: Seq<char>, s: Seq<char>) -> Result<(VideoTypeEnumV, Seq<char>), ParserErrorV> {
    if id == "Text"@ {
        match sp_text(s) {
            Err(e) => Err(e),
            Ok((t, r)) => Ok((VideoTypeEnumV::Text(t), r)),
        }
    } else if id == "Image"@ {
        match sp_path(s) {
            Err(e) => Err(e),
            Ok((p, r)) => Ok((VideoTypeEnumV::Image(new_image(p)), r)),
        }
    } else if id == "VidFromImagesInDirectory"@ {
        match sp_path(s) {
            Err(e) => Err(e),
            Ok((dir, r)) => match sp_crop(r, Seq::empty(), Seq::empty(), None) {
                Err(e) => Err(e),
                Ok((crop, r2)) => Ok((
                    VideoTypeEnumV::Raw(InputVideoV { images_directory: dir, crop, offsets: Seq::empty(), frames: Seq::empty() }),
                    r2,
                )),
            },
        }
    } else if id == "VidUsingFfmpeg"@ {
        match sp_path(s) {
            Err(e) => Err(e),
            Ok((p, r)) => Ok((VideoTypeEnumV::Ffmpeg(FfmpegVidV { path: p, data: unselected(), changed_path: None }), r)),
        }
    } else {
        Err(ParserErrorV::InvalidVideoType(id))
    }
}

/// A video: settings `key:value` one after another, up to an empty key (a lone `:`).
pub open spec fn sp_vid(s: Seq<char>) -> Result<(VideoV, Seq<char>), ParserErrorV>
    decreases s.len(), 5nat,
{
    sp_vid_fields(s, no_fields())
}

/// The rest of a video's settings, after those read into `f`.
pub open spec fn sp_vid_fields(s: Seq<char>, f: VidFieldsV) -> Result<(VideoV, Seq<char>), ParserErrorV>
    decreases s.len(), 4nat,
{
    match sp_token(s, ':', false) {
        None => Err(ParserErrorV::UnexpectedEOF),
        Some((key, r)) => if r.len() >= s.len() {
            Err(ParserErrorV::UnexpectedEOF)
        } else if key.len() == 0 {
            match vid_of_fields(f) {
                Ok(v) => Ok((v, r)),
                Err(e) => Err(e),
            }
        } else if key == "pos"@ {
            match sp_pos(r) {
                Err(e) => Err(e),
                Ok((p, r2)) => if r2.len() < s.len() {
                    sp_vid_fields(r2, VidFieldsV { pos: Some(p), ..f })
                } else {
                    Err(ParserErrorV::UnexpectedEOF)
                },
            }
        } else if key == "start"@ || key == "length"@ {
            match sp_number(Seq::empty(), r) {
                Err(e) => Err(e),
                Ok((n, r2)) => if r2.len() < s.len() {
                    sp_vid_fields(
                        r2,
                        if key == "start"@ { VidFieldsV { start: Some(n), ..f } } else { VidFieldsV { length: Some(n), ..f } },
                    )
                } else {
                    Err(ParserErrorV::UnexpectedEOF)
                },
            }
        } else if key == "video"@ {
            match sp_video(r) {
                Err(e) => Err(e),
                Ok((t, r2)) => if r2.len() < s.len() {
                    sp_vid_fields(r2, VidFieldsV { video: Some(t), ..f })
                } else {
                    Err(ParserErrorV::UnexpectedEOF)
                },
            }
        } else if key == "compositing"@ {
            if r.len() == 0 {
                Err(ParserErrorV::UnexpectedEOF)
            } else {
                match compositing_of(r[0]) {
                    None => Err(ParserErrorV::InvalidCompositingMode(r[0])),
                    Some(c) => sp_vid_fields(r.drop_first(), VidFieldsV { compositing: Some(c), ..f }),
                }
            }
        } else {
            Err(ParserErrorV::InvalidVideoInfoKey(key))
        },
    }
}

/// The videos of a list, each after a `+`; any other character ends the list.
pub open spec fn sp_vids(s: Seq<char>, acc: Seq<VideoV>) -> Result<(Seq<VideoV>, Seq<char>), ParserErrorV>
    decreases s.len(), 3nat,
{
    if s.len() == 0 {
        Err(ParserErrorV::UnexpectedEOF)
    } else if s[0] == '+' {
        match sp_vid(s.drop_first()) {
            Err(e) => Err(e),
            Ok((v, r)) => if r.len() < s.len() {
                sp_vids(r, acc.push(v))
            } else {
                Err(ParserErrorV::UnexpectedEOF)
            },
        }
    } else {
        Ok((acc, s.drop_first()))
    }
}

/// What a video shows: the kind's name up to `:` (spaces and tabs left out), then
/// what that kind needs.
pub open spec fn sp_video(s: Seq<char>) -> Result<(VideoTypeV, Seq<char>), ParserErrorV>
    decreases s.len(), 2nat,
{
    match sp_token(s, ':', true) {
        None => Err(ParserErrorV::UnexpectedEOF),
        Some((id, r)) => if r.len() >= s.len() {
            Err(ParserErrorV::UnexpectedEOF)
        } else {
            let vt: Result<(VideoTypeEnumV, Seq<char>), ParserErrorV> = if id == "List"@ {
                match sp_vids(r, Seq::empty()) {
                    Err(e) => Err(e),
                    Ok((vs, r2)) => Ok((VideoTypeEnumV::List(vs), r2)),
                }
            } else if id == "AspectRatio"@ {
                match sp_curve(r) {
                    Err(e) => Err(e),
                    Ok((w, r1)) => match sp_curve(r1) {
                        Err(e) => Err(e),
                        Ok((h, r2)) => if r2.len() < s.len() {
                            match sp_vid(r2) {
                                Err(e) => Err(e),
                                Ok((v, r3)) => Ok((VideoTypeEnumV::AspectRatio(Box::new(v), w, h), r3)),
                            }
                        } else {
                            Err(ParserErrorV::UnexpectedEOF)
                        },
                    },
                }
            } else if id == "WithEffect"@ {
                match sp_vid(r) {
                    Err(e) => Err(e),
                    Ok((v, r1)) => match sp_token(r1, ':', false) {
                        None => Err(ParserErrorV::UnexpectedEOF),
                        Some((name, r2)) => match sp_effect(name, r2) {
                            Err(e) => Err(e),
                            Ok((e, r3)) => Ok((VideoTypeEnumV::WithEffect(Box::new(v), e), r3)),
                        },
                    },
                }
            } else {
                sp_leaf_video(id, r)
            };
            match vt {
                Err(e) => Err(e),
                Ok((vt, r2)) => Ok((VideoTypeV { vt, data: unselected() }, r2)),
            }
        },
    }
}

/// The view of a video's settings read so far.
pub open spec fn fields_view(
    pos: &Option<Pos<Curve, Curve>>,
    start: &Option<Number>,
    length: &Option<Number>,
    video: &Option<VideoType>,
    compositing: &Option<CompositingMethod>,
) -> VidFieldsV {
    VidFieldsV {
        pos: match pos {
            Some(p) => Some(pos_view(p)),
            None => None,
        },
        start: match start {
            Some(n) => Some(n@),
            None => None,
        },
        length: match length {
            Some(n) => Some(n@),
            None => None,
        },
        video: match video {
            Some(t) => Some(t@),
            None => None,
        },
        compositing: match compositing {
            Some(c) => Some(c@),
            None => None,
        },
    }
}

/// Reads four curves one after another.
fn parse_four_curves(chars: &mut CharStream) -> (res: Result<(Curve, Curve, Curve, Curve), ParserError>)
    requires
        old(chars)@.len() <= u32::MAX,
    ensures
        sp_four_curves(old(chars)@) == match res {
            Ok((a, b, c, d)) => Ok(((a@, b@, c@, d@), final(chars)@)),
            Err(e) => Err(e@),
        },
        res is Ok ==> final(chars)@.len() < old(chars)@.len(),
{
    let a = parse_vid_curve(chars)?;
    let b = parse_vid_curve(chars)?;
    let c = parse_vid_curve(chars)?;
    let d = parse_vid_curve(chars)?;
    Ok((a, b, c, d))
}

/// Reads a position (see `sp_pos`).
fn parse_pos(chars: &mut CharStream) -> (res: Result<Pos<Curve, Curve>, ParserError>)
    requires
        old(chars)@.len() <= u32::MAX,
    ensures
        sp_pos(old(chars)@) == match res {
            Ok(p) => Ok((pos_view(&p), final(chars)@)),
            Err(e) => Err(e@),
        },
        res is Ok ==> final(chars)@.len() < old(chars)@.len(),
{
    let align = match chars.next() {
        None => return Err(ParserError::UnexpectedEOF),
        Some('^') => PosAlign::Top,
        Some('v') => PosAlign::Bottom,
        Some('<') => PosAlign::Left,
        Some('>') => PosAlign::Right,
        Some('+') => PosAlign::Center,
        Some('1') => PosAlign::TopLeft,
        Some('2') => PosAlign::TopRight,
        Some('3') => PosAlign::BottomLeft,
        Some('4') => PosAlign::BottomRight,
        Some('!') => {
            let a = parse_vid_curve(chars)?;
            let b = parse_vid_curve(chars)?;
            PosAlign::Custom(a, b)
        },
        Some(c) => return Err(ParserError::InvalidPosAlignment(c)),
    };
    let (x, y, w, h) = parse_four_curves(chars)?;
    Ok(Pos { x, y, w, h, align })
}

/// Reads the first and last frame of a directory of frames (see `sp_crop`).
fn parse_crop(chars: &mut CharStream) -> (res: Result<(u32, u32, bool), ParserError>)
    ensures
        sp_crop(old(chars)@, Seq::empty(), Seq::empty(), None) == match res {
            Ok(c) => Ok((c, final(chars)@)),
            Err(e) => Err(e@),
        },
        res is Ok ==> final(chars)@.len() < old(chars)@.len(),
{
    let mut first = String::new();
    let mut second = String::new();
    let mut rev: Option<bool> = None;
    loop
        invariant
            sp_crop(old(chars)@, Seq::empty(), Seq::empty(), None) == sp_crop(chars@, first@, second@, rev),
            chars@.len() <= old(chars)@.len(),
        decreases chars@.len(),
    {
        match chars.next() {
            Some('-') => {
                if rev.is_none() {
                    rev = Some(false);
                }
            },
            Some('+') => {
                if rev.is_none() {
                    rev = Some(true);
                }
            },
            Some(';') => {
                match rev {
                    None => {
                        return Err(ParserError::VideoFileFailedToParseStartOrEndFrame(
                            "the two numbers were not separated by a + or - symbol. (';' too early)".to_string(),
                        ));
                    },
                    Some(rv) => {
                        let frame1: u32 = match parse_uint::<u32>(first.as_str()) {
                            Ok(v) => v,
                            Err(e) => return Err(ParserError::ParseIntError(first, e)),
                        };
                        let frame2: u32 = match parse_uint::<u32>(second.as_str()) {
                            Ok(v) => v,
                            Err(e) => return Err(ParserError::ParseIntError(second, e)),
                        };
                        return Ok((frame1, frame2, rv));
                    },
                }
            },
            Some(c) => {
                if rev.is_none() {
                    first.push(c);
                } else {
                    second.push(c);
                }
            },
            None => return Err(ParserError::UnexpectedEOF),
        }
    }
}

/// Once reading the bytes has failed, reading more fails the same way.
proof fn lemma_sp_bytes_err(s: Seq<char>, i: nat, n: nat, e: ParserErrorV)
    requires
        i <= n,
        sp_bytes(s, i) == Err::<(Seq<u8>, Seq<char>), ParserErrorV>(e),
    ensures
        sp_bytes(s, n) == Err::<(Seq<u8>, Seq<char>), ParserErrorV>(e),
    decreases n - i,
{
    if i < n {
        lemma_sp_bytes_err(s, i + 1, n, e);
    }
}

/// Reads `n` bytes, each written before a `;`.
fn parse_bytes(chars: &mut CharStream, n: usize) -> (res: Result<Vec<u8>, ParserError>)
    requires
        old(chars)@.len() <= u32::MAX,
    ensures
        sp_bytes(old(chars)@, n as nat) == match res {
            Ok(v) => Ok((v@, final(chars)@)),
            Err(e) => Err(e@),
        },
        res is Ok ==> final(chars)@.len() <= old(chars)@.len(),
        res matches Ok(v) ==> v@.len() == n,
{
    let mut v: Vec<u8> = Vec::new();
    let mut i: usize = 0;
    while i < n
        invariant
            i <= n,
            v@.len() == i,
            sp_bytes(old(chars)@, i as nat) == Ok::<(Seq<u8>, Seq<char>), ParserErrorV>((v@, chars@)),
            chars@.len() <= old(chars)@.len(),
            old(chars)@.len() <= u32::MAX,
        decreases n - i,
    {
        let b = parse_vid_int::<u8>(chars);
        match b {
            Ok(b) => {
                v.push(b);
            },
            Err(e) => {
                proof {
                    lemma_sp_bytes_err(old(chars)@, (i + 1) as nat, n as nat, e@);
                }
                return Err(e);
            },
        }
        i = i + 1;
    }
    Ok(v)
}

/// Reads the effect named `name` with its settings (see `sp_effect`).
fn parse_effect(name: String, chars: &mut CharStream) -> (res: Result<Effect, ParserError>)
    requires
        old(chars)@.len() <= u32::MAX,
    ensures
        sp_effect(name@, old(chars)@) == match res {
            Ok(e) => Ok((e@, final(chars)@)),
            Err(e) => Err(e@),
        },
        res is Ok ==> final(chars)@.len() <= old(chars)@.len(),
{
    if string_is(&name, "None") {
        Ok(Effect::new_from_enum(EffectsEnum::Nothing(Nothing::new())))
    } else if string_is(&name, "BlackWhite") {
        Ok(Effect::new_from_enum(EffectsEnum::BlackWhite(BlackWhite::new())))
    } else if string_is(&name, "Shake") {
        let a = parse_vid_f64(chars)?;
        let b = parse_vid_f64(chars)?;
        let c = parse_vid_f64(chars)?;
        let d = parse_vid_f64(chars)?;
        Ok(Effect::new_from_enum(EffectsEnum::Shake(Shake::new(a, b, c, d))))
    } else if string_is(&name, "ChangeTime") {
        let t = parse_vid_curve(chars)?;
        Ok(Effect::new_from_enum(EffectsEnum::ChangeTime(ChangeTime::new(t))))
    } else if string_is(&name, "Blur") {
        let id = match read_token(chars, ':', false) {
            Some(id) => id,
            None => return Err(ParserError::UnexpectedEOF),
        };
        if string_is(&id, "Square") {
            let radius = parse_vid_curve(chars)?;
            Ok(Effect::new_from_enum(EffectsEnum::Blur(Blur::new(Blur_Mode::Square { radius }))))
        } else if string_is(&id, "Downscale") {
            let width = parse_vid_curve(chars)?;
            let height = parse_vid_curve(chars)?;
            Ok(Effect::new_from_enum(EffectsEnum::Blur(Blur::new(Blur_Mode::Downscale { width, height }))))
        } else {
            let mut m = String::new();
            append_str(&mut m, "Blur mode '");
            append_str(&mut m, id.as_str());
            append_str(&mut m, "' does not exist! Try Square (Curve) or Downscale (Curve + Curve)");
            assert(m@ =~= "Blur mode '"@ + id@ + "' does not exist! Try Square (Curve) or Downscale (Curve + Curve)"@);
            Err(ParserError::EffectParseError { effect_identifier: name, custom_error: m })
        }
    } else if string_is(&name, "ColorAdjust") {
        let id = match read_token(chars, ':', false) {
            Some(id) => id,
            None => return Err(ParserError::UnexpectedEOF),
        };
        if string_is(&id, "rgba") {
            let (r, g, b, a) = parse_four_curves(chars)?;
            Ok(Effect::new_from_enum(EffectsEnum::ColorAdjust(ColorAdjust::new(ColorAdjust_Mode::Rgba(r, g, b, a)))))
        } else {
            let mut m = String::new();
            append_str(&mut m, "'");
            append_str(&mut m, id.as_str());
            append_str(&mut m, "' is not a valid ColorAdjustMode. Try rgba:RGBA where R,G,B,A are Curve.");
            assert(m@ =~= "'"@ + id@ + "' is not a valid ColorAdjustMode. Try rgba:RGBA where R,G,B,A are Curve."@);
            Err(ParserError::EffectParseError { effect_identifier: name, custom_error: m })
        }
    } else if string_is(&name, "ColorKey") {
        let id = match read_token(chars, ':', false) {
            Some(id) => id,
            None => return Err(ParserError::UnexpectedEOF),
        };
        if string_is(&id, "rgb_eq") {
            let v = parse_bytes(chars, 3)?;
            Ok(Effect::new_from_enum(EffectsEnum::ColorKey(ColorKey::new(ColorKey_Mode::TransparentIfMatches((v[0], v[1], v[2]))))))
        } else if string_is(&id, "rgb_rng") {
            let v = parse_bytes(chars, 6)?;
            Ok(Effect::new_from_enum(EffectsEnum::ColorKey(ColorKey::new(ColorKey_Mode::TransparentIfRange(((v[0], v[1]), (v[2], v[3]), (v[4], v[5])))))))
        } else {
            let mut m = String::new();
            append_str(&mut m, "'");
            append_str(&mut m, id.as_str());
            append_str(
                &mut m,
                "' is not a valid ColorKeyMode. Try rgb_eq:R;G;B where R,G,B are int-u8, or rgb_rng:R1;R2;G1;G2;B1;B2 where R1,R2,G1,G2,B1,B2 are int-u8.",
            );
            assert(m@ =~= "'"@ + id@
                + "' is not a valid ColorKeyMode. Try rgb_eq:R;G;B where R,G,B are int-u8, or rgb_rng:R1;R2;G1;G2;B1;B2 where R1,R2,G1,G2,B1,B2 are int-u8."@);
            Err(ParserError::EffectParseError { effect_identifier: name, custom_error: m })
        }
    } else {
        Err(ParserError::UnknownEffect(name))
    }
}

/// Reads a text (see `sp_text`).
fn parse_text(chars: &mut CharStream) -> (res: Result<Text, ParserError>)
    requires
        old(chars)@.len() <= u32::MAX,
    ensures
        sp_text(old(chars)@) == match res {
            Ok(t) => Ok((t@, final(chars)@)),
            Err(e) => Err(e@),
        },
        res is Ok ==> final(chars)@.len() <= old(chars)@.len(),
{
    let font_path = parse_path(chars)?;
    let font_index = parse_vid_int::<u32>(chars)?;
    let color = Color::parse(chars)?;
    let text_type = match chars.next() {
        Some('s') => TextType::Static(parse_string(chars)?),
        Some('!') => match chars.next() {
            Some(_) => {
                let path = parse_path(chars)?;
                TextType::Program(ExternalProgram::new(path, ExternalProgramMode::RunOnceArg))
            },
            None => return Err(ParserError::UnexpectedEOF),
        },
        Some(c) => return Err(ParserError::InvalidTextType(c)),
        None => return Err(ParserError::UnexpectedEOF),
    };
    let mut text = Text::new(text_type, GenericContentData::new());
    text.set_color(color);
    text.set_font_file(font_path, font_index);
    Ok(text)
}


/// Reads content that the file describes by a path (see `sp_leaf_video`).
fn parse_leaf_video(id: String, chars: &mut CharStream) -> (res: Result<VideoTypeEnum, ParserError>)
    requires
        old(chars)@.len() <= u32::MAX,
    ensures
        sp_leaf_video(id@, old(chars)@) == match res {
            Ok(v) => Ok((v@, final(chars)@)),
            Err(e) => Err(e@),
        },
        res is Ok ==> final(chars)@.len() <= old(chars)@.len(),
{
    if string_is(&id, "Text") {
        Ok(VideoTypeEnum::Text(parse_text(chars)?))
    } else if string_is(&id, "Image") {
        Ok(VideoTypeEnum::Image(Image::new(parse_path(chars)?)))
    } else if string_is(&id, "VidFromImagesInDirectory") {
        let directory = parse_path(chars)?;
        let crop = parse_crop(chars)?;
        Ok(VideoTypeEnum::Raw(InputVideo::new(directory, crop)))
    } else if string_is(&id, "VidUsingFfmpeg") {
        Ok(VideoTypeEnum::Ffmpeg(FfmpegVid::new(parse_path(chars)?, GenericContentData::new())))
    } else {
        Err(ParserError::InvalidVideoType(id))
    }
}

/// The position a video gets when the file gives none.
fn default_file_pos_exec() -> (p: Pos<Curve, Curve>)
    ensures
        pos_view(&p) == default_file_pos(),
{
    Pos {
        x: Curve::constant("0.0"),
        y: Curve::constant("0.0"),
        w: Curve::constant("1.0"),
        h: Curve::constant("1.0"),
        align: PosAlign::TopLeft,
    }
}

/// Reads a video (see `sp_vid`).
pub fn parse_vid(chars: &mut CharStream) -> (res: Result<Video, ParserError>)
    requires
        old(chars)@.len() <= u32::MAX,
    ensures
        sp_vid(old(chars)@) == match res {
            Ok(v) => Ok((v@, final(chars)@)),
            Err(e) => Err(e@),
        },
        res is Ok ==> final(chars)@.len() < old(chars)@.len(),
    decreases old(chars)@.len(), 5nat,
{
    let mut pos: Option<Pos<Curve, Curve>> = None;
    let mut start: Option<Number> = None;
    let mut length: Option<Number> = None;
    let mut video: Option<VideoType> = None;
    let mut compositing: Option<CompositingMethod> = None;
    loop
        invariant
            sp_vid(old(chars)@) == sp_vid_fields(chars@, fields_view(&pos, &start, &length, &video, &compositing)),
            chars@.len() <= old(chars)@.len(),
            old(chars)@.len() <= u32::MAX,
        decreases chars@.len(),
    {
        let key = match read_token(chars, ':', false) {
            Some(k) => k,
            None => return Err(ParserError::UnexpectedEOF),
        };
        if key.as_str().is_empty() {
            match video {
                None => return Err(ParserError::MissingVideoInfoKey("video".to_string())),
                Some(t) => {
                    let p = match pos {
                        Some(p) => p,
                        None => default_file_pos_exec(),
                    };
                    let st = match start {
                        Some(x) => x,
                        None => Number::from_text("0.0"),
                    };
                    let len = match length {
                        Some(x) => x,
                        None => Number::from_text("1.0"),
                    };
                    let mut vid = Video::new(p, st, len, t);
                    vid.set_compositing(compositing);
                    return Ok(vid);
                },
            }
        } else if string_is(&key, "pos") {
            pos = Some(parse_pos(chars)?);
        } else if string_is(&key, "start") {
            start = Some(parse_vid_f64(chars)?);
        } else if string_is(&key, "length") {
            length = Some(parse_vid_f64(chars)?);
        } else if string_is(&key, "video") {
            video = Some(parse_vid_video(chars)?);
        } else if string_is(&key, "compositing") {
            compositing = Some(
                match chars.next() {
                    Some('_') => CompositingMethod::Ignore,
                    Some('=') => CompositingMethod::Opaque,
                    Some('|') => CompositingMethod::Direct,
                    Some('*') => CompositingMethod::TransparencySupport,
                    Some(ch) => return Err(ParserError::InvalidCompositingMode(ch)),
                    None => return Err(ParserError::UnexpectedEOF),
                },
            );
        } else {
            return Err(ParserError::InvalidVideoInfoKey(key));
        }
    }
}

/// Reads the videos of a list (see `sp_vids`).
pub fn parse_vid_vids(chars: &mut CharStream) -> (res: Result<Vec<Video>, ParserError>)
    requires
        old(chars)@.len() <= u32::MAX,
    ensures
        sp_vids(old(chars)@, Seq::empty()) == match res {
            Ok(v) => Ok((videos_v(v@), final(chars)@)),
            Err(e) => Err(e@),
        },
        res is Ok ==> final(chars)@.len() < old(chars)@.len(),
    decreases old(chars)@.len(), 3nat,
{
    let mut vec: Vec<Video> = Vec::new();
    assert(videos_v(vec@) =~= Seq::<VideoV>::empty());
    loop
        invariant
            sp_vids(old(chars)@, Seq::empty()) == sp_vids(chars@, videos_v(vec@)),
            chars@.len() <= old(chars)@.len(),
            old(chars)@.len() <= u32::MAX,
        decreases chars@.len(),
    {
        match chars.next() {
            Some('+') => {
                let v = parse_vid(chars)?;
                let ghost before = videos_v(vec@);
                vec.push(v);
                assert(videos_v(vec@) =~= before.push(v@));
            },
            Some(_) => return Ok(vec),
            None => return Err(ParserError::UnexpectedEOF),
        }
    }
}

/// Reads what a video shows (see `sp_video`).
pub fn parse_vid_video(chars: &mut CharStream) -> (res: Result<VideoType, ParserError>)
    requires
        old(chars)@.len() <= u32::MAX,
    ensures
        sp_video(old(chars)@) == match res {
            Ok(v) => Ok((v@, final(chars)@)),
            Err(e) => Err(e@),
        },
        res is Ok ==> final(chars)@.len() < old(chars)@.len(),
    decreases old(chars)@.len(), 2nat,
{
    let id = match read_token(chars, ':', true) {
        Some(i) => i,
        None => return Err(ParserError::UnexpectedEOF),
    };
    let vt = if string_is(&id, "List") {
        let vs = parse_vid_vids(chars)?;
        proof {
            lemma_list_view(&vs);
        }
        VideoTypeEnum::List(vs)
    } else if string_is(&id, "AspectRatio") {
        let w = parse_vid_curve(chars)?;
        let h = parse_vid_curve(chars)?;
        let v = parse_vid(chars)?;
        VideoTypeEnum::AspectRatio(Box::new(v), w, h)
    } else if string_is(&id, "WithEffect") {
        let v = parse_vid(chars)?;
        let name = match read_token(chars, ':', false) {
            Some(n) => n,
            None => return Err(ParserError::UnexpectedEOF),
        };
        let e = parse_effect(name, chars)?;
        VideoTypeEnum::WithEffect(Box::new(v), e)
    } else {
        parse_leaf_video(id, chars)?
    };
    Ok(VideoType::new(vt, GenericContentData::new()))
}

// ------------------------------------------------------------------ projects

/// The project settings that a file at `path` gets.
pub open spec fn proj_data_of(path: Seq<char>) -> ProjectDataV {
    ProjectDataV { name: "doesn't_matter"@, path: Some(path) }
}

/// The project written in `s` (read from the file at `path`), after the parts read
/// so far: sections named `proj` and `vid`, each name followed by `:`, each given
/// once; the file ends where no `:` follows. Both must be given.
pub open spec fn sp_project(
    s: Seq<char>,
    proj: Option<ProjectDataV>,
    vid: Option<VideoV>,
    path: Seq<char>,
) -> Result<(ProjectDataV, VideoV), ParserErrorV>
    decreases s.len(),
{
    match sp_token(s, ':', false) {
        None => match (proj, vid) {
            (Some(p), Some(v)) => Ok((p, v)),
            (None, _) => Err(ParserErrorV::MissingIdentifier("proj"@)),
            (_, None) => Err(ParserErrorV::MissingIdentifier("vid"@)),
        },
        Some((id, r)) => if r.len() >= s.len() {
            Err(ParserErrorV::UnexpectedEOF)
        } else if id == "proj"@ {
            match proj {
                None => sp_project(r, Some(proj_data_of(path)), vid, path),
                Some(_) => Err(ParserErrorV::DoubleDefinitionOf(id)),
            }
        } else if id == "vid"@ {
            match vid {
                None => match sp_vid(r) {
                    Ok((v, r2)) => if r2.len() < s.len() {
                        sp_project(r2, proj, Some(v), path)
                    } else {
                        Err(ParserErrorV::UnexpectedEOF)
                    },
                    Err(e) => Err(e),
                },
                Some(_) => Err(ParserErrorV::DoubleDefinitionOf(id)),
            }
        } else {
            Err(ParserErrorV::InvalidIdentifier(id))
        },
    }
}

/// Reads the settings of a project saved at `path`; the file holds none of them yet.
pub fn parse_proj(chars: &mut CharStream, path: String) -> (res: Result<ProjectData, ParserError>)
    ensures
        res matches Ok(p) && p@ == proj_data_of(path@),
        final(chars)@ == old(chars)@,
{
    Ok(ProjectData { name: "doesn't_matter".to_string(), path: Some(path) })
}

/// Reads the project written in `str`, which was read from the file at `path`.
pub fn parse(str: &str, path: &String) -> (res: Result<Project, ParserError>)
    requires
        str@.len() <= u32::MAX,
    ensures
        match sp_project(str@, None, None, path@) {
            Ok((p, v)) => res matches Ok(r) && r.proj@ == p && r.vid@ == v && r.shared_curves.wf()
                && r.shared_curves@ == Map::<u64, CurveDataV>::empty(),
            Err(e) => res matches Err(x) && x@ == e,
        },
{
    let mut chars = CharStream::new(str);
    let mut proj: Option<ProjectData> = None;
    let mut vid: Option<Video> = None;
    loop
        invariant
            sp_project(str@, None, None, path@) == sp_project(
                chars@,
                match &proj {
                    Some(p) => Some(p@),
                    None => None,
                },
                match &vid {
                    Some(v) => Some(v@),
                    None => None,
                },
                path@,
            ),
            chars@.len() <= str@.len(),
            str@.len() <= u32::MAX,
        decreases chars@.len(),
    {
        let identifier = match read_token(&mut chars, ':', false) {
            Some(i) => i,
            None => return finish_project(proj, vid),
        };
        if string_is(&identifier, "proj") {
            match proj {
                None => {
                    proj = Some(parse_proj(&mut chars, path.clone())?);
                },
                Some(_) => return Err(ParserError::DoubleDefinitionOf(identifier)),
            }
        } else if string_is(&identifier, "vid") {
            match vid {
                None => {
                    vid = Some(parse_vid(&mut chars)?);
                },
                Some(_) => return Err(ParserError::DoubleDefinitionOf(identifier)),
            }
        } else {
            return Err(ParserError::InvalidIdentifier(identifier));
        }
    }
}

/// The project made of the parts read, when the file ends.
fn finish_project(proj: Option<ProjectData>, vid: Option<Video>) -> (res: Result<Project, ParserError>)
    ensures
        match (proj, vid) {
            (Some(p), Some(v)) => res matches Ok(r) && r.proj == p && r.vid == v && r.shared_curves.wf()
                && r.shared_curves@ == Map::<u64, CurveDataV>::empty(),
            (None, _) => res matches Err(x) && x@ == ParserErrorV::MissingIdentifier("proj"@),
            (_, None) => res matches Err(x) && x@ == ParserErrorV::MissingIdentifier("vid"@),
        },
{
    match (proj, vid) {
        (Some(proj), Some(vid)) => {
            let mut p = Project::new(proj);
            p.add_vid(vid);
            Ok(p)
        },
        (None, _) => Err(ParserError::MissingIdentifier("proj".to_string())),
        (_, None) => Err(ParserError::MissingIdentifier("vid".to_string())),
    }
}


/// The alignment character of a position is drawn from the file format's grid
/// `1^2 / <+> / 3v4`: the character's column and row there say where the video is
/// anchored (left, middle, right; top, middle, bottom), so `1` is the top left, `2`
/// the top right, `3` the bottom left and `4` the bottom right. Any other character
/// but `!` (a custom point) is refused.
pub proof fn lemma_position_alignment_grid(c: char, rest: Seq<char>)
    ensures
        ({
            let grid = seq!['1', '^', '2', '<', '+', '>', '3', 'v', '4'];
            let s = seq![c] + rest;
            &&& c == '1' ==> (sp_pos(s) matches Ok((p, _)) ==> p.align is TopLeft)
            &&& c == '2' ==> (sp_pos(s) matches Ok((p, _)) ==> p.align is TopRight)
            &&& c == '3' ==> (sp_pos(s) matches Ok((p, _)) ==> p.align is BottomLeft)
            &&& c == '4' ==> (sp_pos(s) matches Ok((p, _)) ==> p.align is BottomRight)
            &&& c == '^' ==> (sp_pos(s) matches Ok((p, _)) ==> p.align is Top)
            &&& c == 'v' ==> (sp_pos(s) matches Ok((p, _)) ==> p.align is Bottom)
            &&& c == '<' ==> (sp_pos(s) matches Ok((p, _)) ==> p.align is Left)
            &&& c == '>' ==> (sp_pos(s) matches Ok((p, _)) ==> p.align is Right)
            &&& c == '+' ==> (sp_pos(s) matches Ok((p, _)) ==> p.align is Center)
            &&& (c != '!' && !grid.contains(c)) ==> sp_pos(s) == Err::<(Pos<CurveV, CurveV>, Seq<char>), ParserErrorV>(
                ParserErrorV::InvalidPosAlignment(c),
            )
        }),
{
    let grid = seq!['1', '^', '2', '<', '+', '>', '3', 'v', '4'];
    let s = seq![c] + rest;
    assert(s[0] == c);
    assert(s.drop_first() =~= rest);
    if c != '!' && !grid.contains(c) {
        assert(c != grid[0] && c != grid[1] && c != grid[2] && c != grid[3] && c != grid[4]);
        assert(c != grid[5] && c != grid[6] && c != grid[7] && c != grid[8]);
        assert(fixed_align(c) is None);
    }

}

} // verus!
