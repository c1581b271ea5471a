//! Reading a project file: its version line, then its contents in the format of
//! that version.

use vstd::prelude::*;
use crate::strings::{CharStream, first_index_of, lemma_first_index_of, string_from_chars, chars_of, append_str};
use crate::numbers::{IntParseError, decimal_value, parse_uint, decimal_text, decimal_string};
use crate::files::parser_general::{ParserError, ParserErrorV, parser_error_message};
use crate::files::parser_v0::{parse, sp_project};
use crate::project::{Project, ProjectDataV};
use crate::video::VideoV;
use crate::curve::CurveDataV;

verus! {

/// The newest major version of the file format that can be read.
pub const VERSION_CURRENT_MAJOR: u32 = 0;
/// The newest minor version of the file format that can be read.
pub const VERSION_CURRENT_MINOR: u32 = 0;

/// Why a project file could not be turned into a project.
pub enum CreateVideoFromFileError {
    NoFirstLine,
    /// The first line did not contain the . required by the major.minor version format
    CouldNotDecodeVersion,
    /// The first line matched the major.minor format, but major could not be parsed to an int
    CouldNotDecodeMajorVersion(IntParseError),
    /// The first line matched the major.minor format, but minor could not be parsed to an int
    CouldNotDecodeMinorVersion(IntParseError),
    /// The file's major version was newer than the newest major version this version of the program can read.
    VersionTooNewMajor,
    /// The file's minor version was newer than the newest minor version this version of the program can read. (This requires that the Major version matched)
    VersionTooNewMinor,
    /// There is no parser for the given file version.
    NoParserForVersion((u32, u32)),
    /// There was an error parsing the file.
    ParseError { file_version: (u32, u32), parser_version: (u32, u32), parser_error: ParserError },
}

/// The abstract value of such an error.
pub enum CreateVideoFromFileErrorV {
    NoFirstLine,
    CouldNotDecodeVersion,
    CouldNotDecodeMajorVersion(IntParseError),
    CouldNotDecodeMinorVersion(IntParseError),
    VersionTooNewMajor,
    VersionTooNewMinor,
    NoParserForVersion((u32, u32)),
    ParseError { file_version: (u32, u32), parser_version: (u32, u32), parser_error: ParserErrorV },
}

impl View for CreateVideoFromFileError {
    type V = CreateVideoFromFileErrorV;

    open spec fn view(&self) -> CreateVideoFromFileErrorV {
        match self {
            CreateVideoFromFileError::NoFirstLine => CreateVideoFromFileErrorV::NoFirstLine,
            CreateVideoFromFileError::CouldNotDecodeVersion => CreateVideoFromFileErrorV::CouldNotDecodeVersion,
            CreateVideoFromFileError::CouldNotDecodeMajorVersion(e) => CreateVideoFromFileErrorV::CouldNotDecodeMajorVersion(*e),
            CreateVideoFromFileError::CouldNotDecodeMinorVersion(e) => CreateVideoFromFileErrorV::CouldNotDecodeMinorVersion(*e),
            CreateVideoFromFileError::VersionTooNewMajor => CreateVideoFromFileErrorV::VersionTooNewMajor,
            CreateVideoFromFileError::VersionTooNewMinor => CreateVideoFromFileErrorV::VersionTooNewMinor,
            CreateVideoFromFileError::NoParserForVersion(v) => CreateVideoFromFileErrorV::NoParserForVersion(*v),
            CreateVideoFromFileError::ParseError { file_version, parser_version, parser_error } => CreateVideoFromFileErrorV::ParseError {
                file_version: *file_version,
                parser_version: *parser_version,
                parser_error: parser_error@,
            },
        }
    }
}

/// What went wrong, in words, for the error `e`.
pub open spec fn create_error_details(e: CreateVideoFromFileErrorV) -> Seq<char> {
    match e {
        CreateVideoFromFileErrorV::NoFirstLine =>
            "The specified file did not contain a first line and is therefor useless. This might also indicate file permission issues if the file contains something."@,
        CreateVideoFromFileErrorV::CouldNotDecodeVersion =>
            "Could not decode version. Ensure the first line of the project file contains a valid version in the major.minor format, where major and minor are positive integers."@,
        CreateVideoFromFileErrorV::CouldNotDecodeMajorVersion(i) => "Could not decode major version: "@ + i.spec_message(),
        CreateVideoFromFileErrorV::CouldNotDecodeMinorVersion(i) => "Could not decode minor version: "@ + i.spec_message(),
        CreateVideoFromFileErrorV::VersionTooNewMajor =>
            "The major version of this file exceeds the major version of the parser. Please update the program. Manually changing the version in the file WILL NOT WORK, as a major version change indicates significant syntax changes."@,
        CreateVideoFromFileErrorV::VersionTooNewMinor =>
            "The minor version of this file exceeds the minor version of the parser. Please update the program or manually change the version in the file (this might cause further parsing errors, but it might also work if no new features are used - it's only a minor version after all.)"@,
        CreateVideoFromFileErrorV::NoParserForVersion((maj, min)) => "There is no parser for version "@ + decimal_text(
            maj as nat,
        ) + "."@ + decimal_text(min as nat) + ". (Upgrading from old file versions is not supported yet, sorry.)"@,
        CreateVideoFromFileErrorV::ParseError { file_version, parser_version, parser_error } => "ParserError ["@
            + decimal_text(file_version.0 as nat) + "."@ + decimal_text(file_version.1 as nat) + " in "@ + decimal_text(
            parser_version.0 as nat,
        ) + "."@ + decimal_text(parser_version.1 as nat) + "]: ("@ + parser_error_message(parser_error) + ")"@,
    }
}

/// The text that tells a user what went wrong reading a project file.
pub open spec fn create_error_message(e: CreateVideoFromFileErrorV) -> Seq<char> {
    "CreateVideoFromFileError: "@ + create_error_details(e)
}

impl CreateVideoFromFileError {
    /// The text that tells a user what went wrong.
    pub fn message(&self) -> (s: String)
        ensures
            s@ == create_error_message(self@),
    {
        let mut s = String::new();
        append_str(&mut s, "CreateVideoFromFileError: ");
        let ghost start = s@;
        match self {
            CreateVideoFromFileError::NoFirstLine => {
                append_str(
                    &mut s,
                    "The specified file did not contain a first line and is therefor useless. This might also indicate file permission issues if the file contains something.",
                );
            },
            CreateVideoFromFileError::CouldNotDecodeVersion => {
                append_str(
                    &mut s,
                    "Could not decode version. Ensure the first line of the project file contains a valid version in the major.minor format, where major and minor are positive integers.",
                );
            },
            CreateVideoFromFileError::CouldNotDecodeMajorVersion(e) => {
                append_str(&mut s, "Could not decode major version: ");
                let m = e.message();
                append_str(&mut s, m.as_str());
            },
            CreateVideoFromFileError::CouldNotDecodeMinorVersion(e) => {
                append_str(&mut s, "Could not decode minor version: ");
                let m = e.message();
                append_str(&mut s, m.as_str());
            },
            CreateVideoFromFileError::VersionTooNewMajor => {
                append_str(
                    &mut s,
                    "The major version of this file exceeds the major version of the parser. Please update the program. Manually changing the version in the file WILL NOT WORK, as a major version change indicates significant syntax changes.",
                );
            },
            CreateVideoFromFileError::VersionTooNewMinor => {
                append_str(
                    &mut s,
                    "The minor version of this file exceeds the minor version of the parser. Please update the program or manually change the version in the file (this might cause further parsing errors, but it might also work if no new features are used - it's only a minor version after all.)",
                );
            },
            CreateVideoFromFileError::NoParserForVersion((maj, min)) => {
                append_str(&mut s, "There is no parser for version ");
                append_str(&mut s, decimal_string(*maj).as_str());
                append_str(&mut s, ".");
                append_str(&mut s, decimal_string(*min).as_str());
                append_str(&mut s, ". (Upgrading from old file versions is not supported yet, sorry.)");
            },
            CreateVideoFromFileError::ParseError { file_version, parser_version, parser_error } => {
                append_str(&mut s, "ParserError [");
                append_str(&mut s, decimal_string(file_version.0).as_str());
                append_str(&mut s, ".");
                append_str(&mut s, decimal_string(file_version.1).as_str());
                append_str(&mut s, " in ");
                append_str(&mut s, decimal_string(parser_version.0).as_str());
                append_str(&mut s, ".");
                append_str(&mut s, decimal_string(parser_version.1).as_str());
                append_str(&mut s, "]: (");
                append_str(&mut s, parser_error.message().as_str());
                append_str(&mut s, ")");
            },
        }
        assert(s@ =~= "CreateVideoFromFileError: "@ + create_error_details(self@));
        s
    }
}

/// The line `l` without the carriage return that ends it, if any.
pub open spec fn strip_cr(l: Seq<char>) -> Seq<char> {
    if l.len() > 0 && l.last() == '\r' {
        l.drop_last()
    } else {
        l
    }
}

/// The lines of `s` as `str::lines` gives them: split at each `\n`, a `\r` right
/// before it dropped; a last line without `\n` counts, an empty one after the last
/// `\n` does not.
pub open spec fn lines_of(s: Seq<char>) -> Seq<Seq<char>>
    decreases s.len(),
{
    if s.len() == 0 {
        Seq::empty()
    } else {
        match first_index_of(s, '\n') {
            None => seq![strip_cr(s)],
            Some(k) => if 0 <= k < s.len() {
                seq![strip_cr(s.take(k))] + lines_of(s.skip(k + 1))
            } else {
                Seq::empty()
            },
        }
    }
}

/// The line `l` without the spaces and tabs that start it.
pub open spec fn trim_start_blanks(l: Seq<char>) -> Seq<char>
    decreases l.len(),
{
    if l.len() > 0 && (l[0] == ' ' || l[0] == '\t') {
        trim_start_blanks(l.drop_first())
    } else {
        l
    }
}

/// The lines `ls`, each without its leading spaces and tabs, one after another with
/// nothing between them.
pub open spec fn joined(ls: Seq<Seq<char>>) -> Seq<char>
    decreases ls.len(),
{
    if ls.len() == 0 {
        Seq::empty()
    } else {
        trim_start_blanks(ls[0]) + joined(ls.drop_first())
    }
}

/// The version written in the first line, as its two numbers.
pub open spec fn version_of(first: Seq<char>) -> Result<(u32, u32), CreateVideoFromFileErrorV> {
    match first_index_of(first, '.') {
        None => Err(CreateVideoFromFileErrorV::CouldNotDecodeVersion),
        Some(k) => match decimal_value(first.take(k), u32::MAX as int) {
            Err(e) => Err(CreateVideoFromFileErrorV::CouldNotDecodeMajorVersion(e)),
            Ok(major) => match decimal_value(first.skip(k + 1), u32::MAX as int) {
                Err(e) => Err(CreateVideoFromFileErrorV::CouldNotDecodeMinorVersion(e)),
                Ok(minor) => Ok((major as u32, minor as u32)),
            },
        },
    }
}

/// The project in the file contents `s`, read from the file `file_name`: the first
/// line holds the version `major.minor`; the other lines, each without the spaces and
/// tabs that start it, and joined without line breaks, hold the project in the
/// format of that version.
pub open spec fn project_from_file(s: Seq<char>, file_name: Seq<char>) -> Result<(ProjectDataV, VideoV), CreateVideoFromFileErrorV> {
    let ls = lines_of(s);
    if ls.len() == 0 {
        Err(CreateVideoFromFileErrorV::NoFirstLine)
    } else {
        match version_of(ls[0]) {
            Err(e) => Err(e),
            Ok((major, minor)) => if major > VERSION_CURRENT_MAJOR {
                Err(CreateVideoFromFileErrorV::VersionTooNewMajor)
            } else if major == VERSION_CURRENT_MAJOR && minor > VERSION_CURRENT_MINOR {
                Err(CreateVideoFromFileErrorV::VersionTooNewMinor)
            } else if major == VERSION_CURRENT_MAJOR {
                match sp_project(joined(ls.drop_first()), None, None, file_name) {
                    Ok(r) => Ok(r),
                    Err(e) => Err(CreateVideoFromFileErrorV::ParseError {
                        file_version: (major, minor),
                        parser_version: (VERSION_CURRENT_MAJOR, VERSION_CURRENT_MINOR),
                        parser_error: e,
                    }),
                }
            } else {
                Err(CreateVideoFromFileErrorV::NoParserForVersion((major, minor)))
            },
        }
    }
}

pub proof fn lemma_trim_start_len(l: Seq<char>)
    ensures
        trim_start_blanks(l).len() <= l.len(),
    decreases l.len(),
{
    if l.len() > 0 && (l[0] == ' ' || l[0] == '\t') {
        lemma_trim_start_len(l.drop_first());
    }
}

/// Reads one line as `str::lines` gives it; `None` at the end of the text.
fn read_line(chars: &mut CharStream) -> (r: Option<String>)
    ensures
        match r {
            None => lines_of(old(chars)@).len() == 0 && final(chars)@ == old(chars)@,
            Some(l) => lines_of(old(chars)@) == seq![l@] + lines_of(final(chars)@) && l@.len() + final(chars)@.len()
                <= old(chars)@.len() && final(chars)@.len() < old(chars)@.len(),
        },
{
    let ghost input = chars@;
    proof { lemma_first_index_of(input, '\n'); }
    if chars.is_empty() {
        return None;
    }
    let mut buf: Vec<char> = Vec::new();
    let ghost mut i: int = 0;
    loop
        invariant
            0 <= i <= input.len(),
            input.len() > 0,
            chars@ == input.skip(i),
            buf@ == input.take(i),
            input == old(chars)@,
            forall|j: int| 0 <= j < i ==> input[j] != '\n',
        decreases input.len() - i,
    {
        let ghost before = chars@;
        match chars.next() {
            Some(c) => {
                assert(before[0] == input[i]);
                assert(input.skip(i).drop_first() =~= input.skip(i + 1));
                if c == '\n' {
                    proof {
                        crate::strings::lemma_first_index_is(input, '\n', i);
                    }
                    let line = strip_last_cr(buf);
                    return Some(line);
                }
                buf.push(c);
                assert(input.take(i).push(c) =~= input.take(i + 1));
                proof { i = i + 1; }
            },
            None => {
                assert(input.skip(i).len() == 0);
                assert(input.take(i) =~= input);
                proof {
                    lemma_first_index_of(input, '\n');
                    if let Some(k) = first_index_of(input, '\n') {
                        assert(input[k] == '\n');
                    }
                    assert(lines_of(Seq::<char>::empty()) =~= Seq::<Seq<char>>::empty());
                }
                let line = strip_last_cr(buf);
                return Some(line);
            },
        }
    }
}

/// The characters of `v` as a text, without a carriage return at its end.
fn strip_last_cr(v: Vec<char>) -> (s: String)
    ensures
        s@ == strip_cr(v@),
{
    let ghost orig = v@;
    let mut v = v;
    if v.len() > 0 && v[v.len() - 1] == '\r' {
        v.pop();
        assert(v@ =~= strip_cr(orig));
    }
    string_from_chars(&v)
}

/// The text `l` without the spaces and tabs that start it.
fn trim_start(l: &String) -> (r: String)
    ensures
        r@ == trim_start_blanks(l@),
{
    let v = chars_of(l.as_str());
    let mut i: usize = 0;
    assert(v@.skip(0) =~= v@);
    while i < v.len() && (v[i] == ' ' || v[i] == '\t')
        invariant
            i <= v@.len(),
            v@ == l@,
            trim_start_blanks(l@) == trim_start_blanks(v@.skip(i as int)),
        decreases v.len() - i,
    {
        assert(v@.skip(i as int).drop_first() =~= v@.skip(i + 1));
        i = i + 1;
    }
    let mut r = String::new();
    let mut j: usize = i;
    while j < v.len()
        invariant
            i <= j <= v@.len(),
            r@ == v@.subrange(i as int, j as int),
        decreases v.len() - j,
    {
        r.push(v[j]);
        assert(v@.subrange(i as int, j as int).push(v@[j as int]) =~= v@.subrange(i as int, j + 1));
        j = j + 1;
    }
    assert(v@.subrange(i as int, v@.len() as int) =~= v@.skip(i as int));
    r
}

/// The text before the first `c` in `s` and the text after it.
pub fn split_at_char(s: &String, c: char) -> (r: Option<(String, String)>)
    ensures
        match first_index_of(s@, c) {
            Some(k) => r matches Some((a, b)) && a@ == s@.take(k) && b@ == s@.skip(k + 1),
            None => r is None,
        },
{
    let v = chars_of(s.as_str());
    proof { lemma_first_index_of(s@, c); }
    let mut i: usize = 0;
    while i < v.len() && v[i] != c
        invariant
            i <= v@.len(),
            v@ == s@,
            forall|j: int| 0 <= j < i ==> v@[j] != c,
        decreases v.len() - i,
    {
        i = i + 1;
    }
    if i == v.len() {
        proof {
            if let Some(k) = first_index_of(s@, c) {
                assert(v@[k] == c);
            }
        }
        return None;
    }
    proof { crate::strings::lemma_first_index_is(s@, c, i as int); }
    let mut a = String::new();
    let mut j: usize = 0;
    while j < i
        invariant
            j <= i < v@.len(),
            a@ == v@.take(j as int),
        decreases i - j,
    {
        a.push(v[j]);
        assert(v@.take(j as int).push(v@[j as int]) =~= v@.take(j + 1));
        j = j + 1;
    }
    let mut b = String::new();
    let mut j: usize = i + 1;
    while j < v.len()
        invariant
            i < j <= v@.len(),
            b@ == v@.subrange(i + 1, j as int),
        decreases v.len() - j,
    {
        b.push(v[j]);
        assert(v@.subrange(i + 1, j as int).push(v@[j as int]) =~= v@.subrange(i + 1, j + 1));
        j = j + 1;
    }
    assert(v@.subrange(i + 1, v@.len() as int) =~= v@.skip(i + 1));
    Some((a, b))
}

/// Reads the project in the file contents `file_contents`, read from the file
/// `file_name` (see `project_from_file`).
pub fn read_from_string(file_contents: &str, file_name: &String) -> (res: Result<Project, CreateVideoFromFileError>)
    requires
        file_contents@.len() <= u32::MAX,
    ensures
        match project_from_file(file_contents@, file_name@) {
            Ok((p, v)) => res matches Ok(r) && r.proj@ == p && r.vid@ == v && r.shared_curves.wf()
                && r.shared_curves@ == Map::<u64, CurveDataV>::empty(),
            Err(e) => res matches Err(x) && x@ == e,
        },
{
    let mut chars = CharStream::new(file_contents);
    let first_line = match read_line(&mut chars) {
        Some(l) => l,
        None => return Err(CreateVideoFromFileError::NoFirstLine),
    };
    let ghost ls = lines_of(file_contents@);
    let (major_text, minor_text) = match split_at_char(&first_line, '.') {
        Some(parts) => parts,
        None => return Err(CreateVideoFromFileError::CouldNotDecodeVersion),
    };
    let version_major = match parse_uint::<u32>(major_text.as_str()) {
        Ok(v) => v,
        Err(err) => return Err(CreateVideoFromFileError::CouldNotDecodeMajorVersion(err)),
    };
    let version_minor = match parse_uint::<u32>(minor_text.as_str()) {
        Ok(v) => v,
        Err(err) => return Err(CreateVideoFromFileError::CouldNotDecodeMinorVersion(err)),
    };
    if version_major > VERSION_CURRENT_MAJOR {
        return Err(CreateVideoFromFileError::VersionTooNewMajor);
    }
    if version_major == VERSION_CURRENT_MAJOR && version_minor > VERSION_CURRENT_MINOR {
        return Err(CreateVideoFromFileError::VersionTooNewMinor);
    }
    let mut file_content_final = String::new();
    assert(ls.drop_first() == lines_of(chars@));
    loop
        invariant
            file_content_final@ + joined(lines_of(chars@)) == joined(ls.drop_first()),
            file_content_final@.len() + chars@.len() <= file_contents@.len(),
        ensures
            lines_of(chars@).len() == 0,
            file_content_final@ + joined(lines_of(chars@)) == joined(ls.drop_first()),
            file_content_final@.len() + chars@.len() <= file_contents@.len(),
        decreases chars@.len(),
    {
        let ghost before = chars@;
        match read_line(&mut chars) {
            Some(line) => {
                let trimmed = trim_start(&line);
                proof {
                    lemma_trim_start_len(line@);
                    let rest = lines_of(chars@);
                    assert((seq![line@] + rest).drop_first() =~= rest);
                    assert((seq![line@] + rest)[0] == line@);
                    assert(joined(seq![line@] + rest) == trim_start_blanks(line@) + joined(rest));
                }
                let ghost prev = file_content_final@;
                append_str(&mut file_content_final, trimmed.as_str());
                assert(prev + trimmed@ + joined(lines_of(chars@)) =~= prev + (trimmed@ + joined(lines_of(chars@))));
            },
            None => {
                break;
            },
        }
    }
    assert(lines_of(chars@).len() == 0);
    assert(joined(lines_of(chars@)) =~= Seq::<char>::empty());
    assert(file_content_final@ =~= joined(ls.drop_first()));
    if version_major == VERSION_CURRENT_MAJOR {
        match parse(file_content_final.as_str(), file_name) {
            Ok(v) => Ok(v),
            Err(err) => Err(CreateVideoFromFileError::ParseError {
                file_version: (version_major, version_minor),
                parser_version: (VERSION_CURRENT_MAJOR, VERSION_CURRENT_MINOR),
                parser_error: err,
            }),
        }
    } else {
        Err(CreateVideoFromFileError::NoParserForVersion((version_major, version_minor)))
    }
}

} // verus!
