//! The lines typed into the interactive command line: split into parts, and read as
//! a command.

use vstd::prelude::*;
use crate::strings::{chars_of, string_from_chars, append_str, string_is};
use crate::numbers::{decimal_value, parse_uint};
use crate::quick_commands::{lowercase, to_lowercase};

verus! {

/// A command typed into the interactive command line.
pub enum CliLine {
    Exit,
    /// Draws the frame at the time written first (a number the caller reads), at the
    /// width and height given, into the image file at the path given.
    Export(String, u32, u32, String),
}

/// The parts of the rest `s` of a line, after the parts `parts` and the part `buf`
/// read so far: parts are separated by spaces outside of quotes; `"` starts and ends
/// a quoted segment, whose spaces are kept; inside one, `\` makes the next
/// character stand for itself (`\\`, `\"`) or for a newline (`\n`) or tab (`\t`);
/// outside one, `\` is an ordinary character. Any other escape is refused, with
/// the message given.
pub open spec fn split_from(
    s: Seq<char>,
    buf: Seq<char>,
    escaped: bool,
    quoted: bool,
    parts: Seq<Seq<char>>,
) -> Result<Seq<Seq<char>>, Seq<char>>
    decreases s.len(),
{
    if s.len() == 0 {
        Ok(parts.push(buf))
    } else {
        let c = s[0];
        let r = s.drop_first();
        if !escaped {
            if c == '\\' {
                if quoted {
                    split_from(r, buf, true, quoted, parts)
                } else {
                    split_from(r, buf.push(c), false, quoted, parts)
                }
            } else if c == '"' {
                split_from(r, buf, false, !quoted, parts)
            } else if c == ' ' {
                if quoted {
                    split_from(r, buf.push(c), false, quoted, parts)
                } else {
                    split_from(r, Seq::empty(), false, quoted, parts.push(buf))
                }
            } else {
                split_from(r, buf.push(c), false, quoted, parts)
            }
        } else if c == '\\' {
            split_from(r, buf.push('\\'), false, quoted, parts)
        } else if c == 'n' {
            split_from(r, buf.push('\n'), false, quoted, parts)
        } else if c == 't' {
            split_from(r, buf.push('\t'), false, quoted, parts)
        } else if c == '"' {
            split_from(r, buf.push('"'), false, quoted, parts)
        } else {
            Err("Invalid backslash escape sequence '\\"@ + seq![c] + "'!"@)
        }
    }
}

/// The parts of the line `line` (see `split_from`).
pub open spec fn line_parts(line: Seq<char>) -> Result<Seq<Seq<char>>, Seq<char>> {
    split_from(line, Seq::empty(), false, false, Seq::empty())
}

pub open spec fn strings_v(v: Seq<String>) -> Seq<Seq<char>> {
    Seq::new(v.len(), |i: int| v[i]@)
}

/// Splits the line `line` into its parts (see `split_from`).
pub fn split_line(line: &String) -> (r: Result<Vec<String>, String>)
    ensures
        match line_parts(line@) {
            Ok(p) => r matches Ok(v) && strings_v(v@) == p,
            Err(m) => r matches Err(e) && e@ == m,
        },
{
    let cs = chars_of(line.as_str());
    let mut parts: Vec<String> = Vec::new();
    let mut buf: Vec<char> = Vec::new();
    let mut escaped = false;
    let mut quoted = false;
    let mut i: usize = 0;
    assert(strings_v(parts@) =~= Seq::<Seq<char>>::empty());
    assert(cs@.skip(0) =~= cs@);
    while i < cs.len()
        invariant
            i <= cs@.len(),
            cs@ == line@,
            line_parts(line@) == split_from(cs@.skip(i as int), buf@, escaped, quoted, strings_v(parts@)),
        decreases cs.len() - i,
    {
        let c = cs[i];
        let ghost s = cs@.skip(i as int);
        assert(s[0] == c);
        assert(s.drop_first() =~= cs@.skip(i + 1));
        let ghost pv = strings_v(parts@);
        if !escaped {
            if c == '\\' {
                if quoted {
                    escaped = true;
                } else {
                    buf.push(c);
                }
            } else if c == '"' {
                quoted = !quoted;
            } else if c == ' ' {
                if !quoted {
                    let part = string_from_chars(&buf);
                    parts.push(part);
                    buf = Vec::new();
                    assert(strings_v(parts@) =~= pv.push(part@));
                } else {
                    buf.push(c);
                }
            } else {
                buf.push(c);
            }
        } else {
            let e: char = if c == '\\' {
                '\\'
            } else if c == 'n' {
                '\n'
            } else if c == 't' {
                '\t'
            } else if c == '"' {
                '"'
            } else {
                let mut m = String::new();
                append_str(&mut m, "Invalid backslash escape sequence '\\");
                m.push(c);
                append_str(&mut m, "'!");
                assert(m@ =~= "Invalid backslash escape sequence '\\"@ + seq![c] + "'!"@);
                return Err(m);
            };
            buf.push(e);
            escaped = false;
        }
        i = i + 1;
    }
    let ghost pv = strings_v(parts@);
    let last = string_from_chars(&buf);
    parts.push(last);
    assert(strings_v(parts@) =~= pv.push(buf@));
    Ok(parts)
}

/// The command that the parts `parts` of a line ask for, given whether the second
/// part can be read as a number (the time); or the message that says why there is
/// none, and whether the command line has to stop.
pub open spec fn line_command(parts: Seq<Seq<char>>, time_ok: bool) -> Result<(Seq<char>, Option<(u32, u32, Seq<char>)>), (Seq<char>, bool)> {
    if parts.len() == 0 {
        Err(("Command was empty"@, false))
    } else {
        let first = lowercase(parts[0]);
        if first == "exit"@ {
            Ok((Seq::empty(), None))
        } else if first == "export_frame"@ || first == "export frame"@ {
            if parts.len() >= 5 {
                match (decimal_value(parts[2], u32::MAX as int), decimal_value(parts[3], u32::MAX as int)) {
                    (Ok(w), Ok(h)) => if time_ok {
                        Ok((parts[1], Some((w as u32, h as u32, parts[4]))))
                    } else {
                        Err(("Could not parse time, width or height of the video. Example of valid input: \"0.0 1920 1080\""@, false))
                    },
                    _ => Err(("Could not parse time, width or height of the video. Example of valid input: \"0.0 1920 1080\""@, false)),
                }
            } else {
                Err(("export_frame requires 4 arguments: time, width, height, and output path."@, false))
            }
        } else {
            Err(("Command '"@ + parts[0] + "' was not recognized!"@, false))
        }
    }
}

/// Reads the parts `parts` of a line as a command (see `line_command`); `time_ok`
/// says whether the second part can be read as a number.
pub fn read_command(parts: &Vec<String>, time_ok: bool) -> (r: Result<CliLine, (String, bool)>)
    ensures
        match line_command(strings_v(parts@), time_ok) {
            Ok((_, None)) => r matches Ok(CliLine::Exit),
            Ok((t, Some((w, h, p)))) => r matches Ok(CliLine::Export(t2, w2, h2, p2)) && t2@ == t && w2 == w && h2 == h
                && p2@ == p,
            Err((m, fatal)) => r matches Err((m2, f2)) && m2@ == m && f2 == fatal,
        },
{
    if parts.len() == 0 {
        return Err(("Command was empty".to_string(), false));
    }
    let first = to_lowercase(parts[0].as_str());
    if string_is(&first, "exit") {
        Ok(CliLine::Exit)
    } else if string_is(&first, "export_frame") || string_is(&first, "export frame") {
        if parts.len() >= 5 {
            let w = parse_uint::<u32>(parts[2].as_str());
            let h = parse_uint::<u32>(parts[3].as_str());
            match (w, h) {
                (Ok(w), Ok(h)) => if time_ok {
                    Ok(CliLine::Export(parts[1].clone(), w, h, parts[4].clone()))
                } else {
                    Err((
                        "Could not parse time, width or height of the video. Example of valid input: \"0.0 1920 1080\"".to_string(),
                        false,
                    ))
                },
                _ => Err((
                    "Could not parse time, width or height of the video. Example of valid input: \"0.0 1920 1080\"".to_string(),
                    false,
                )),
            }
        } else {
            Err(("export_frame requires 4 arguments: time, width, height, and output path.".to_string(), false))
        }
    } else {
        let mut m = String::new();
        append_str(&mut m, "Command '");
        append_str(&mut m, parts[0].as_str());
        append_str(&mut m, "' was not recognized!");
        assert(m@ =~= "Command '"@ + parts@[0]@ + "' was not recognized!"@);
        Err((m, false))
    }
}

} // verus!
