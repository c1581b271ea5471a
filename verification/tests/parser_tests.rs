use rusty_editor::curve::{Curve, CurveData};
use rusty_editor::files::file_handler::{read_from_string, CreateVideoFromFileError};
use rusty_editor::files::parser_general::ParserError;
use rusty_editor::files::parser_v0::{
    parse, parse_path, parse_string, parse_vid, parse_vid_curve, parse_vid_f64, parse_vid_int,
    parse_vid_to_next_semicolon, parse_vid_to_next_semicolon_errors, parse_vid_video,
};
use rusty_editor::numbers::IntParseError;
use rusty_editor::strings::CharStream;
use rusty_editor::types::Color;
use rusty_editor::video::{CompositingMethod, PosAlign, VideoTypeEnum};
use rusty_editor::content::TextType;
use rusty_editor::effect::effects::{EffectsEnum, Blur_Mode, ColorKey_Mode};

fn rest(chars: &mut CharStream) -> String {
    let mut s = String::new();
    while let Some(c) = chars.next() {
        s.push(c);
    }
    s
}

fn constant_text(c: &Curve) -> Option<String> {
    match c {
        Curve::Owned(d) => match &**d {
            CurveData::Constant(n) => Some(n.text.clone()),
            _ => None,
        },
        _ => None,
    }
}

#[test]
fn semicolon_drops_blanks_and_counts() {
    let mut chars = CharStream::new(" 1 2\t;rest");
    let (r, counts) = parse_vid_to_next_semicolon("x".to_string(), &mut chars);
    assert_eq!(r, Ok("x12".to_string()));
    assert_eq!(counts, (2, 3));
    assert_eq!(rest(&mut chars), "rest");
}

#[test]
fn semicolon_missing_gives_err_with_text() {
    let mut chars = CharStream::new("a b");
    let (r, counts) = parse_vid_to_next_semicolon(String::new(), &mut chars);
    assert_eq!(r, Err("ab".to_string()));
    assert_eq!(counts, (2, 1));
}

#[test]
fn semicolon_errors_variant_reports_eof() {
    let mut chars = CharStream::new("12");
    assert!(matches!(parse_vid_to_next_semicolon_errors(String::new(), &mut chars), Err(ParserError::UnexpectedEOF)));
    assert!(chars.is_empty());
    assert_eq!(chars.next(), None);
}

#[test]
fn int_parses_and_reports_errors() {
    let mut chars = CharStream::new("42;255;256;x;");
    assert_eq!(parse_vid_int::<u32>(&mut chars).ok(), Some(42));
    assert_eq!(parse_vid_int::<u8>(&mut chars).ok(), Some(255));
    match parse_vid_int::<u8>(&mut chars) {
        Err(ParserError::ParseIntError(t, e)) => {
            assert_eq!(t, "256");
            assert_eq!(e, IntParseError::PosOverflow);
        }
        _ => panic!("expected an overflow"),
    }
    match parse_vid_int::<u8>(&mut chars) {
        Err(ParserError::ParseIntError(t, e)) => {
            assert_eq!(t, "x");
            assert_eq!(e, IntParseError::InvalidDigit);
        }
        _ => panic!("expected an invalid digit"),
    }
}

#[test]
fn number_keeps_its_text() {
    let mut chars = CharStream::new(" -0.25 ;");
    let n = parse_vid_f64(&mut chars).ok().unwrap();
    assert_eq!(n.text, "-0.25");
}

#[test]
fn string_reads_escapes() {
    let mut chars = CharStream::new("a\\nb\\\\c\\td\\q\\!after");
    let s = parse_string(&mut chars).ok().unwrap();
    assert_eq!(s, "a\nb\\c\td\\q");
    assert_eq!(rest(&mut chars), "after");
}

#[test]
fn string_without_end_is_eof() {
    let mut chars = CharStream::new("abc\\");
    assert!(matches!(parse_string(&mut chars), Err(ParserError::UnexpectedEOF)));
}

#[test]
fn string_escaped_round_trip() {
    let text = "back\\slash\nnew line\ttab!";
    let mut written = String::new();
    for c in text.chars() {
        match c {
            '\\' => written.push_str("\\\\"),
            '\n' => written.push_str("\\n"),
            '\t' => written.push_str("\\t"),
            c => written.push(c),
        }
    }
    written.push_str("\\!tail");
    let mut chars = CharStream::new(&written);
    assert_eq!(parse_string(&mut chars).ok().unwrap(), text);
    assert_eq!(rest(&mut chars), "tail");
}

#[test]
fn path_is_built_from_components() {
    let mut chars = CharStream::new("home/user/file.png\\x");
    assert_eq!(parse_path(&mut chars).ok().unwrap(), "/home/user/file.png");
    assert_eq!(rest(&mut chars), "x");
    let mut chars = CharStream::new("a//b/\\");
    assert_eq!(parse_path(&mut chars).ok().unwrap(), "/a/b");
    let mut chars = CharStream::new("\\");
    assert_eq!(parse_path(&mut chars).ok().unwrap(), "/");
}

#[test]
fn curves_of_every_kind() {
    let mut chars = CharStream::new("  0.5;");
    assert_eq!(constant_text(&parse_vid_curve(&mut chars).ok().unwrap()), Some("0.5".to_string()));
    let mut chars = CharStream::new("/1;2;");
    match parse_vid_curve(&mut chars).ok().unwrap() {
        Curve::Owned(d) => match *d {
            CurveData::Linear(a, b) => {
                assert_eq!(constant_text(&a), Some("1".to_string()));
                assert_eq!(constant_text(&b), Some("2".to_string()));
            }
            _ => panic!("expected a linear curve"),
        },
        _ => panic!("expected an owned curve"),
    }
    let mut chars = CharStream::new("#+0;1;+0.5;s2;3;#");
    match parse_vid_curve(&mut chars).ok().unwrap() {
        Curve::Owned(d) => match *d {
            CurveData::Chain(v) => {
                assert_eq!(v.len(), 2);
                assert_eq!(v[0].1.text, "0");
                assert_eq!(constant_text(&v[0].0), Some("1".to_string()));
                assert_eq!(v[1].1.text, "0.5");
                assert!(matches!(&v[1].0, Curve::Owned(d) if matches!(&**d, CurveData::SmoothFlat(_, _))));
            }
            _ => panic!("expected a chain"),
        },
        _ => panic!("expected an owned curve"),
    }
    let mut chars = CharStream::new("!usr/bin/prog\\");
    match parse_vid_curve(&mut chars).ok().unwrap() {
        Curve::Owned(d) => match *d {
            CurveData::Program(p, _) => assert_eq!(p.path(), "/usr/bin/prog"),
            _ => panic!("expected a program"),
        },
        _ => panic!("expected an owned curve"),
    }
}

#[test]
fn curve_with_unknown_character_fails() {
    let mut chars = CharStream::new("x");
    assert!(matches!(parse_vid_curve(&mut chars), Err(ParserError::InvalidCurveIdentifier('x'))));
    let mut chars = CharStream::new("   ");
    assert!(matches!(parse_vid_curve(&mut chars), Err(ParserError::UnexpectedEOF)));
}

#[test]
fn color_needs_r_and_four_curves() {
    let mut chars = CharStream::new("r1;0.5;0;1;");
    match Color::parse(&mut chars).ok().unwrap() {
        Color::RGBA(r, g, b, a) => {
            assert_eq!(constant_text(&r), Some("1".to_string()));
            assert_eq!(constant_text(&g), Some("0.5".to_string()));
            assert_eq!(constant_text(&b), Some("0".to_string()));
            assert_eq!(constant_text(&a), Some("1".to_string()));
        }
    }
    let mut chars = CharStream::new("q");
    assert!(matches!(Color::parse(&mut chars), Err(ParserError::Todo)));
}

#[test]
fn video_with_all_settings() {
    let mut chars = CharStream::new("pos:+0.5;0.5;1;1;start:2;length:3;compositing:*video:Image:img.png\\:rest");
    let v = parse_vid(&mut chars).ok().unwrap();
    assert!(matches!(v.set_pos.align, PosAlign::Center));
    assert_eq!(constant_text(&v.set_pos.x), Some("0.5".to_string()));
    assert_eq!(v.set_start_frame.text, "2");
    assert_eq!(v.set_length.text, "3");
    assert!(matches!(v.compositing, Some(CompositingMethod::TransparencySupport)));
    match v.content() {
        VideoTypeEnum::Image(img) => assert_eq!(img.path(), "/img.png"),
        _ => panic!("expected an image"),
    }
    assert_eq!(rest(&mut chars), "rest");
}

#[test]
fn video_defaults_when_settings_are_missing() {
    let mut chars = CharStream::new("video:List:;:");
    let v = parse_vid(&mut chars).ok().unwrap();
    assert!(matches!(v.set_pos.align, PosAlign::TopLeft));
    assert_eq!(constant_text(&v.set_pos.x), Some("0.0".to_string()));
    assert_eq!(constant_text(&v.set_pos.w), Some("1.0".to_string()));
    assert_eq!(v.set_start_frame.text, "0.0");
    assert_eq!(v.set_length.text, "1.0");
    assert!(v.compositing.is_none());
    assert!(matches!(v.content(), VideoTypeEnum::List(l) if l.is_empty()));
}

#[test]
fn video_errors() {
    let mut chars = CharStream::new(":");
    assert!(matches!(parse_vid(&mut chars), Err(ParserError::MissingVideoInfoKey(k)) if k == "video"));
    let mut chars = CharStream::new("size:");
    assert!(matches!(parse_vid(&mut chars), Err(ParserError::InvalidVideoInfoKey(k)) if k == "size"));
    let mut chars = CharStream::new("pos:x");
    assert!(matches!(parse_vid(&mut chars), Err(ParserError::InvalidPosAlignment('x'))));
    let mut chars = CharStream::new("compositing:?");
    assert!(matches!(parse_vid(&mut chars), Err(ParserError::InvalidCompositingMode('?'))));
    let mut chars = CharStream::new("video:Movie:");
    assert!(matches!(parse_vid(&mut chars), Err(ParserError::InvalidVideoType(t)) if t == "Movie"));
    let mut chars = CharStream::new("pos");
    assert!(matches!(parse_vid(&mut chars), Err(ParserError::UnexpectedEOF)));
}

#[test]
fn nested_videos_and_effects() {
    let text = "List:+video:WithEffect:video:Image:a\\:Blur:Square:2;:+video:AspectRatio:16;9;video:VidUsingFfmpeg:v.mp4\\::;";
    let mut chars = CharStream::new(text);
    let t = parse_vid_video(&mut chars).ok().unwrap();
    match &t.vt {
        VideoTypeEnum::List(l) => {
            assert_eq!(l.len(), 2);
            match l[0].content() {
                VideoTypeEnum::WithEffect(inner, e) => {
                    assert!(matches!(inner.content(), VideoTypeEnum::Image(_)));
                    assert!(matches!(&e.effect, EffectsEnum::Blur(b) if matches!(b.mode, Blur_Mode::Square { .. })));
                }
                _ => panic!("expected an effect"),
            }
            match l[1].content() {
                VideoTypeEnum::AspectRatio(inner, w, h) => {
                    assert_eq!(constant_text(w), Some("16".to_string()));
                    assert_eq!(constant_text(h), Some("9".to_string()));
                    assert!(matches!(inner.content(), VideoTypeEnum::Ffmpeg(f) if f.path() == "/v.mp4"));
                }
                _ => panic!("expected an aspect ratio"),
            }
        }
        _ => panic!("expected a list"),
    }
}

#[test]
fn effect_errors() {
    let mut chars = CharStream::new("WithEffect:video:List:;:Glow:");
    assert!(matches!(parse_vid_video(&mut chars), Err(ParserError::UnknownEffect(e)) if e == "Glow"));
    let mut chars = CharStream::new("WithEffect:video:List:;:Blur:Round:");
    match parse_vid_video(&mut chars) {
        Err(ParserError::EffectParseError { effect_identifier, custom_error }) => {
            assert_eq!(effect_identifier, "Blur");
            assert_eq!(custom_error, "Blur mode 'Round' does not exist! Try Square (Curve) or Downscale (Curve + Curve)");
        }
        _ => panic!("expected an effect error"),
    }
    let mut chars = CharStream::new("WithEffect:video:List:;:ColorKey:rgb_rng:1;2;3;4;5;6;");
    match parse_vid_video(&mut chars).ok().unwrap().vt {
        VideoTypeEnum::WithEffect(_, e) => match e.effect {
            EffectsEnum::ColorKey(k) => {
                assert!(matches!(k.mode, ColorKey_Mode::TransparentIfRange(((1, 2), (3, 4), (5, 6)))))
            }
            _ => panic!("expected a color key"),
        },
        _ => panic!("expected an effect"),
    }
}

#[test]
fn text_records_font_file_and_color() {
    let mut chars = CharStream::new("Text:fonts/a.ttf\\0;r1;1;1;1;sHello\\!");
    let t = parse_vid_video(&mut chars).ok().unwrap();
    match &t.vt {
        VideoTypeEnum::Text(text) => {
            assert!(matches!(text.text(), TextType::Static(s) if s == "Hello"));
            assert_eq!(text.font_file, Some(("/fonts/a.ttf".to_string(), 0)));
            assert!(text.font().is_none());
        }
        _ => panic!("expected a text"),
    }
    let mut chars = CharStream::new("Text:f\\0;r1;1;1;1;z");
    assert!(matches!(parse_vid_video(&mut chars), Err(ParserError::InvalidTextType('z'))));
}

#[test]
fn frames_directory_crop() {
    let mut chars = CharStream::new("VidFromImagesInDirectory:frames\\3+10;");
    match parse_vid_video(&mut chars).ok().unwrap().vt {
        VideoTypeEnum::Raw(v) => {
            assert_eq!(v.get_dir(), "/frames");
            assert_eq!(v.crop(), (3, 10, true));
            assert_eq!(v.get_length(), 0);
        }
        _ => panic!("expected frames"),
    }
    let mut chars = CharStream::new("VidFromImagesInDirectory:frames\\310;");
    assert!(matches!(parse_vid_video(&mut chars), Err(ParserError::VideoFileFailedToParseStartOrEndFrame(_))));
    let mut chars = CharStream::new("VidFromImagesInDirectory:frames\\a-1;");
    assert!(matches!(parse_vid_video(&mut chars), Err(ParserError::ParseIntError(t, _)) if t == "a"));
}

#[test]
fn project_needs_both_sections_once() {
    let p = parse("proj:vid:video:List:;:", &"/x/p.txt".to_string()).ok().unwrap();
    assert_eq!(p.proj.name, "doesn't_matter");
    assert_eq!(p.proj.path, Some("/x/p.txt".to_string()));
    assert!(matches!(p.vid().content(), VideoTypeEnum::List(_)));
    assert!(matches!(parse("proj:", &String::new()), Err(ParserError::MissingIdentifier(i)) if i == "vid"));
    assert!(matches!(parse("vid:video:List:;:", &String::new()), Err(ParserError::MissingIdentifier(i)) if i == "proj"));
    assert!(matches!(parse("proj:proj:", &String::new()), Err(ParserError::DoubleDefinitionOf(i)) if i == "proj"));
    assert!(matches!(parse("project:", &String::new()), Err(ParserError::InvalidIdentifier(i)) if i == "project"));
}

#[test]
fn error_messages() {
    assert_eq!(ParserError::UnexpectedEOF.message(), "Unexpected EOF (end of file)!");
    assert_eq!(
        ParserError::InvalidIdentifier("x".to_string()).message(),
        "Invalid identifier: 'x' was not 'proj' or 'vid'."
    );
    assert_eq!(
        ParserError::ParseIntError("q".to_string(), IntParseError::InvalidDigit).message(),
        "Failed to parse 'q' into an int. Err: invalid digit found in string"
    );
}

#[test]
fn file_with_version_and_indented_lines() {
    let contents = "0.0\n  proj:\n\tvid:video:\r\n   List:;:\n";
    let p = read_from_string(contents, &"/p".to_string()).ok().unwrap();
    assert!(matches!(p.vid().content(), VideoTypeEnum::List(l) if l.is_empty()));
}

#[test]
fn file_version_errors() {
    assert!(matches!(read_from_string("", &String::new()), Err(CreateVideoFromFileError::NoFirstLine)));
    assert!(matches!(read_from_string("0\nproj:", &String::new()), Err(CreateVideoFromFileError::CouldNotDecodeVersion)));
    assert!(matches!(
        read_from_string("a.0\n", &String::new()),
        Err(CreateVideoFromFileError::CouldNotDecodeMajorVersion(IntParseError::InvalidDigit))
    ));
    assert!(matches!(
        read_from_string("0.\n", &String::new()),
        Err(CreateVideoFromFileError::CouldNotDecodeMinorVersion(IntParseError::Empty))
    ));
    assert!(matches!(read_from_string("1.0\n", &String::new()), Err(CreateVideoFromFileError::VersionTooNewMajor)));
    assert!(matches!(read_from_string("0.1\n", &String::new()), Err(CreateVideoFromFileError::VersionTooNewMinor)));
    match read_from_string("0.0\nproj:", &String::new()) {
        Err(CreateVideoFromFileError::ParseError { file_version, parser_version, parser_error }) => {
            assert_eq!(file_version, (0, 0));
            assert_eq!(parser_version, (0, 0));
            assert!(matches!(parser_error, ParserError::MissingIdentifier(i) if i == "vid"));
        }
        _ => panic!("expected a parse error"),
    }
}

#[test]
fn image_is_a_path() {
    let mut chars = CharStream::new("Image :home/a.png\\rest");
    match parse_vid_video(&mut chars) {
        Ok(t) => match &t.vt {
            VideoTypeEnum::Image(i) => assert_eq!(i.path(), "/home/a.png"),
            _ => panic!("expected an image"),
        },
        Err(_) => panic!("expected an image"),
    }
    assert_eq!(rest(&mut chars), "rest");
    let mut chars = CharStream::new("Image:a.png;");
    assert!(matches!(parse_vid_video(&mut chars), Err(ParserError::UnexpectedEOF)));
}
