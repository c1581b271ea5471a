use rusty_editor::interactive::{split_line, read_command, CliLine};
use rusty_editor::numbers::decimal_string;
use rusty_editor::files::file_handler::CreateVideoFromFileError;
use rusty_editor::files::parser_general::ParserError;
use rusty_editor::quick_commands_worker::{refresh_completions, apply_completion, QctCompletions, QctReceived, QctSendable, QctWorker};
use rusty_editor::assets::AssetsManager;
use rusty_editor::cli::{Action, ArgProblem, CustomArgs};
use rusty_editor::content::{GenericContentData, Text, TextType};
use rusty_editor::curve::{Curve, CurveData};
use rusty_editor::draw_mode::{
    EditorWindowHandlerDrawMode, EditorWindowLayoutContentSDrawMode, EditorWindowSettings,
};
use rusty_editor::draw_mode::EditorWindowLayoutContentSDrawMode::{Normal, TypePreview};
use rusty_editor::numbers::{parse_decimal, parse_uint, IntParseError};
use rusty_editor::paths::push_path;
use rusty_editor::quick_commands::{
    aspect_ratio_result, command_panics, completion_listing, completions, exec_command,
    frames_added, EditingPartAbstract, QctCommand, QctOutcome,
};
use rusty_editor::video::{VideoChangesWrapWith, VideoTypeChanges, VideoTypeChanges_List, VideoTypeEnum};

fn strings(v: &[&str]) -> Vec<String> {
    v.iter().map(|s| s.to_string()).collect()
}

fn constant_text(c: &Curve) -> Option<String> {
    match c {
        Curve::Owned(d) => match &**d {
            CurveData::Constant(n) => Some(n.text.clone()),
            _ => None,
        },
        _ => None,
    }
}

fn done(o: QctOutcome) -> Result<Vec<QctCommand>, String> {
    match o {
        QctOutcome::Done(r) => r,
        _ => panic!("expected a finished command"),
    }
}

fn added_content(cmds: &[QctCommand]) -> &VideoTypeEnum {
    assert_eq!(cmds.len(), 1);
    match &cmds[0] {
        QctCommand::ApplyChanges(c) => match &c.video {
            Some(VideoTypeChanges::List(l)) => {
                assert_eq!(l.len(), 1);
                match &l[0] {
                    VideoTypeChanges_List::Insert(0, v) => v.content(),
                    _ => panic!("expected an insert at the front"),
                }
            }
            _ => panic!("expected list changes"),
        },
        _ => panic!("expected changes"),
    }
}

#[test]
fn unsigned_numbers_like_std() {
    assert_eq!(parse_decimal("123", 1000), Ok(123));
    assert_eq!(parse_decimal("+7", 1000), Ok(7));
    assert_eq!(parse_decimal("", 1000), Err(IntParseError::Empty));
    assert_eq!(parse_decimal("+", 1000), Err(IntParseError::InvalidDigit));
    assert_eq!(parse_decimal("-1", 1000), Err(IntParseError::InvalidDigit));
    assert_eq!(parse_decimal("1001", 1000), Err(IntParseError::PosOverflow));
    assert_eq!(parse_uint::<u8>("255"), Ok(255u8));
    assert_eq!(parse_uint::<u8>("256"), Err(IntParseError::PosOverflow));
    assert_eq!(parse_uint::<u32>("4294967295"), Ok(u32::MAX));
    assert_eq!(parse_uint::<u64>("18446744073709551616"), Err(IntParseError::PosOverflow));
    assert_eq!(IntParseError::Empty.message(), "cannot parse integer from empty string");
    assert_eq!(IntParseError::PosOverflow.message(), "number too large to fit in target type");
}

#[test]
fn paths_push_like_pathbuf() {
    let mut p = "/a".to_string();
    push_path(&mut p, "b");
    assert_eq!(p, "/a/b");
    push_path(&mut p, "");
    assert_eq!(p, "/a/b/");
    push_path(&mut p, "c");
    assert_eq!(p, "/a/b/c");
    push_path(&mut p, "/root");
    assert_eq!(p, "/root");
    let mut e = String::new();
    push_path(&mut e, "x");
    assert_eq!(e, "x");
}

#[test]
fn arguments_are_grouped_by_option() {
    let args = strings(&["prog", "loose", "--proj-path", "/p.txt", "--action", "Exit", "x"]);
    let g = CustomArgs::group_args(&args);
    assert_eq!(g, vec![strings(&["proj-path", "/p.txt"]), strings(&["action", "Exit", "x"])]);
    // the first group is taken for the program's name unless it still starts with "--"
    let g = CustomArgs::group_args(&strings(&["--a", "--b"]));
    assert_eq!(g, vec![strings(&["b"])]);
    let g = CustomArgs::group_args(&strings(&["----a", "--b"]));
    assert_eq!(g, vec![strings(&["--a"]), strings(&["b"])]);
    assert!(CustomArgs::group_args(&strings(&["prog"])).is_empty());
}

#[test]
fn arguments_are_read() {
    let args = strings(&[
        "prog",
        "--proj-path",
        "/p.txt",
        "--action",
        "ExportProjectToFrames",
        "--export-options",
        "/out",
        "640",
        "480",
        "+30",
    ]);
    let a = CustomArgs::read_from_args(&args).ok().unwrap();
    assert_eq!(a.project_path, Some("/p.txt".to_string()));
    assert_eq!(a.action, Some(Action::ExportProjectToFrames));
    let e = a.export_options.unwrap();
    assert_eq!((e.output_path.as_str(), e.width, e.height, e.frames), ("/out", 640, 480, 30));
    assert_eq!(Action::OpenProjectInGui.name(), "OpenProjectInGui");

    let none = CustomArgs::read_from_args(&strings(&["prog"])).ok().unwrap();
    assert!(none.project_path.is_none() && none.action.is_none() && none.export_options.is_none());
}

#[test]
fn argument_problems() {
    let err = |v: &[&str]| CustomArgs::read_from_args(&strings(v)).err().unwrap();
    assert!(matches!(err(&["p", "--proj-path"]), ArgProblem::ProjPathArgs));
    assert!(matches!(err(&["p", "--action", "Exit"]), ArgProblem::InvalidAction(a) if a == "Exit"));
    assert!(matches!(err(&["p", "--action", "a", "b"]), ArgProblem::ActionArgs));
    assert!(matches!(err(&["p", "--export-options", "o", "1", "2"]), ArgProblem::ExportOptionsArgs));
    assert!(matches!(
        err(&["p", "--export-options", "o", "w", "2", "3"]),
        ArgProblem::Width(t, IntParseError::InvalidDigit) if t == "w"
    ));
    // the height's and the frames' problems show the width's text, as the program always did
    assert!(matches!(
        err(&["p", "--export-options", "o", "1", "", "3"]),
        ArgProblem::Height(t, IntParseError::Empty) if t == "1"
    ));
    assert!(matches!(
        err(&["p", "--export-options", "o", "1", "2", "99999999999"]),
        ArgProblem::Frames(t, IntParseError::PosOverflow) if t == "1"
    ));
    assert!(matches!(err(&["p", "--size", "3"]), ArgProblem::InvalidArg(a) if a == "size"));
    // the first problem wins
    assert!(matches!(err(&["p", "--size", "--proj-path"]), ArgProblem::InvalidArg(_)));
}

#[test]
fn default_font_lives_in_the_assets() {
    let mut m = AssetsManager::default();
    assert!(m.assets_path.is_none());
    m.assets_path = Some("/usr/share/editor".to_string());
    assert_eq!(m.get_assets_path(), "/usr/share/editor");
    assert_eq!(m.get_default_font_path(), "/usr/share/editor/fonts/FiraSans-Regular.ttf");
    assert_eq!(
        AssetsManager::get_default_font_path_from_assets_path(&"a/".to_string()),
        "a/fonts/FiraSans-Regular.ttf"
    );
}

#[test]
fn transitions_between_draw_modes() {
    let preview = TypePreview { moving: false };
    assert_eq!(EditorWindowSettings::default().switch_modes_duration, 250_000_000);

    let mut m = EditorWindowHandlerDrawMode::Static(Normal);
    m.start_transition(preview, 100, 1000);
    assert_eq!(m, EditorWindowHandlerDrawMode::Transition(Normal, preview, 1000, 100));

    // cutting off: the running transition's target is the new start
    let mut c = m;
    c.start_transition(Normal, 100, 1030);
    assert_eq!(c, EditorWindowHandlerDrawMode::Transition(preview, Normal, 1030, 100));

    // going back: the new transition is as far along as the old one had come (30 of 100)
    let mut r = m;
    r.start_transition_allow_reverse(Normal, 100, 1030);
    assert_eq!(r, EditorWindowHandlerDrawMode::Transition(preview, Normal, 960, 100));

    // a finished transition reverses from the start
    let mut f = m;
    f.start_transition_allow_reverse(Normal, 50, 5000);
    assert_eq!(f, EditorWindowHandlerDrawMode::Transition(preview, Normal, 5000, 50));
}

#[test]
fn simple_quick_commands() {
    assert!(matches!(done(exec_command(&"deselect editing".to_string())).ok().unwrap()[..], [QctCommand::UnsetEditing]));
    assert!(matches!(done(exec_command(&"edit  3".to_string())).ok().unwrap()[..], [QctCommand::SetEditingTo(3)]));
    assert_eq!(done(exec_command(&"edit x".to_string())).err().unwrap(), "edit x <- not a number");
    assert_eq!(done(exec_command(&"edit".to_string())).err().unwrap(), "edit [num]");
    assert_eq!(done(exec_command(&"hello".to_string())).err().unwrap(), "hello (?)");
    assert!(command_panics(&"add ".to_string()));
    assert!(command_panics(&"wrap".to_string()));
    assert!(!command_panics(&"wrap list".to_string()));
}

#[test]
fn add_quick_commands() {
    let r = done(exec_command(&"add LIST".to_string())).ok().unwrap();
    assert!(matches!(added_content(&r), VideoTypeEnum::List(l) if l.is_empty()));
    let r = done(exec_command(&"add img /pics/a.png".to_string())).ok().unwrap();
    assert!(matches!(added_content(&r), VideoTypeEnum::Image(i) if i.path() == "/pics/a.png"));
    let r = done(exec_command(&"add ffmpeg".to_string())).ok().unwrap();
    assert!(matches!(added_content(&r), VideoTypeEnum::Ffmpeg(f) if f.path().is_empty()));
    assert!(matches!(exec_command(&"add vid /frames".to_string()), QctOutcome::ListFrames(d) if d == "/frames"));
    assert_eq!(
        done(exec_command(&"add movie x".to_string())).err().unwrap(),
        "add movie x <- expected list/effect/img/vid/ffmpeg"
    );
}

#[test]
fn wrap_quick_commands() {
    let r = done(exec_command(&"wrap list".to_string())).ok().unwrap();
    assert!(matches!(&r[..], [QctCommand::ApplyChanges(c)] if matches!(c.wrap, Some(VideoChangesWrapWith::List))));
    assert!(matches!(
        exec_command(&"wrap aspect_ratio 16:9".to_string()),
        QctOutcome::ReadAspectRatio(a, b) if a == "16" && b == "9"
    ));
    assert_eq!(
        done(exec_command(&"wrap aspect_ratio 16".to_string())).err().unwrap(),
        "wrap type 'aspect_ratio' requires an aspect ratio specified as [width]:[height]."
    );
    assert_eq!(done(exec_command(&"wrap Circle".to_string())).err().unwrap(), "Invalid wrap type: 'circle'");

    let r = aspect_ratio_result("16".to_string(), "9".to_string(), None, None).ok().unwrap();
    match &r[..] {
        [QctCommand::ApplyChanges(c)] => match &c.wrap {
            Some(VideoChangesWrapWith::AspectRatio(w, h)) => {
                assert_eq!(constant_text(w), Some("16".to_string()));
                assert_eq!(constant_text(h), Some("9".to_string()));
            }
            _ => panic!("expected an aspect ratio"),
        },
        _ => panic!("expected one change"),
    }
    assert_eq!(
        aspect_ratio_result("a".to_string(), "9".to_string(), Some("bad".to_string()), None).err().unwrap(),
        "height 'a' could not be parsed: bad"
    );
    assert_eq!(
        aspect_ratio_result("a".to_string(), "b".to_string(), Some("e1".to_string()), Some("e2".to_string()))
            .err()
            .unwrap(),
        "width 'a' and height 'b' could not be parsed: e1 | e2"
    );
}

#[test]
fn frames_listing_results() {
    let r = frames_added("/f".to_string(), Ok(strings(&["2.png", "1.png"]))).ok().unwrap();
    match added_content(&r) {
        VideoTypeEnum::Raw(v) => {
            assert_eq!(v.get_length(), 2);
            assert_eq!(v.frame(0).path(), "/f/1.png");
            assert_eq!(v.crop(), (0, 0, true));
        }
        _ => panic!("expected frames"),
    }
    assert_eq!(
        frames_added("/f".to_string(), Err("not found".to_string())).err().unwrap(),
        "Could not create video: not found"
    );
}

#[test]
fn completions_for_each_step() {
    let list = EditingPartAbstract::List { length: 0 };
    let none = EditingPartAbstract::NotEditing;
    let empty: Vec<(String, Option<String>)> = vec![];
    assert_eq!(completions(1, &"des".to_string(), &list, &empty), strings(&["deselect editing"]));
    assert!(completions(1, &"des".to_string(), &none, &empty).is_empty());
    assert_eq!(completions(2, &"ed".to_string(), &none, &empty), strings(&["edit [num]"]));
    assert_eq!(completions(2, &"edit 4".to_string(), &none, &empty), strings(&["edit 4"]));
    assert_eq!(
        completions(3, &"wrap ".to_string(), &list, &empty),
        strings(&["wrap [mode]", "wrap list", "wrap aspect_ratio"])
    );
    assert_eq!(completions(3, &"wrap aspect_ratio ".to_string(), &list, &empty), strings(&["wrap aspect_ratio [w]:[h]"]));
    assert_eq!(
        completions(4, &"add i".to_string(), &list, &empty),
        strings(&["add img"])
    );
    assert_eq!(completions(4, &"add img".to_string(), &list, &empty), strings(&["add img", "add img [path]"]));
    let entries = vec![
        ("/d/apple.png".to_string(), Some("apple.png".to_string())),
        ("/d/banana.png".to_string(), Some("banana.png".to_string())),
    ];
    assert_eq!(completions(4, &"add img /d/a".to_string(), &list, &entries), strings(&["add img /d/apple.png"]));
    assert_eq!(completions(9, &"te".to_string(), &none, &empty), strings(&["test"]));
}

#[test]
fn completion_listing_names_the_directory() {
    assert_eq!(completion_listing(&"add img /d/a".to_string()), Some(Some("/d".to_string())));
    assert_eq!(completion_listing(&"add Vid x".to_string()), Some(Some(String::new())));
    assert_eq!(completion_listing(&"wrap list".to_string()), Some(None));
    assert_eq!(completion_listing(&"add list".to_string()), Some(None));
}

#[test]
fn editing_part_of_a_video() {
    let v = rusty_editor::video::Video::new_full(rusty_editor::video::VideoType::new(
        VideoTypeEnum::List(vec![]),
        GenericContentData::new(),
    ));
    let e = EditingPartAbstract::from(&v);
    assert!(e.is_some() && e.is_list());
    assert!(!EditingPartAbstract::NotEditing.is_some());
}

#[test]
fn a_font_needs_font_bytes() {
    let mut t = Text::new(TextType::Static("hi".to_string()), GenericContentData::new());
    assert!(!t.load_font(vec![1, 2, 3]));
    assert!(t.font().is_none());
}

#[test]
fn interactive_lines_are_split_into_parts() {
    assert_eq!(split_line(&"export_frame 0.5 1920 1080 out.png".to_string()), Ok(strings(&["export_frame", "0.5", "1920", "1080", "out.png"])));
    // quotes group words (keeping their spaces); escapes work inside quotes only
    assert_eq!(split_line(&"a \"b c\" d\\n".to_string()), Ok(strings(&["a", "b c", "d\\n"])));
    assert_eq!(split_line(&"export_frame 0.5 1920 1080 \"my out.png\"".to_string()), Ok(strings(&["export_frame", "0.5", "1920", "1080", "my out.png"])));
    assert_eq!(split_line(&"\"x\\\"y\\\\z\\tw\"".to_string()), Ok(strings(&["x\"y\\z\tw"])));
    assert_eq!(split_line(&"a  b".to_string()), Ok(strings(&["a", "", "b"])));
    assert_eq!(split_line(&String::new()), Ok(strings(&[""])));
    assert_eq!(split_line(&"\"\\q\"".to_string()), Err("Invalid backslash escape sequence '\\q'!".to_string()));
}

#[test]
fn interactive_commands_are_read() {
    assert!(matches!(read_command(&strings(&["EXIT"]), false), Ok(CliLine::Exit)));
    match read_command(&strings(&["export_frame", "0.5", "640", "480", "f.png"]), true) {
        Ok(CliLine::Export(t, w, h, p)) => {
            assert_eq!((t.as_str(), w, h, p.as_str()), ("0.5", 640, 480, "f.png"));
        }
        _ => panic!("expected an export"),
    }
    let bad = "Could not parse time, width or height of the video. Example of valid input: \"0.0 1920 1080\"";
    assert_eq!(read_command(&strings(&["export_frame", "x", "640", "480", "f.png"]), false).err(), Some((bad.to_string(), false)));
    assert_eq!(read_command(&strings(&["export_frame", "1", "-640", "480", "f.png"]), true).err(), Some((bad.to_string(), false)));
    assert_eq!(
        read_command(&strings(&["export_frame", "1"]), true).err(),
        Some(("export_frame requires 4 arguments: time, width, height, and output path.".to_string(), false))
    );
    assert_eq!(
        read_command(&strings(&["Jump"]), true).err(),
        Some(("Command 'Jump' was not recognized!".to_string(), false))
    );
}

#[test]
fn numbers_are_written_in_decimal() {
    assert_eq!(decimal_string(0), "0");
    assert_eq!(decimal_string(7), "7");
    assert_eq!(decimal_string(1200), "1200");
    assert_eq!(decimal_string(u32::MAX), "4294967295");
}

#[test]
fn file_errors_have_messages() {
    assert_eq!(
        CreateVideoFromFileError::NoParserForVersion((3, 14)).message(),
        "CreateVideoFromFileError: There is no parser for version 3.14. (Upgrading from old file versions is not supported yet, sorry.)"
    );
    assert_eq!(
        CreateVideoFromFileError::CouldNotDecodeMajorVersion(IntParseError::InvalidDigit).message(),
        "CreateVideoFromFileError: Could not decode major version: invalid digit found in string"
    );
    assert_eq!(
        CreateVideoFromFileError::ParseError {
            file_version: (0, 0),
            parser_version: (0, 10),
            parser_error: ParserError::UnexpectedEOF
        }
        .message(),
        "CreateVideoFromFileError: ParserError [0.0 in 0.10]: (Unexpected EOF (end of file)!)"
    );
}

#[test]
fn worker_offers_completions_step_by_step() {
    let vid = rusty_editor::video::Video::new_full(rusty_editor::video::VideoType::new(
        VideoTypeEnum::List(vec![]),
        GenericContentData::new(),
    ));
    let mut w = QctWorker::new(Some(0));
    assert!(matches!(w.receive(QctSendable::SetQuery("e".to_string())), QctReceived::Nothing));
    assert!(matches!(w.update(&vid), Some(QctCompletions::Clear)));
    let mut sent: Vec<QctCompletions> = vec![QctCompletions::Clear];
    while w.is_processing() {
        let listing = w.listing();
        assert_eq!(listing, Some(None));
        sent.extend(w.process(&vec![]));
    }
    // step 2 offers "edit [num]"; nothing else starts with "e"
    assert_eq!(w.possible_commands(), &strings(&["edit [num]"]));
    let mut editor = strings(&["old"]);
    let cmds = refresh_completions(&mut editor, sent);
    assert!(cmds.is_empty());
    assert_eq!(&editor, w.possible_commands());
    // running the first completion
    match w.receive(QctSendable::ExecQuery(Some(0))) {
        QctReceived::Exec(c) => assert_eq!(c, "edit [num]"),
        _ => panic!("expected a command to run"),
    }
    assert!(matches!(w.receive(QctSendable::ExecQuery(Some(5))), QctReceived::Nothing));
    assert!(matches!(w.receive(QctSendable::Stop), QctReceived::Stop));
    let m = QctWorker::exec_result(Err("edit [num]".to_string()));
    assert!(matches!(m, Some(QctCompletions::Command(QctCommand::SetQueryTo(q))) if q == "edit [num]"));
    assert!(QctWorker::exec_result(Ok(vec![])).is_none());
}

#[test]
fn editor_completions_follow_the_messages() {
    let mut c: Vec<String> = vec![];
    let mut cmds: Vec<QctCommand> = vec![];
    apply_completion(&mut c, &mut cmds, QctCompletions::SetEntry(2, "x".to_string()));
    assert_eq!(c, strings(&["", "", "x"]));
    apply_completion(&mut c, &mut cmds, QctCompletions::SetEntry(0, "y".to_string()));
    assert_eq!(c, strings(&["y", "", "x"]));
    apply_completion(&mut c, &mut cmds, QctCompletions::Command(QctCommand::UnsetEditing));
    apply_completion(&mut c, &mut cmds, QctCompletions::Commands(vec![QctCommand::SetEditingTo(4)]));
    assert!(matches!(cmds[..], [QctCommand::UnsetEditing, QctCommand::SetEditingTo(4)]));
    apply_completion(&mut c, &mut cmds, QctCompletions::Clear);
    assert!(c.is_empty());
}

#[test]
fn finished_transitions_settle() {
    let preview = TypePreview { moving: true };
    let mut m = EditorWindowHandlerDrawMode::Transition(Normal, preview, 1000, 100);
    assert!(!m.settle(1100));
    assert_eq!(m, EditorWindowHandlerDrawMode::Transition(Normal, preview, 1000, 100));
    assert!(m.settle(1101));
    assert_eq!(m, EditorWindowHandlerDrawMode::Static(preview));
    assert!(m.settle(0));
    let mut z = EditorWindowHandlerDrawMode::Transition(preview, Normal, 50, 0);
    assert!(!z.settle(50));
    assert!(z.settle(51));
    assert_eq!(z, EditorWindowHandlerDrawMode::Static(Normal));
}
