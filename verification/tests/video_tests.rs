use rusty_editor::tree_edit::{apply_changes_checked, apply_changes_to_part};
use rusty_editor::effect::effects::{BlackWhite, ColorKey};
use rusty_editor::content::{GenericContentData, Image, InputVideo, TextType};
use rusty_editor::curve::{Curve, CurveData, Number, SharedCurves};
use rusty_editor::effect::effects::ColorKey_Mode;
use rusty_editor::image_buffer::{composite_images, RgbaImage};
use rusty_editor::useful::{get_elem_from_index_recursive, get_elem_from_index_recursive_mut, CharOrAction, MightBeRef};
use rusty_editor::video::{
    composite_pixels_transparency_support, CompositingMethod, PosAlign, Video, VideoChanges,
    VideoChangesReplaceWith, VideoChangesWrapWith, VideoType, VideoTypeChanges,
    VideoTypeChanges_List, VideoTypeEnum,
};

fn image_video(path: &str) -> Video {
    Video::new_full(VideoType::new(
        VideoTypeEnum::Image(Image::new(path.to_string())),
        GenericContentData::new(),
    ))
}

fn list_video(items: Vec<Video>) -> Video {
    Video::new_full(VideoType::new(VideoTypeEnum::List(items), GenericContentData::new()))
}

fn image_path(v: &Video) -> String {
    match v.content() {
        VideoTypeEnum::Image(i) => i.path().clone(),
        _ => panic!("expected an image"),
    }
}

fn list_paths(v: &Video) -> Vec<String> {
    match v.content() {
        VideoTypeEnum::List(l) => l.iter().map(image_path).collect(),
        _ => panic!("expected a list"),
    }
}

fn constant_text(c: &Curve) -> Option<String> {
    match c {
        Curve::Owned(d) => match &**d {
            CurveData::Constant(n) => Some(n.text.clone()),
            _ => None,
        },
        _ => None,
    }
}

#[test]
fn new_full_covers_the_parent() {
    let v = image_video("/a.png");
    assert!(matches!(v.set_pos.align, PosAlign::Center));
    assert_eq!(constant_text(&v.set_pos.x), Some("0.5".to_string()));
    assert_eq!(constant_text(&v.set_pos.y), Some("0.5".to_string()));
    assert_eq!(constant_text(&v.set_pos.w), Some("1.0".to_string()));
    assert_eq!(constant_text(&v.set_pos.h), Some("1.0".to_string()));
    assert_eq!(v.set_start_frame.text, "0.0");
    assert_eq!(v.set_length.text, "1.0");
    assert!(!v.has_changes());
}

#[test]
fn settings_changes_are_applied_and_cleared() {
    let mut v = image_video("/a.png");
    let mut c = VideoChanges::none();
    c.pos = Some((Some(Curve::constant("0.25")), None, None, Some(Curve::constant("0.5"))));
    c.start = Some(Number::from_text("3"));
    v.set_changes(c);
    assert!(v.has_changes());
    assert!(v.apply_changes());
    assert!(!v.has_changes());
    assert_eq!(constant_text(&v.set_pos.x), Some("0.25".to_string()));
    assert_eq!(constant_text(&v.set_pos.y), Some("0.5".to_string()));
    assert_eq!(constant_text(&v.set_pos.h), Some("0.5".to_string()));
    assert_eq!(v.set_start_frame.text, "3");
    assert_eq!(v.set_length.text, "1.0");
    // nothing left to apply
    assert!(!v.apply_changes());
}

#[test]
fn wrap_in_list_and_aspect_ratio() {
    let mut v = image_video("/a.png");
    let mut c = VideoChanges::none();
    c.wrap = Some(VideoChangesWrapWith::List);
    v.set_changes(c);
    // wrapping alone does not count as a change in the result
    assert!(!v.apply_changes());
    assert_eq!(list_paths(&v), vec!["/a.png".to_string()]);

    let mut c = VideoChanges::none();
    c.wrap = Some(VideoChangesWrapWith::AspectRatio(Curve::constant("16"), Curve::constant("9")));
    v.set_changes(c);
    assert!(!v.apply_changes());
    match v.content() {
        VideoTypeEnum::AspectRatio(inner, w, h) => {
            assert_eq!(constant_text(w), Some("16".to_string()));
            assert_eq!(constant_text(h), Some("9".to_string()));
            assert_eq!(list_paths(inner), vec!["/a.png".to_string()]);
        }
        _ => panic!("expected an aspect ratio"),
    }
}

#[test]
fn replace_image_with_text_and_list_with_aspect_ratio() {
    let mut v = image_video("/a.png");
    let mut c = VideoChanges::none();
    c.replace = Some(VideoChangesReplaceWith::Text);
    v.set_changes(c);
    assert!(v.apply_changes());
    match v.content() {
        VideoTypeEnum::Text(t) => assert!(matches!(t.text(), TextType::Static(s) if s == "/a.png")),
        _ => panic!("expected a text"),
    }

    let mut v = list_video(vec![image_video("/x"), image_video("/y"), image_video("/z")]);
    let mut c = VideoChanges::none();
    c.replace = Some(VideoChangesReplaceWith::AspectRatio);
    v.set_changes(c);
    assert!(v.apply_changes());
    match v.content() {
        VideoTypeEnum::AspectRatio(inner, w, h) => {
            assert_eq!(image_path(inner), "/x");
            assert_eq!(constant_text(w), Some("1.0".to_string()));
            assert_eq!(constant_text(h), Some("1.0".to_string()));
        }
        _ => panic!("expected an aspect ratio"),
    }

    // replacing with the same kind changes nothing
    let mut v = image_video("/a.png");
    let mut c = VideoChanges::none();
    c.replace = Some(VideoChangesReplaceWith::Image);
    v.set_changes(c);
    assert!(!v.apply_changes());
    assert_eq!(image_path(&v), "/a.png");
}

#[test]
fn list_changes_in_order() {
    let mut v = list_video(vec![image_video("/a"), image_video("/b"), image_video("/c")]);
    let mut c = VideoChanges::none();
    c.video = Some(VideoTypeChanges::List(vec![
        VideoTypeChanges_List::Swap(0, 2),
        VideoTypeChanges_List::Push(image_video("/d")),
        VideoTypeChanges_List::Move(0, 3),
        VideoTypeChanges_List::Insert(1, image_video("/e")),
        VideoTypeChanges_List::Remove(2),
        VideoTypeChanges_List::Replace(0, image_video("/f")),
    ]));
    v.set_changes(c);
    assert!(v.apply_changes());
    // [c b a] -> [c b a d] -> [d c b a] -> [d e c b a] -> [d e b a] -> [f e b a]
    assert_eq!(list_paths(&v), vec!["/f", "/e", "/b", "/a"]);
}

#[test]
fn list_change_reaches_a_child() {
    let mut v = list_video(vec![image_video("/a"), image_video("/b")]);
    let mut inner = VideoChanges::none();
    inner.length = Some(Number::from_text("7"));
    let mut c = VideoChanges::none();
    c.video = Some(VideoTypeChanges::List(vec![VideoTypeChanges_List::Change(1, inner)]));
    v.set_changes(c);
    assert!(v.apply_changes());
    match v.content() {
        VideoTypeEnum::List(l) => {
            assert_eq!(l[0].set_length.text, "1.0");
            assert_eq!(l[1].set_length.text, "7");
        }
        _ => panic!("expected a list"),
    }
}

#[test]
fn change_type_replaces_the_content() {
    let mut v = image_video("/a");
    let mut c = VideoChanges::none();
    c.video = Some(VideoTypeChanges::ChangeType(VideoTypeEnum::List(vec![])));
    v.set_changes(c);
    assert!(v.apply_changes());
    assert!(matches!(v.content(), VideoTypeEnum::List(l) if l.is_empty()));
}

#[test]
fn clone_keeps_the_tree() {
    let v = list_video(vec![image_video("/a"), list_video(vec![image_video("/b")])]);
    let c = v.clone_no_caching();
    match c.content() {
        VideoTypeEnum::List(l) => {
            assert_eq!(l.len(), 2);
            assert_eq!(image_path(&l[0]), "/a");
            assert_eq!(list_paths(&l[1]), vec!["/b"]);
        }
        _ => panic!("expected a list"),
    }
}

#[test]
fn children_and_preorder_index() {
    let v = list_video(vec![
        list_video(vec![image_video("/a"), image_video("/b")]),
        image_video("/c"),
    ]);
    assert_eq!(v.children().len(), 2);
    assert_eq!(image_video("/x").children().len(), 0);

    let mut i: u32 = 0;
    assert!(std::ptr::eq(get_elem_from_index_recursive(&v, &mut i).unwrap(), &v));
    let mut i: u32 = 2;
    assert_eq!(image_path(get_elem_from_index_recursive(&v, &mut i).unwrap()), "/a");
    assert_eq!(i, 0);
    let mut i: u32 = 4;
    assert_eq!(image_path(get_elem_from_index_recursive(&v, &mut i).unwrap()), "/c");
    let mut i: u32 = 9;
    assert!(get_elem_from_index_recursive(&v, &mut i).is_none());
    // five videos in the tree: the index went down by four
    assert_eq!(i, 5);
}

#[test]
fn transparency_blends_by_alpha() {
    let mut below = [100, 0, 255, 7];
    composite_pixels_transparency_support(&mut below, &[200, 255, 0, 255]);
    assert_eq!(below, [200, 255, 0, 255]);
    let mut below = [100, 0, 255, 7];
    composite_pixels_transparency_support(&mut below, &[200, 255, 0, 0]);
    assert_eq!(below, [100, 0, 255, 255]);
    let mut below = [100, 0, 255, 7];
    composite_pixels_transparency_support(&mut below, &[200, 255, 0, 128]);
    // (100*127 + 200*128)/255 = 150, (255*128)/255 = 128, (255*127)/255 = 127
    assert_eq!(below, [150, 128, 127, 255]);
}

#[test]
fn images_are_drawn_at_their_position() {
    let mut dest = RgbaImage::filled(3, 2, [0, 0, 0, 255]);
    let src = RgbaImage::filled(2, 2, [10, 20, 30, 0]);
    composite_images(&mut dest, &src, (2, 1), &CompositingMethod::Direct);
    assert_eq!(dest.rows[1][2], [10, 20, 30, 0]);
    assert_eq!(dest.rows[0][2], [0, 0, 0, 255]);
    assert_eq!(dest.rows[1][1], [0, 0, 0, 255]);

    let mut dest = RgbaImage::filled(2, 2, [0, 0, 0, 0]);
    composite_images(&mut dest, &src, (-1, 0), &CompositingMethod::Opaque);
    assert_eq!(dest.rows[0][0], [10, 20, 30, 255]);
    assert_eq!(dest.rows[1][1], [0, 0, 0, 0]);

    let mut dest = RgbaImage::filled(2, 2, [1, 2, 3, 4]);
    composite_images(&mut dest, &src, (0, 0), &CompositingMethod::Ignore);
    assert_eq!(dest.rows[0][0], [1, 2, 3, 4]);
}

#[test]
fn color_key_makes_matching_pixels_transparent() {
    let m = ColorKey_Mode::TransparentIfMatches((1, 2, 3));
    assert_eq!(m.get_color([1, 2, 3, 200]), [1, 2, 3, 0]);
    assert_eq!(m.get_color([1, 2, 4, 200]), [1, 2, 4, 200]);
    let m = ColorKey_Mode::TransparentIfRange(((0, 10), (5, 5), (100, 255)));
    assert_eq!(m.get_color([10, 5, 100, 9]), [10, 5, 100, 0]);
    assert_eq!(m.get_color([11, 5, 100, 9]), [11, 5, 100, 9]);
}

#[test]
fn frames_are_sorted_by_name() {
    let v = InputVideo::new_from_directory_full_of_frames(
        "/frames".to_string(),
        (0, 0, false),
        vec!["0003.png".to_string(), "0001.png".to_string(), "0002.png".to_string()],
    );
    assert_eq!(v.get_length(), 3);
    assert_eq!(v.frame(0).path(), "/frames/0001.png");
    assert_eq!(v.frame(2).path(), "/frames/0003.png");
    assert_eq!(v.frame_offset(1), None);
}

#[test]
fn loaded_frames_are_reused_nearby() {
    let names: Vec<String> = (0..5).map(|i| format!("{i}.png")).collect();
    let mut v = InputVideo::new_from_directory_full_of_frames("/f/".to_string(), (0, 0, false), names);
    assert_eq!(v.get_frame(2), 2);
    let offsets: Vec<Option<i8>> = (0..5).map(|i| v.frame_offset(i)).collect();
    assert_eq!(offsets, vec![Some(2), Some(1), Some(0), Some(-1), Some(-2)]);
    assert_eq!(v.get_frame_fast(4, 2), 2);
    assert_eq!(v.get_frame_fast(3, 0), 3);
    assert_eq!(v.frame_offset(3), Some(0));
    assert_eq!(v.frame_offset(4), Some(-1));
    let c = v.clone_no_caching();
    assert_eq!(c.frame_offset(2), None);
    assert_eq!(c.frame(4).path(), "/f/4.png");
}

#[test]
fn loading_the_first_frame_marks_it() {
    let names: Vec<String> = (0..3).map(|i| format!("{i}.png")).collect();
    let mut v = InputVideo::new_from_directory_full_of_frames("/f/".to_string(), (0, 0, false), names);
    assert_eq!(v.get_frame(0), 0);
    let offsets: Vec<Option<i8>> = (0..3).map(|i| v.frame_offset(i)).collect();
    assert_eq!(offsets, vec![Some(0), Some(-1), Some(-2)]);
    assert_eq!(v.get_frame_fast(0, 0), 0);
    assert_eq!(v.get_frame_fast(2, 2), 0);
}

#[test]
fn shared_curves_give_back_what_was_stored() {
    let mut s = SharedCurves::new();
    let a = s.insert(CurveData::Constant(Number::from_text("1")));
    let b = s.insert(CurveData::Constant(Number::from_text("2")));
    assert_ne!(a, b);
    assert_eq!((a, b), (0, 1));
    assert!(matches!(s.get(&a), Some(CurveData::Constant(n)) if n.text == "1"));
    assert!(matches!(s.get(&b), Some(CurveData::Constant(n)) if n.text == "2"));
    assert!(s.get(&(a + b + 1)).is_none());

    let mut c = Curve::constant("5");
    c.to_shared(&mut s);
    assert!(!c.is_owned());
    match &c {
        Curve::Shared(id, _) => assert!(matches!(s.get(id), Some(CurveData::Constant(n)) if n.text == "5")),
        _ => panic!("expected a shared curve"),
    }
}

#[test]
fn small_helpers() {
    let x = 5;
    assert_eq!(*MightBeRef::Ref(&x).get_ref(), 5);
    assert_eq!(*MightBeRef::Owned(6).get_ref(), 6);
    assert_eq!(CharOrAction::from(&'\r'), CharOrAction::Enter);
    assert_eq!(CharOrAction::from(&'\x7F'), CharOrAction::Delete);
    assert_eq!(CharOrAction::from(&'q'), CharOrAction::Char('q'));
}

#[test]
fn changes_reach_the_numbered_part() {
    let mut v = list_video(vec![list_video(vec![image_video("/a"), image_video("/b")]), image_video("/c")]);
    let mut c = VideoChanges::none();
    c.length = Some(Number::from_text("9"));
    assert_eq!(apply_changes_to_part(&mut v, 3, c), Some(true));
    match v.content() {
        VideoTypeEnum::List(l) => {
            match l[0].content() {
                VideoTypeEnum::List(inner) => {
                    assert_eq!(inner[0].set_length.text, "1.0");
                    assert_eq!(inner[1].set_length.text, "9");
                }
                _ => panic!("expected a list"),
            }
            assert_eq!(l[1].set_length.text, "1.0");
        }
        _ => panic!("expected a list"),
    }
    let mut c = VideoChanges::none();
    c.length = Some(Number::from_text("2"));
    assert_eq!(apply_changes_to_part(&mut v, 5, c), None);
    let mut c = VideoChanges::none();
    c.start = Some(Number::from_text("4"));
    assert_eq!(apply_changes_to_part(&mut v, 0, c), Some(true));
    assert_eq!(v.set_start_frame.text, "4");
}

#[test]
fn checked_changes_insert_into_lists_only() {
    let mut v = list_video(vec![image_video("/a")]);
    let mut c = VideoChanges::none();
    c.video = Some(VideoTypeChanges::List(vec![VideoTypeChanges_List::Insert(0, image_video("/n"))]));
    assert!(matches!(apply_changes_checked(&mut v, 0, c), Ok(Some(true))));
    match v.content() {
        VideoTypeEnum::List(l) => {
            assert_eq!(l.len(), 2);
            assert!(matches!(l[0].content(), VideoTypeEnum::Image(i) if i.path() == "/n"));
        }
        _ => panic!("expected a list"),
    }
    let mut c = VideoChanges::none();
    c.video = Some(VideoTypeChanges::List(vec![VideoTypeChanges_List::Insert(0, image_video("/m"))]));
    assert!(apply_changes_checked(&mut v, 1, c).is_err());
    let mut c = VideoChanges::none();
    c.length = Some(Number::from_text("3"));
    assert!(matches!(apply_changes_checked(&mut v, 1, c), Ok(Some(true))));
    assert!(matches!(apply_changes_checked(&mut v, 7, VideoChanges::none()), Ok(None)));
}

#[test]
fn effects_change_the_drawn_pixels() {
    let mut img = RgbaImage::filled(2, 1, [10, 20, 31, 200]);
    BlackWhite::new().process_pixels(&mut img);
    assert_eq!(img.rows[0][1], [20, 20, 20, 200]);
    let mut img = RgbaImage::filled(1, 2, [1, 2, 3, 200]);
    img.rows[1][0] = [1, 2, 4, 200];
    ColorKey::new(ColorKey_Mode::TransparentIfMatches((1, 2, 3))).process_pixels(&mut img);
    assert_eq!(img.rows[0][0], [1, 2, 3, 0]);
    assert_eq!(img.rows[1][0], [1, 2, 4, 200]);
}

#[test]
fn a_changed_part_reads_back() {
    let mut v = list_video(vec![image_video("/a"), list_video(vec![image_video("/b")])]);
    let mut c = VideoChanges::none();
    c.replace = Some(VideoChangesReplaceWith::Text);
    assert_eq!(apply_changes_to_part(&mut v, 3, c), Some(true));
    let mut i: u32 = 3;
    match get_elem_from_index_recursive(&v, &mut i).unwrap().content() {
        VideoTypeEnum::Text(t) => assert!(matches!(t.text(), TextType::Static(s) if s == "/b")),
        _ => panic!("expected the part to be a text now"),
    }
    assert_eq!(image_path(get_elem_from_index_recursive(&v, &mut 1).unwrap()), "/a");
}

#[test]
fn a_part_found_for_changing_changes_the_tree() {
    let mut v = list_video(vec![list_video(vec![image_video("/a"), image_video("/b")]), image_video("/c")]);
    let mut i: u32 = 3;
    let part = get_elem_from_index_recursive_mut(&mut v, &mut i).unwrap();
    assert_eq!(image_path(part), "/b");
    part.set_length = Number::from_text("5");
    assert_eq!(i, 0);
    let mut i: u32 = 3;
    assert_eq!(get_elem_from_index_recursive(&v, &mut i).unwrap().set_length.text, "5");
    let mut i: u32 = 8;
    assert!(get_elem_from_index_recursive_mut(&mut v, &mut i).is_none());
    assert_eq!(i, 4);
    let mut i: u32 = 0;
    assert!(matches!(get_elem_from_index_recursive_mut(&mut v, &mut i).unwrap().content(), VideoTypeEnum::List(l) if l.len() == 2));
}
