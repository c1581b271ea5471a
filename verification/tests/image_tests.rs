use rusty_editor::assets::AssetsManager;
use rusty_editor::content::{command_args, replace_text, Image, InputVideo};
use rusty_editor::image_file::{decode_image, ScalingFilter};

fn png_bytes(w: u32, h: u32, raw: Vec<u8>) -> Vec<u8> {
    let img = image::DynamicImage::ImageRgba8(image::RgbaImage::from_raw(w, h, raw).unwrap());
    let mut out = std::io::Cursor::new(Vec::new());
    img.write_to(&mut out, image::ImageOutputFormat::Png).unwrap();
    out.into_inner()
}

fn s(t: &str) -> String {
    t.to_string()
}

#[test]
fn replacing_text_matches_str_replace() {
    let cases = [("a%x%b%x%", "%x%", "1"), ("aaa", "aa", "b"), ("abc", "", "X"), ("", "", "X"), ("", "a", "b"), ("abc", "abcd", "z"), ("xx", "x", "")];
    for (text, pat, with) in cases {
        assert_eq!(replace_text(&s(text), &s(pat), &s(with)), text.replace(pat, with));
    }
    assert_eq!(replace_text(&s("aaa"), &s("aa"), &s("b")), "ba");
    assert_eq!(replace_text(&s("abc"), &s(""), &s("X")), "XaXbXcX");
}

#[test]
fn command_arguments_get_their_placeholders_in_order() {
    let args = vec![s("-w=%w%"), s("%a%%b%"), s("plain")];
    let reps = vec![(s("%w%"), s("640")), (s("%a%"), s("%b%")), (s("%b%"), s("!"))];
    assert_eq!(command_args(&args, &reps), vec![s("-w=640"), s("!!"), s("plain")]);
}

#[test]
fn image_command_sees_the_draw_placeholders() {
    let mut img = Image::new(s("/p/a.png"));
    img.set_draw_replacements(s("0.5"), 10, 20);
    assert!(img.command_to_run().is_none());
    img.set_external_command(
        s("make"),
        vec![s("%d26vid:progress%"), s("%d26vid:imgwidth%x%d26vid:imgheight%"), s("%d26vid:imgpath%")],
    );
    img.set_draw_replacements(s("0.5"), 10, 20);
    assert_eq!(img.command_to_run(), Some((s("make"), vec![s("0.5"), s("10x20"), s("/p/a.png")])));
    assert!(img.needs_load());
}

#[test]
fn decoding_image_bytes() {
    let raw = vec![1, 2, 3, 4, 5, 6, 7, 8];
    let img = decode_image(png_bytes(2, 1, raw)).unwrap();
    assert_eq!((img.width, img.height), (2, 1));
    assert_eq!(img.rows, vec![vec![[1, 2, 3, 4], [5, 6, 7, 8]]]);
    assert!(decode_image(b"not an image".to_vec()).is_none());
}

#[test]
fn image_loads_once_and_keeps_its_scaled_copy() {
    let raw = vec![255, 0, 0, 255, 0, 0, 255, 255];
    let mut img = Image::new(s("/p/a.png"));
    assert!(img.needs_load());
    assert!(img.load_from_bytes(Some(png_bytes(2, 1, raw.clone()))));
    assert!(!img.needs_load());
    assert!(img.needs_rescale(2, 1, ScalingFilter::Nearest));
    assert!(img.can_scale_to(2, 1));
    let same = img.get_img_scaled(2, 1, ScalingFilter::Nearest).unwrap();
    assert_eq!(same.rows, vec![vec![[255, 0, 0, 255], [0, 0, 255, 255]]]);
    assert!(!img.needs_rescale(2, 1, ScalingFilter::Nearest));
    assert!(img.needs_rescale(4, 2, ScalingFilter::Nearest));
    let big = img.get_img_scaled(4, 2, ScalingFilter::Nearest).unwrap();
    let expected = image::imageops::resize(
        &image::RgbaImage::from_raw(2, 1, raw).unwrap(),
        4,
        2,
        image::imageops::FilterType::Nearest,
    );
    assert_eq!((big.width, big.height), (4, 2));
    for y in 0..2u32 {
        for x in 0..4u32 {
            assert_eq!(big.rows[y as usize][x as usize], expected.get_pixel(x, y).0);
        }
    }
    img.set_path(s("/p/b.png"));
    assert!(img.needs_load());
    assert!(img.get_img_scaled(4, 2, ScalingFilter::Nearest).is_none());
}

#[test]
fn failed_loads_are_not_retried() {
    let mut img = Image::new(s("/p/a.png"));
    assert!(!img.load_from_bytes(Some(b"junk".to_vec())));
    assert!(!img.needs_load());
    assert!(img.get_img_scaled(3, 3, ScalingFilter::Triangle).is_none());
    let mut img = Image::new(s("/p/a.png"));
    assert!(!img.load_from_bytes(None));
    assert!(!img.needs_load());
}

#[test]
fn frames_can_be_taken_out_and_put_back() {
    let names: Vec<String> = (0..3).map(|i| format!("{i}.png")).collect();
    let mut v = InputVideo::new_from_directory_full_of_frames(s("/f/"), (0, 0, false), names);
    let mut f = v.take_frame(1);
    assert_eq!(f.path(), "/f/1.png");
    assert_eq!(v.frame(1).path(), "");
    assert!(f.load_from_bytes(Some(png_bytes(1, 1, vec![9, 9, 9, 9]))));
    v.put_frame(1, f);
    assert_eq!(v.frame(1).path(), "/f/1.png");
    assert!(!v.frame(1).needs_load());
}

#[test]
fn default_font_is_read_once() {
    let mut m = AssetsManager::default();
    assert!(!m.default_font_loaded());
    assert!(matches!(m.get_default_font_err(Err(s("no such file"))), Err(e) if e == "no such file"));
    assert!(matches!(m.get_default_font_err(Ok(b"not a font".to_vec())), Ok(None)));
    assert!(!m.default_font_loaded());
}
