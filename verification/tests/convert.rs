use cbmp_rs::convert::{check_size, prepare_markup, ConversionError, ConversionOutcome, ErrorKind};
use cbmp_rs::converter::Converter;
use cbmp_rs::substitute::Color;

const RED_BOX: &str = r##"<svg xmlns="http://www.w3.org/2000/svg" width="4" height="3"><rect width="4" height="3" fill="#ff0000"/></svg>"##;

fn is_png(bytes: &[u8]) -> bool {
    bytes.starts_with(&[0x89, b'P', b'N', b'G', 0x0d, 0x0a, 0x1a, 0x0a])
}

#[test]
fn converter_keeps_its_setting() {
    assert!(Converter::new(true).quiet);
    assert!(!Converter::new(false).quiet);
}

#[test]
fn svg_to_png_makes_a_picture_of_the_documents_size() {
    let bytes = Converter::new(true).svg_to_png(RED_BOX, None).unwrap();
    assert!(is_png(&bytes));
    let picture = tiny_skia::Pixmap::decode_png(&bytes).unwrap();
    assert_eq!(picture.width(), 4);
    assert_eq!(picture.height(), 3);
    let pixel = picture.pixel(1, 1).unwrap();
    assert_eq!((pixel.red(), pixel.green(), pixel.blue(), pixel.alpha()), (255, 0, 0, 255));
}

#[test]
fn svg_to_png_applies_the_rules_before_parsing() {
    let rules = vec![Color::new("#ff0000", "#0000ff")];
    let bytes = Converter::new(true).svg_to_png(RED_BOX, Some(&rules)).unwrap();
    let picture = tiny_skia::Pixmap::decode_png(&bytes).unwrap();
    let pixel = picture.pixel(2, 2).unwrap();
    assert_eq!((pixel.red(), pixel.green(), pixel.blue(), pixel.alpha()), (0, 0, 255, 255));
}

#[test]
fn svg_to_png_rules_can_mend_markup() {
    let broken = RED_BOX.replace("<rect", "<rect BROKEN<");
    assert!(Converter::new(true).svg_to_png(&broken, None).is_err());
    let rules = vec![Color::new(" BROKEN<", "")];
    assert!(Converter::new(true).svg_to_png(&broken, Some(&rules)).is_ok());
}

#[test]
fn svg_to_png_rules_see_each_others_output() {
    let rules = vec![Color::new("#ff0000", "#00ff00"), Color::new("#00ff00", "#0000ff")];
    let bytes = Converter::new(false).svg_to_png(RED_BOX, Some(&rules)).unwrap();
    let picture = tiny_skia::Pixmap::decode_png(&bytes).unwrap();
    let pixel = picture.pixel(0, 0).unwrap();
    assert_eq!((pixel.red(), pixel.green(), pixel.blue()), (0, 0, 255));
}

#[test]
fn svg_to_png_without_rules_is_as_with_none() {
    let none: Vec<Color> = Vec::new();
    let converter = Converter::new(true);
    assert_eq!(converter.svg_to_png(RED_BOX, Some(&none)).unwrap(), converter.svg_to_png(RED_BOX, None).unwrap());
}

#[test]
fn svg_to_png_twice_gives_the_same_bytes() {
    let rules = vec![Color::new("#ff0000", "#123456")];
    let converter = Converter::new(true);
    let first = converter.svg_to_png(RED_BOX, Some(&rules)).unwrap();
    let second = converter.svg_to_png(RED_BOX, Some(&rules)).unwrap();
    assert_eq!(first, second);
}

#[test]
fn svg_to_png_rejects_what_is_no_document() {
    for text in ["", "not markup", "<svg", "<html></html>", "{\"dir\":\"a\"}"] {
        let error = Converter::new(true).svg_to_png(text, None).unwrap_err();
        assert_eq!(error.kind(), ErrorKind::Parse);
        match &error {
            ConversionError::Parse(detail) => assert!(!detail.is_empty()),
            other => panic!("a failure to parse was due, not {:?}", other),
        }
        assert!(error.describe().starts_with("Failed to parse SVG: "));
    }
}

#[test]
fn svg_to_png_refuses_a_document_without_size() {
    let tiny = r#"<svg xmlns="http://www.w3.org/2000/svg" width="0.5" height="0.5"><rect width="1" height="1"/></svg>"#;
    let error = Converter::new(true).svg_to_png(tiny, None).unwrap_err();
    assert_eq!(error.kind(), ErrorKind::RasterAlloc);
    let flat = r#"<svg xmlns="http://www.w3.org/2000/svg" width="8" height="0.9"><rect width="1" height="1"/></svg>"#;
    let error = Converter::new(true).svg_to_png(flat, None).unwrap_err();
    assert_eq!(error.kind(), ErrorKind::RasterAlloc);
}

#[test]
fn svg_to_png_cuts_the_size_down_to_whole_pixels() {
    let odd = r#"<svg xmlns="http://www.w3.org/2000/svg" width="5.9" height="2.1"><rect width="6" height="3"/></svg>"#;
    let bytes = Converter::new(true).svg_to_png(odd, None).unwrap();
    let picture = tiny_skia::Pixmap::decode_png(&bytes).unwrap();
    assert_eq!((picture.width(), picture.height()), (5, 2));
}

#[test]
fn prepare_markup_applies_the_rules() {
    let rules = vec![Color::new("a", "b"), Color::new("b", "c")];
    assert_eq!(prepare_markup("a", Some(&rules)), "c");
    assert_eq!(prepare_markup("a", None), "a");
    assert_eq!(prepare_markup(RED_BOX, None), RED_BOX);
}

#[test]
fn check_size_wants_width_and_height() {
    assert!(check_size(1, 1).is_ok());
    assert!(check_size(4096, 1).is_ok());
    assert_eq!(check_size(0, 1).unwrap_err().kind(), ErrorKind::RasterAlloc);
    assert_eq!(check_size(1, 0).unwrap_err().kind(), ErrorKind::RasterAlloc);
    assert_eq!(check_size(0, 0).unwrap_err().kind(), ErrorKind::RasterAlloc);
}

#[test]
fn conversion_errors_in_words() {
    assert_eq!(ConversionError::Read("no such file".to_string()).describe(), "Failed to read SVG file: no such file");
    assert_eq!(ConversionError::Parse("bad tag".to_string()).describe(), "Failed to parse SVG: bad tag");
    assert_eq!(ConversionError::RasterAlloc.describe(), "Failed to create pixmap");
    assert_eq!(ConversionError::Render("gave up".to_string()).describe(), "Failed to render SVG: gave up");
    assert_eq!(ConversionError::Write("disk full".to_string()).describe(), "Failed to save PNG: disk full");
    assert_eq!(ConversionError::Write(String::new()).describe(), "Failed to save PNG");
}

#[test]
fn conversion_error_kinds() {
    assert_eq!(ConversionError::Read(String::new()).kind(), ErrorKind::Read);
    assert_eq!(ConversionError::Parse(String::new()).kind(), ErrorKind::Parse);
    assert_eq!(ConversionError::RasterAlloc.kind(), ErrorKind::RasterAlloc);
    assert_eq!(ConversionError::Render(String::new()).kind(), ErrorKind::Render);
    assert_eq!(ConversionError::Write(String::new()).kind(), ErrorKind::Write);
}

#[test]
fn outcome_of_a_result() {
    assert!(matches!(ConversionOutcome::from_result(&Ok(())), ConversionOutcome::Success));
    match ConversionOutcome::from_result(&Err(ConversionError::Parse("bad tag".to_string()))) {
        ConversionOutcome::Failure(message) => assert_eq!(message, "Failed to parse SVG: bad tag"),
        ConversionOutcome::Success => panic!("a failure was due"),
    }
}
