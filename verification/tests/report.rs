use cbmp_rs::report::{to_error_stream, Level, Notice};
use cbmp_rs::text::{chars_of, decimal_text, same_text, string_of};

#[test]
fn format_puts_the_label_in_colour() {
    assert_eq!(cbmp_rs::report::format(Level::Info, "hello", true), "\x1b[34m[INFO]\x1b[0m hello\n");
    assert_eq!(cbmp_rs::report::format(Level::Task, "icons", true), "\x1b[34m[TASK]\x1b[0m icons\n");
    assert_eq!(cbmp_rs::report::format(Level::Done, "ok", true), "\x1b[32m[DONE]\x1b[0m ok\n");
    assert_eq!(cbmp_rs::report::format(Level::Warn, "careful", true), "\x1b[33m[WARN]\x1b[0m careful\n");
    assert_eq!(cbmp_rs::report::format(Level::Error, "broken", true), "\x1b[31m[ERROR]\x1b[0m broken\n");
}

#[test]
fn format_without_newline_leaves_the_line_open() {
    assert_eq!(cbmp_rs::report::format(Level::Info, "Processing item: x.svg ...", false), "\x1b[34m[INFO]\x1b[0m Processing item: x.svg ...");
    assert_eq!(cbmp_rs::report::format(Level::Done, "", true), "\x1b[32m[DONE]\x1b[0m \n");
    assert_eq!(cbmp_rs::report::format(Level::Done, "", false), "\x1b[32m[DONE]\x1b[0m ");
}

#[test]
fn only_errors_go_to_the_error_stream() {
    assert!(to_error_stream(Level::Error));
    assert!(!to_error_stream(Level::Info));
    assert!(!to_error_stream(Level::Task));
    assert!(!to_error_stream(Level::Done));
    assert!(!to_error_stream(Level::Warn));
}

#[test]
fn notice_renders_as_format_does() {
    let notice = Notice { level: Level::Warn, message: "No SVG files found in: a".to_string(), newline: true };
    assert_eq!(notice.render(), cbmp_rs::report::format(Level::Warn, "No SVG files found in: a", true));
}

#[test]
fn decimal_text_writes_numbers() {
    assert_eq!(decimal_text(0), "0");
    assert_eq!(decimal_text(7), "7");
    assert_eq!(decimal_text(10), "10");
    assert_eq!(decimal_text(309), "309");
    assert_eq!(decimal_text(1234567890), "1234567890");
    assert_eq!(decimal_text(usize::MAX), usize::MAX.to_string());
}

#[test]
fn text_goes_to_characters_and_back() {
    assert_eq!(chars_of("ab✓"), vec!['a', 'b', '✓']);
    assert_eq!(chars_of(""), Vec::<char>::new());
    assert_eq!(string_of(&vec!['a', 'b', '✓']), "ab✓");
    assert_eq!(string_of(&chars_of("päth/x.svg")), "päth/x.svg");
}

#[test]
fn same_text_compares_characters() {
    assert!(same_text("dir", "dir"));
    assert!(same_text("", ""));
    assert!(!same_text("dir", "dirs"));
    assert!(!same_text("dir", "out"));
    assert!(!same_text("dir", "Dir"));
}
