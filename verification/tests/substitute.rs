use cbmp_rs::substitute::{apply, replace_chars, Color};

fn chars(s: &str) -> Vec<char> {
    s.chars().collect()
}

fn replaced(text: &str, pattern: &str, replacement: &str) -> String {
    replace_chars(&chars(text), &chars(pattern), &chars(replacement)).into_iter().collect()
}

#[test]
fn apply_without_rules_is_identity() {
    let rules: Vec<Color> = Vec::new();
    assert_eq!(apply("<svg fill=\"#00FF00\"/>", &rules), "<svg fill=\"#00FF00\"/>");
    assert_eq!(apply("", &rules), "");
    assert_eq!(apply("päth → ✓", &rules), "päth → ✓");
}

#[test]
fn apply_later_rule_sees_earlier_output() {
    let rules = vec![Color::new("a", "b"), Color::new("b", "c")];
    assert_eq!(apply("a", &rules), "c");
}

#[test]
fn apply_is_order_sensitive() {
    let forward = vec![Color::new("a", "b"), Color::new("b", "c")];
    let backward = vec![Color::new("b", "c"), Color::new("a", "b")];
    assert_eq!(apply("ab", &forward), "cc");
    assert_eq!(apply("ab", &backward), "bc");
}

#[test]
fn apply_in_two_parts_is_apply_of_the_whole() {
    let whole = vec![Color::new("#00FF00", "#ff0000"), Color::new("ff", "00"), Color::new("0", "1")];
    let first = vec![Color::new("#00FF00", "#ff0000")];
    let second = vec![Color::new("ff", "00"), Color::new("0", "1")];
    let text = "<path fill=\"#00FF00\" stroke=\"#0000FF\"/>";
    assert_eq!(apply(&apply(text, &first), &second), apply(text, &whole));
    assert_eq!(apply(text, &whole), "<path fill=\"#111111\" stroke=\"#1111FF\"/>");
}

#[test]
fn apply_replaces_every_occurrence() {
    let rules = vec![Color::new("#00FF00", "#123456")];
    assert_eq!(
        apply("<a fill=\"#00FF00\"/><b fill=\"#00FF00\"/><c fill=\"#00ff00\"/>", &rules),
        "<a fill=\"#123456\"/><b fill=\"#123456\"/><c fill=\"#00ff00\"/>"
    );
}

#[test]
fn apply_without_match_changes_nothing() {
    let rules = vec![Color::new("#abcdef", "#000000")];
    assert_eq!(apply("<svg fill=\"#00FF00\"/>", &rules), "<svg fill=\"#00FF00\"/>");
}

#[test]
fn apply_is_literal() {
    let rules = vec![Color::new(".*", "x"), Color::new("[a]", "y")];
    assert_eq!(apply("a.*b[a]", &rules), "axby");
}

#[test]
fn replace_does_not_overlap() {
    assert_eq!(replaced("aaa", "aa", "b"), "ba");
    assert_eq!(replaced("aaaa", "aa", "b"), "bb");
    assert_eq!(replaced("ababa", "aba", "x"), "xba");
}

#[test]
fn replace_does_not_rescan_what_it_wrote() {
    assert_eq!(replaced("ab", "a", "aa"), "aab");
    assert_eq!(replaced("aa", "a", "ba"), "baba");
}

#[test]
fn replace_empty_pattern_stands_between_all_characters() {
    assert_eq!(replaced("abc", "", "-"), "-a-b-c-");
    assert_eq!(replaced("", "", "-"), "-");
    assert_eq!(replaced("", "a", "-"), "");
}

#[test]
fn replace_by_nothing_deletes() {
    assert_eq!(replaced("a-b-c", "-", ""), "abc");
}

#[test]
fn replace_pattern_longer_than_text() {
    assert_eq!(replaced("ab", "abc", "x"), "ab");
    assert_eq!(replaced("abc", "abc", "x"), "x");
}

#[test]
fn replace_agrees_with_the_standard_library() {
    let texts = ["", "a", "aaa", "abcabc", "<svg fill=\"#fff\" stroke=\"#fff\"/>", "ünïcödé ü", "xxyxxyxx"];
    let rules = [("", "-"), ("a", ""), ("a", "aa"), ("aa", "a"), ("abc", "x"), ("#fff", "#000000"), ("ü", "ue"), ("xx", "x"), ("xyx", "")];
    for text in texts {
        for (pattern, replacement) in rules {
            assert_eq!(replaced(text, pattern, replacement), text.replace(pattern, replacement));
        }
    }
}

#[test]
fn color_duplicate_says_the_same() {
    let rule = Color::new("#111", "#222");
    let copy = rule.duplicate();
    assert_eq!(copy.match_color, "#111");
    assert_eq!(copy.replace, "#222");
    assert_eq!(apply("#111", &vec![copy]), "#222");
}
