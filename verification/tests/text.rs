use sofka::text::{decimal_string, ellipsize, fill_placeholders, lines, strip_controls};

#[test]
fn short_strings_pass_through() {
    assert_eq!(ellipsize("abc", 3), "abc");
    assert_eq!(ellipsize("", 5), "");
}

#[test]
fn long_strings_end_with_ellipsis_at_max_chars() {
    assert_eq!(ellipsize("abcdef", 4), "abc…");
    assert_eq!(ellipsize("abcdef", 4).chars().count(), 4);
}

#[test]
fn zero_max_is_empty() {
    assert_eq!(ellipsize("abc", 0), "");
}

#[test]
fn multibyte_input_never_panics() {
    // Regression: a byte-sliced truncation panicked when byte 59 fell
    // inside a multi-byte sequence.
    let s = "é".repeat(80);
    assert_eq!(ellipsize(&s, 60).chars().count(), 60);
    assert_eq!(ellipsize("αβγδε", 3), "αβ…");
}

#[test]
fn max_of_one_keeps_only_the_ellipsis() {
    assert_eq!(ellipsize("abc", 1), "…");
    assert_eq!(ellipsize("a", 1), "a");
}

#[test]
fn decimal_writes_numbers_without_leading_zeros() {
    assert_eq!(decimal_string(0), "0");
    assert_eq!(decimal_string(7), "7");
    assert_eq!(decimal_string(10), "10");
    assert_eq!(decimal_string(18446744073709551615), "18446744073709551615");
}

#[test]
fn lines_split_like_str_lines() {
    for s in ["", "a", "a\n", "a\nb", "a\r\nb\r\n", "a\rb", "a\r", "\n\n", "x\r\r\ny", "one: 1\ntwo: 2\n"] {
        let want: Vec<String> = s.lines().map(String::from).collect();
        assert_eq!(lines(s), want, "{s:?}");
    }
}

#[test]
fn control_characters_are_stripped() {
    assert_eq!(strip_controls("a\x1b]9;x\x07b\u{85}c\n"), "a]9;xbc");
    assert_eq!(strip_controls("plain é"), "plain é");
}

#[test]
fn placeholders_are_filled_from_the_row() {
    assert_eq!(fill_placeholders("app={name}", "web", "shop"), "app=web");
    assert_eq!(fill_placeholders("{namespace}/{name}{name}", "a", "b"), "b/aa");
    assert_eq!(fill_placeholders("{nam}{namespace", "a", "b"), "{nam}{namespace");
    assert_eq!(fill_placeholders("é{name}é", "α", "b"), "éαé");
}
