use hoards::text::{split_lines, split_words, str_eq, strip_end, strip_matches, trim_str, usize_to_string};

#[test]
fn words_and_lines() {
    assert_eq!(split_words("  a  bc\td \n"), vec!["a", "bc", "d"]);
    assert!(split_words("   ").is_empty());
    assert_eq!(split_lines("a\r\nb\n\nc"), vec!["a", "b", "", "c"]);
    assert_eq!(split_lines("x\n"), vec!["x"]);
    assert!(split_lines("").is_empty());
}

#[test]
fn trimming_and_stripping() {
    assert_eq!(trim_str("  hi there \n"), "hi there");
    assert_eq!(strip_matches("vv1.2.3::", 'v', ':'), "1.2.3");
    assert_eq!(strip_end("0.19.0]]", ']'), "0.19.0");
    assert!(str_eq("abc", "abc"));
    assert!(!str_eq("abc", "abd"));
}

#[test]
fn decimal_numbers() {
    assert_eq!(usize_to_string(0), "0");
    assert_eq!(usize_to_string(1234567), "1234567");
}

#[test]
fn unicode_white_space_splits_words() {
    assert_eq!(
        split_words("\u{3000}a\u{2028}b\u{85}c\u{a0}d\u{200b}e\u{1680}f\u{202f}g"),
        vec!["a", "b", "c", "d\u{200b}e", "f", "g"]
    );
    assert_eq!(trim_str("\u{2009}\u{205f} x \u{b}\u{c}"), "x");
}
