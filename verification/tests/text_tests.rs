use lightweight_charts_backend::text::{char_is_whitespace, split_whitespace, str_eq, trim_str};

#[test]
fn split_whitespace_gives_words_in_order() {
    assert_eq!(split_whitespace("  close >\t ema \n"), vec!["close", ">", "ema"]);
    assert_eq!(split_whitespace(""), Vec::<String>::new());
    assert_eq!(split_whitespace("   "), Vec::<String>::new());
    assert_eq!(split_whitespace("a\u{3000}b"), vec!["a", "b"]);
}

#[test]
fn trim_removes_unicode_whitespace_at_both_ends() {
    assert_eq!(trim_str("  rsi \t"), "rsi");
    assert_eq!(trim_str("\u{A0}x y\u{2003}"), "x y");
    assert_eq!(trim_str("   "), "");
}

#[test]
fn whitespace_matches_std() {
    for c in ['\t', '\n', ' ', '\u{85}', '\u{A0}', '\u{1680}', '\u{2000}', '\u{200A}', '\u{3000}', 'a', '_', '\u{200B}'] {
        assert_eq!(char_is_whitespace(c), c.is_whitespace());
    }
}

#[test]
fn str_eq_compares_contents() {
    assert!(str_eq("open", "open"));
    assert!(!str_eq("open", "Open"));
}
