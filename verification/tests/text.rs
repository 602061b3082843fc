use blixt::text::{char_is_white_space, decimal_string, replace, str_equal, trim};

#[test]
fn trim_removes_unicode_white_space_at_both_ends() {
    assert_eq!(trim("  hallo welt \n"), "hallo welt");
    assert_eq!(trim("\u{3000}\u{a0}x\u{2009}"), "x");
    assert_eq!(trim(" \t\r\n "), "");
    assert_eq!(trim(""), "");
    assert_eq!(trim("a b"), "a b");
    for s in ["  x ", "\u{85}ü\u{2028}", "   "] {
        assert_eq!(trim(s), s.trim());
    }
}

#[test]
fn white_space_matches_std() {
    for c in ['\t', ' ', '\u{85}', '\u{a0}', '\u{1680}', '\u{200a}', '\u{3000}', 'a', '\u{200b}', '\u{feff}'] {
        assert_eq!(char_is_white_space(c), c.is_whitespace());
    }
}

#[test]
fn decimal_numbers() {
    assert_eq!(decimal_string(0), "0");
    assert_eq!(decimal_string(7), "7");
    assert_eq!(decimal_string(404), "404");
    assert_eq!(decimal_string(65535), "65535");
    assert_eq!(decimal_string(u64::MAX), u64::MAX.to_string());
}

#[test]
fn replace_all_occurrences() {
    assert_eq!(
        replace("http://localhost:8765/v1", "localhost", "127.0.0.1"),
        "http://127.0.0.1:8765/v1"
    );
    assert_eq!(replace("aaa", "aa", "b"), "ba");
    assert_eq!(replace("llocalhostlocalhost", "localhost", "127.0.0.1"), "l127.0.0.1127.0.0.1");
    assert_eq!(replace("ü-ü", "ü", "ue"), "ue-ue");
    assert_eq!(replace("none", "x", "y"), "none");
}

#[test]
fn string_equality() {
    assert!(str_equal("openai", "openai"));
    assert!(!str_equal("openai", "OpenAI"));
    assert!(!str_equal("ä", "a"));
    assert!(str_equal("", ""));
}
