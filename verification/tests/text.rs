use shai::text::{after_last_slash_of, char_is_white_space, join_with_spaces, str_is_blank, trimmed};

const SAMPLES: [&str; 12] = [
    "",
    "   ",
    "abc",
    "  abc",
    "abc  ",
    " \t a b c \n ",
    "\u{3000}a\u{2003}b\u{85}",
    "\u{200b} x \u{200b}",
    "x",
    " x ",
    "\u{a0}\u{a0}",
    "line one\nline two\n",
];

#[test]
fn white_space_matches_std() {
    for code in 0u32..0x3100 {
        if let Some(c) = char::from_u32(code) {
            assert_eq!(char_is_white_space(c), c.is_whitespace(), "U+{:04X}", code);
        }
    }
    assert!(!char_is_white_space('\u{feff}'));
    assert!(!char_is_white_space('\u{10ffff}'));
}

#[test]
fn trimming_matches_std() {
    for s in SAMPLES {
        assert_eq!(trimmed(s), s.trim(), "{:?}", s);
        assert_eq!(str_is_blank(s), s.trim().is_empty(), "{:?}", s);
    }
}

#[test]
fn blank_iff_trims_to_nothing() {
    for s in SAMPLES {
        assert_eq!(trimmed(s).is_empty(), str_is_blank(s), "{:?}", s);
    }
}

#[test]
fn words_are_joined_with_single_spaces() {
    let words: Vec<String> = vec!["find".into(), "all".into(), "pdf".into(), "files".into()];
    assert_eq!(join_with_spaces(&words), "find all pdf files");
    assert_eq!(join_with_spaces(&vec!["one".to_string()]), "one");
    assert_eq!(join_with_spaces(&Vec::new()), "");
    assert_eq!(join_with_spaces(&vec![" ".to_string(), "".to_string()]), "  ");
}

#[test]
fn text_after_last_slash_matches_rsplit() {
    for s in ["/bin/bash", "/usr/local/bin/zsh", "bash", "", "/", "dir/", "a/b/c"] {
        let expected = s.rsplit('/').next().unwrap_or(s);
        assert_eq!(after_last_slash_of(s), expected, "{:?}", s);
    }
}
