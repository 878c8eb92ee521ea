use kannaka_tui::text::{
    byte_offset, contains, decimal_text, earlier, inserted, is_control, is_white_space, joined, lines, pad_left, pad_right, peeled, removed, replaced, split_char, starts_with, strip_prefix, trimmed, truncate, words,
};

#[test]
fn byte_offset_handles_multibyte() {
    assert_eq!(byte_offset("héllo", 0), 0);
    // 'h'=0, 'é'=bytes 1..3, 'l'=byte 3: char index 2 is byte 3.
    assert_eq!(byte_offset("héllo", 2), 3);
    // Past the end clamps to the byte length (the tail).
    assert_eq!(byte_offset("héllo", 99), "héllo".len());
    assert_eq!(byte_offset("", 0), 0);
}

#[test]
fn character_classes_are_those_of_unicode() {
    for u in 0..=0x10ffffu32 {
        if let Some(c) = char::from_u32(u) {
            assert_eq!(is_white_space(c), c.is_whitespace(), "U+{u:04X}");
            assert_eq!(is_control(c), c.is_control(), "U+{u:04X}");
        }
    }
}

#[test]
fn trimming_goes_by_unicode() {
    assert_eq!(trimmed("\u{3000} a b\u{a0}\n"), "a b");
    assert_eq!(trimmed(" \t"), "");
    assert_eq!(peeled("\"\"a\"b\"", '"'), "a\"b");
    assert_eq!(peeled("\"\"\"", '"'), "");
}

#[test]
fn shortened_text_fits() {
    assert_eq!(truncate("h\u{e9}llo", 5), "h\u{e9}llo");
    assert_eq!(truncate("h\u{e9}llo", 4), "h\u{e9}l\u{2026}");
    assert_eq!(truncate("abc", 1), "\u{2026}");
    assert_eq!(truncate("abc", 0), "\u{2026}");
    assert_eq!(truncate("", 0), "");
}

#[test]
fn lines_words_and_parts() {
    assert_eq!(lines("a\r\nb\n\nc"), vec!["a", "b", "", "c"]);
    assert_eq!(lines("a\n"), vec!["a"]);
    assert!(lines("").is_empty());
    assert_eq!(words("  hear  a\u{3000}b "), vec!["hear", "a", "b"]);
    assert!(words("  ").is_empty());
    assert_eq!(split_char("a\nb\n", '\n'), vec!["a", "b", ""]);
    assert_eq!(split_char("", '\n'), vec![""]);
}

#[test]
fn the_helpers_do_what_std_does() {
    assert_eq!(decimal_text(0), "0");
    assert_eq!(decimal_text(u64::MAX), u64::MAX.to_string());
    assert_eq!(pad_right("ab", 4), "ab  ");
    assert_eq!(pad_left("ab", 4), "  ab");
    assert_eq!(pad_left("abcde", 4), "abcde");
    assert_eq!(replaced("aXbXXc", "X", "--"), "aXbXXc".replace("X", "--"));
    assert_eq!(replaced("aaaa", "aa", "b"), "aaaa".replace("aa", "b"));
    assert_eq!(strip_prefix("/code x", "/code "), Some("x".to_string()));
    assert_eq!(strip_prefix("/cod", "/code "), None);
    assert!(starts_with("abc", ""));
    assert!(contains("xyz", "yz") && !contains("xyz", "zy"));
    assert_eq!(inserted("h\u{e9}o", 2, "ll"), "h\u{e9}llo");
    assert_eq!(removed("h\u{e9}o", 1), "ho");
    let parts = vec!["a".to_string(), "b".to_string()];
    assert_eq!(joined(&parts, " \u{b7} "), "a \u{b7} b");
    for (a, b) in [("a", "b"), ("a", "ab"), ("", "a"), ("\u{ff}", "\u{100}"), ("Z", "a"), ("\u{ffff}", "\u{10000}")] {
        assert_eq!(earlier(a, b), a < b);
        assert_eq!(earlier(b, a), b < a);
    }
    assert!(!earlier("same", "same"));
}

#[test]
fn byte_offsets_are_boundaries() {
    let s = "a\u{e9}\u{20ac}\u{1f310}z";
    for i in 0..8 {
        assert!(s.is_char_boundary(byte_offset(s, i)));
    }
    assert_eq!(byte_offset(s, 3), 6);
    assert_eq!(byte_offset(s, 4), 10);
}
