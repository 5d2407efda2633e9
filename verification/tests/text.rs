use youtube_downloader::text::{
    begins_with, char_is_control, char_is_whitespace, char_to_lower, chars_of, decimal_of, find,
    find_char, finishes_with, has, same_text, signed_decimal_of, string_of, to_lowered, trim,
    trim_end_char,
};

fn chars(s: &str) -> Vec<char> {
    s.chars().collect()
}

#[test]
fn strings_and_characters_convert_both_ways() {
    for s in ["", "plain", "Ünïcödé 𝄞 text", "a\0b"] {
        assert_eq!(chars_of(s), chars(s));
        assert_eq!(string_of(&chars(s)), s);
    }
}

#[test]
fn search_finds_the_first_occurrence() {
    let hay = chars("abcabcabc");
    assert_eq!(find(&hay, "bc"), Some(1));
    assert_eq!(find(&hay, "abcabcabc"), Some(0));
    assert_eq!(find(&hay, "abcabcabcd"), None);
    assert_eq!(find(&hay, "cb"), None);
    assert_eq!(find(&hay, ""), Some(0));
    assert_eq!(find(&chars(""), ""), Some(0));
    assert_eq!(find(&chars(""), "a"), None);
    assert_eq!(find_char(&hay, 'c'), Some(2));
    assert_eq!(find_char(&hay, 'd'), None);
    assert!(has(&hay, "cab"));
    assert!(!has(&hay, "ba"));
    assert!(begins_with(&hay, "abca"));
    assert!(!begins_with(&hay, "bca"));
    assert!(finishes_with(&hay, "cabc"));
    assert!(!finishes_with(&hay, "ab"));
    assert!(same_text(&hay, "abcabcabc"));
    assert!(!same_text(&hay, "abcabcab"));
    assert!(!same_text(&hay, "abcabcabd"));
}

#[test]
fn lowering_touches_ascii_capitals_only() {
    assert_eq!(to_lowered(&chars("HeLLo, WÖRLD 123 [Z]@`{")), chars("hello, wÖrld 123 [z]@`{"));
    for code in 0u32..0x250 {
        let c = char::from_u32(code).unwrap();
        assert_eq!(char_to_lower(c), c.to_ascii_lowercase());
    }
}

#[test]
fn character_classes_follow_the_standard_library() {
    for code in 0u32..0x11_0000 {
        if let Some(c) = char::from_u32(code) {
            assert_eq!(char_is_control(c), c.is_control(), "{:x}", code);
            assert_eq!(char_is_whitespace(c), c.is_whitespace(), "{:x}", code);
        }
    }
}

#[test]
fn trimming_follows_the_standard_library() {
    for s in ["", " ", "  a  ", "\t\n a b \r\n", "\u{a0}x\u{3000}", "a", " a", "a ", "\u{85}b\u{2029}"] {
        assert_eq!(string_of(&trim(&chars(s))), s.trim(), "{:?}", s);
    }
    for s in ["", "...", "a...", "a.b.", ". a", "a. ."] {
        assert_eq!(string_of(&trim_end_char(&chars(s), '.')), s.trim_end_matches('.'), "{:?}", s);
    }
}

#[test]
fn decimal_digits() {
    for n in [0u64, 1, 9, 10, 11, 99, 100, 192, 4294967295, u64::MAX] {
        assert_eq!(string_of(&decimal_of(n)), n.to_string());
    }
}

#[test]
fn signed_decimal_digits() {
    for n in [0i32, 1, -1, 42, -42, i32::MAX, i32::MIN] {
        assert_eq!(string_of(&signed_decimal_of(n)), n.to_string());
    }
}

#[test]
fn long_texts_convert_in_reasonable_time() {
    let long = "x".repeat(2_000_000);
    assert_eq!(chars_of(&long).len(), 2_000_000);
}
