use pot::text::{chars_of, string_of, trim_chars, white_space};

#[test]
fn white_space_is_unicode_white_space() {
    for c in [' ', '\t', '\n', '\r', '\u{0B}', '\u{0C}', '\u{85}', '\u{A0}', '\u{1680}', '\u{2000}', '\u{200A}', '\u{2028}', '\u{2029}', '\u{202F}', '\u{205F}', '\u{3000}'] {
        assert!(white_space(c), "{:?}", c);
        assert!(c.is_whitespace());
    }
    for c in ['a', '+', '\u{200B}', '\u{FEFF}', '\u{180E}', '0'] {
        assert_eq!(white_space(c), c.is_whitespace(), "{:?}", c);
    }
}

#[test]
fn trims_like_str_trim() {
    for text in ["  a b  ", "\u{3000}x\u{2003}", "", "   ", "ab", "\u{200B}a"] {
        let cs = chars_of(text);
        assert_eq!(trim_chars(&cs), text.trim());
    }
}

#[test]
fn slices_of_characters() {
    let cs = chars_of("añb+c");
    assert_eq!(cs, vec!['a', 'ñ', 'b', '+', 'c']);
    assert_eq!(string_of(&cs, 1, 3), "ñb");
    assert_eq!(string_of(&cs, 2, 2), "");
}
