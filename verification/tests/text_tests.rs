use framelet::text::char_is_whitespace;
use framelet::text::str_is_blank;

#[test]
fn whitespace_characters_match_the_standard_library() {
    let mut code = 0u32;
    while code <= 0x10FFFF {
        if let Some(c) = char::from_u32(code) {
            assert_eq!(char_is_whitespace(c), c.is_whitespace());
        }
        code += 1;
    }
}

#[test]
fn blank_texts() {
    assert!(str_is_blank(""));
    assert!(str_is_blank(" "));
    assert!(str_is_blank(" \t\r\n"));
    assert!(str_is_blank("\u{a0}\u{3000}\u{2003}"));
}

#[test]
fn texts_with_content() {
    assert!(!str_is_blank("a"));
    assert!(!str_is_blank("  x  "));
    assert!(!str_is_blank("\t\u{200b}"));
    assert!(!str_is_blank("   \u{e9}"));
}

#[test]
fn blank_agrees_with_trim() {
    let samples = ["", " ", "x", " x", "x ", "\n\n", " \u{1680} ", "\u{feff}", "Display 1", "\u{85}"];
    for s in samples {
        assert_eq!(str_is_blank(s), s.trim().is_empty());
    }
}
