use config_watcher::text::{char_is_white_space, text_contains, text_eq, text_is_blank};

#[test]
fn white_space_is_what_the_standard_library_takes_for_it() {
    let mut code: u32 = 0;
    while code <= 0x10FFFF {
        if let Some(c) = char::from_u32(code) {
            assert_eq!(char_is_white_space(c), c.is_whitespace(), "U+{:04X}", code);
        }
        code += 1;
    }
}

#[test]
fn white_space_samples() {
    assert!(char_is_white_space(' '));
    assert!(char_is_white_space('\t'));
    assert!(char_is_white_space('\n'));
    assert!(char_is_white_space('\r'));
    assert!(char_is_white_space('\u{a0}'));
    assert!(char_is_white_space('\u{2003}'));
    assert!(char_is_white_space('\u{3000}'));
    assert!(!char_is_white_space('a'));
    assert!(!char_is_white_space('.'));
    assert!(!char_is_white_space('\u{8}'));
    assert!(!char_is_white_space('\u{e}'));
    assert!(!char_is_white_space('\u{200b}'));
    assert!(!char_is_white_space('\u{180e}'));
}

#[test]
fn blank_texts_are_those_that_trim_to_nothing() {
    let samples = [
        "",
        " ",
        "   ",
        "\t\r\n",
        "\u{a0}\u{2028}\u{2029}\u{202f}\u{205f}\u{3000}\u{1680}\u{85}",
        "a",
        " a",
        "a ",
        "  .  ",
        "\u{200b}",
        "TestApp",
    ];
    for sample in samples {
        assert_eq!(text_is_blank(sample), sample.trim().is_empty(), "{:?}", sample);
    }
    assert!(text_is_blank(""));
    assert!(text_is_blank(" \t "));
    assert!(!text_is_blank(" x "));
}

#[test]
fn contains_finds_a_character_anywhere() {
    assert!(text_contains("1.0.0", '.'));
    assert!(text_contains(".", '.'));
    assert!(text_contains("10.", '.'));
    assert!(text_contains(".5", '.'));
    assert!(!text_contains("1", '.'));
    assert!(!text_contains("", '.'));
    assert!(!text_contains("1,0", '.'));
    assert!(text_contains("na\u{ef}ve", '\u{ef}'));
}

#[test]
fn equal_texts_have_the_same_characters() {
    assert!(text_eq("", ""));
    assert!(text_eq("production", "production"));
    assert!(!text_eq("production", "productio"));
    assert!(!text_eq("productio", "production"));
    assert!(!text_eq("production", "Production"));
    assert!(!text_eq("", "a"));
    assert!(!text_eq("a", ""));
    assert!(text_eq("caf\u{e9}", "caf\u{e9}"));
    assert!(!text_eq("caf\u{e9}", "cafe\u{301}"));
}
