use speakly::text::{decimal_text, is_blank_text, is_white_space_char, same_text, trim_text};

#[test]
fn white_space_agrees_with_std() {
    for c in (0u32..0x3100).filter_map(char::from_u32) {
        assert_eq!(is_white_space_char(c), c.is_whitespace(), "{:?}", c);
    }
    for c in ['\u{10000}', '\u{FEFF}', '\u{200B}', '\u{180E}', 'x'] {
        assert_eq!(is_white_space_char(c), c.is_whitespace(), "{:?}", c);
    }
}

#[test]
fn trim_agrees_with_std() {
    let samples = [
        "",
        "   ",
        "abc",
        "  abc  ",
        "\t\nab c\r\n",
        "\u{3000}Grüße\u{a0}",
        "a  ",
        "  a",
        " \u{2028} x \u{85}",
    ];
    for s in samples {
        assert_eq!(trim_text(s), s.trim(), "{:?}", s);
        assert_eq!(is_blank_text(s), s.trim().is_empty(), "{:?}", s);
    }
}

#[test]
fn decimal_agrees_with_std() {
    for n in [0u64, 7, 10, 99, 100, 147_964_211, u64::MAX] {
        assert_eq!(decimal_text(n), n.to_string());
    }
}

#[test]
fn same_text_compares_characters() {
    assert!(same_text("auto", "auto"));
    assert!(!same_text("auto", "Auto"));
    assert!(!same_text("", " "));
}
