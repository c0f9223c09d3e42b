use fastext::text::{char_is_whitespace, trim};

#[test]
fn whitespace_agrees_with_the_standard_library_on_every_char() {
    let mut code: u32 = 0;
    while code <= 0x10FFFF {
        if let Some(c) = char::from_u32(code) {
            assert_eq!(char_is_whitespace(c), c.is_whitespace(), "U+{:04X}", code);
        }
        code += 1;
    }
}

#[test]
fn whitespace_knows_the_usual_characters() {
    assert!(char_is_whitespace(' '));
    assert!(char_is_whitespace('\t'));
    assert!(char_is_whitespace('\n'));
    assert!(char_is_whitespace('\r'));
    assert!(char_is_whitespace('\u{00A0}'));
    assert!(char_is_whitespace('\u{3000}'));
    assert!(!char_is_whitespace('a'));
    assert!(!char_is_whitespace('\u{200B}'));
    assert!(!char_is_whitespace('\u{0008}'));
    assert!(!char_is_whitespace('\u{000E}'));
}

#[test]
fn trim_removes_both_ends_and_keeps_the_middle() {
    assert_eq!(trim("  a b  "), "a b");
    assert_eq!(trim("a b"), "a b");
    assert_eq!(trim("\t\n x \u{3000}"), "x");
    assert_eq!(trim("x   "), "x");
    assert_eq!(trim("   x"), "x");
    assert_eq!(trim(" /tmp/mis notas.txt\n"), "/tmp/mis notas.txt");
}

#[test]
fn trim_of_blank_text_is_empty() {
    assert_eq!(trim(""), "");
    assert_eq!(trim("   "), "");
    assert_eq!(trim(" \t\r\n\u{2003}"), "");
}

#[test]
fn trim_counts_characters_not_bytes() {
    assert_eq!(trim(" ñandú "), "ñandú");
    assert_eq!(trim("\u{00A0}日本語\u{00A0}"), "日本語");
    assert_eq!(trim("\u{200B} x"), "\u{200B} x");
}

#[test]
fn trim_agrees_with_the_standard_library() {
    let samples = [
        "",
        " ",
        "a",
        " a",
        "a ",
        " a b c ",
        "\n\n",
        "\u{0085}x\u{1680}",
        "  \u{2028}línea\u{2029}  ",
        "no-trim",
        " \u{FEFF} ",
    ];
    for sample in samples {
        assert_eq!(trim(sample), sample.trim());
    }
}
