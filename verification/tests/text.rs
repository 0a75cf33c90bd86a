use passhive::text::{
    append_decimal, append_repeated, contains_char, is_all_digits, is_space_char, parse_decimal,
    same_text, same_text_ignoring_ascii_case, trim, trim_end,
};

#[test]
fn decimal_notation() {
    for n in [0u32, 1, 9, 10, 11, 99, 100, 12345, 65535, 4294967295] {
        let mut out = "n=".to_string();
        append_decimal(&mut out, n);
        assert_eq!(out, format!("n={}", n));
    }
}

#[test]
fn trimming_as_the_standard_library_does() {
    let cases = [
        "",
        " ",
        "a",
        " a",
        "a ",
        "  a b  ",
        "\t\n a \r\n",
        "\u{a0}x\u{2003}",
        "\u{3000}\u{85}",
        "x\u{200b}",
        "\u{1680}я\u{2028}\u{2029}\u{202f}\u{205f}",
        " \u{feff} ",
    ];
    for s in cases {
        assert_eq!(trim(s), s.trim(), "{:?}", s);
        assert_eq!(trim_end(s), s.trim_end(), "{:?}", s);
    }
}

#[test]
fn white_space_as_the_standard_library_sees_it() {
    for code in 0u32..0x3100 {
        if let Some(c) = char::from_u32(code) {
            assert_eq!(is_space_char(c), c.is_whitespace(), "{:x}", code);
        }
    }
    assert!(!is_space_char('\u{feff}'));
    assert!(!is_space_char('\u{10ffff}'));
}

#[test]
fn decimal_numbers_as_the_standard_library_reads_them() {
    let cases = [
        "", "+", "-", "0", "+0", "-0", "7", "007", "65535", "65536", "+65535", "++1", "1+", " 1",
        "1 ", "12a", "a12", "٣", "4294967295", "4294967296", "99999999999999999999", "1_000",
        "0x10", "1.0",
    ];
    for s in cases {
        assert_eq!(parse_decimal(s, u16::MAX as u32), s.parse::<u16>().ok().map(u32::from), "{:?}", s);
        assert_eq!(parse_decimal(s, u32::MAX), s.parse::<u32>().ok(), "{:?}", s);
    }
    assert_eq!(parse_decimal("6", 6), Some(6));
    assert_eq!(parse_decimal("7", 6), None);
}

#[test]
fn comparing_texts() {
    assert!(same_text("", ""));
    assert!(same_text("карта", "карта"));
    assert!(!same_text("card", "Card"));
    assert!(!same_text("card", "cards"));
    assert!(same_text_ignoring_ascii_case("MaLe", "male"));
    assert!(same_text_ignoring_ascii_case("", ""));
    assert!(!same_text_ignoring_ascii_case("male", "mal"));
    assert!(!same_text_ignoring_ascii_case("М", "м"));
    assert!(!same_text_ignoring_ascii_case("@", "`"));
    assert!(!same_text_ignoring_ascii_case("[", "{"));
}

#[test]
fn looking_for_characters() {
    assert!(contains_char("a b", ' '));
    assert!(!contains_char("ab", ' '));
    assert!(!contains_char("", ' '));
    assert!(is_all_digits("0123456789"));
    assert!(is_all_digits(""));
    assert!(!is_all_digits("12 3"));
    assert!(!is_all_digits("１２"));
}

#[test]
fn repeating() {
    let mut out = "x".to_string();
    append_repeated(&mut out, "ab", 3);
    assert_eq!(out, "xababab");
    append_repeated(&mut out, "ab", 0);
    assert_eq!(out, "xababab");
    append_repeated(&mut out, "", 5);
    assert_eq!(out, "xababab");
}
