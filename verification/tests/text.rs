use usvg::text::{
    char_is_whitespace, push_decimal, split_trimmed, str_eq, to_decimal, trimmed_piece,
};

#[test]
fn strings_compare_by_their_characters() {
    assert!(str_eq("auto", "auto"));
    assert!(str_eq("", ""));
    assert!(!str_eq("auto", "Auto"));
    assert!(!str_eq("auto", "auto "));
    assert!(!str_eq("", "a"));
    assert!(str_eq("größe", "größe"));
}

#[test]
fn decimal_notation() {
    assert_eq!(to_decimal(0), "0");
    assert_eq!(to_decimal(7), "7");
    assert_eq!(to_decimal(10), "10");
    assert_eq!(to_decimal(1234567890), "1234567890");
    assert_eq!(to_decimal(u64::MAX as u128), u64::MAX.to_string());
    assert_eq!(to_decimal(u128::MAX), u128::MAX.to_string());
    for n in 0u128..1000 {
        assert_eq!(to_decimal(n), n.to_string());
    }
}

#[test]
fn decimal_is_appended() {
    let mut s = String::from("line ");
    push_decimal(&mut s, 42);
    assert_eq!(s, "line 42");
    push_decimal(&mut s, 0);
    assert_eq!(s, "line 420");
}

#[test]
fn whitespace_agrees_with_std() {
    for n in 0u32..0x3100 {
        if let Some(c) = char::from_u32(n) {
            assert_eq!(char_is_whitespace(c), c.is_whitespace(), "U+{:04X}", n);
        }
    }
    assert!(!char_is_whitespace('\u{200b}'));
    assert!(!char_is_whitespace('\u{feff}'));
}

#[test]
fn pieces_are_trimmed() {
    let s = "  en , de\t";
    assert_eq!(trimmed_piece(s, 0, 5), "en");
    assert_eq!(trimmed_piece(s, 6, 10), "de");
    assert_eq!(trimmed_piece(s, 0, 2), "");
    assert_eq!(trimmed_piece(s, 2, 2), "");
    assert_eq!(trimmed_piece(s, 0, s.chars().count()), s.trim());
    let t = "\u{3000}größe \u{a0}";
    assert_eq!(trimmed_piece(t, 0, t.chars().count()), "größe");
    assert_eq!(trimmed_piece("a b", 0, 3), "a b");
}

#[test]
fn split_agrees_with_std() {
    let cases = [
        "",
        ",",
        "en",
        "en,de",
        " en , de ,ru-RU ",
        ",,",
        "a,",
        ",a",
        " , ",
        "en, ,de",
        "größe,日本語 , x",
        "\t\n",
    ];
    for s in cases {
        let expected: Vec<String> = s.split(',').map(|p| p.trim().to_string()).collect();
        assert_eq!(split_trimmed(s), expected, "{:?}", s);
    }
    assert_eq!(split_trimmed(" en , de ,ru-RU "), vec!["en", "de", "ru-RU"]);
    assert_eq!(split_trimmed(""), vec![""]);
}
