use hermes::text::{
    char_is_alphanumeric, char_is_white_space, char_upper, chars_of, push_decimal, trim,
};

#[test]
fn character_classes_agree_with_std_on_every_character() {
    for n in 0..=0x10FFFFu32 {
        if let Some(c) = char::from_u32(n) {
            assert_eq!(char_is_white_space(c), c.is_whitespace());
            assert_eq!(char_is_alphanumeric(c), c.is_ascii_alphanumeric());
            assert_eq!(char_upper(c), c.to_ascii_uppercase());
        }
    }
}

#[test]
fn trim_cuts_white_space_at_both_ends_only() {
    assert_eq!(trim("  a b  "), "a b");
    assert_eq!(trim("\t\r\nx\u{A0}"), "x");
    assert_eq!(trim("\u{3000}x y\u{2003}"), "x y");
    assert_eq!(trim("x"), "x");
    assert_eq!(trim(""), "");
    assert_eq!(trim(" \t "), "");
    assert_eq!(trim(" \u{200B} "), "\u{200B}");
}

#[test]
fn trim_agrees_with_std() {
    for s in ["", " ", "a", " a", "a ", " a ", "\u{85}a\u{1680}", "a  b", "\n\n", " é ", "日本 "] {
        assert_eq!(trim(s), s.trim());
    }
}

#[test]
fn chars_are_listed_in_order() {
    assert_eq!(chars_of("aß→z"), vec!['a', 'ß', '→', 'z']);
    assert_eq!(chars_of(""), Vec::<char>::new());
}

#[test]
fn decimal_is_appended() {
    for n in [0u64, 1, 9, 10, 11, 99, 100, 101, 12345, 1_000_000, u64::MAX] {
        let mut s = String::from("n=");
        push_decimal(&mut s, n);
        assert_eq!(s, format!("n={}", n));
    }
    let mut s = String::new();
    push_decimal(&mut s, 0);
    assert_eq!(s, "0");
    push_decimal(&mut s, 18_446_744_073_709_551_615);
    assert_eq!(s, "018446744073709551615");
}
