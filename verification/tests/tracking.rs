use hermes::tracking::normalize_tracking;
use regex::Regex;

fn pattern() -> Regex {
    Regex::new(r"[^0-9A-Za-z]+").unwrap()
}

fn by_pattern(re: &Regex, input: &str) -> String {
    re.replace_all(input.trim(), "").to_ascii_uppercase()
}

fn samples() -> Vec<&'static str> {
    vec![
        "",
        " ",
        "  ab-12_cd  ",
        "X1",
        "x-1",
        "---",
        "\t1Z 999 AA1 01 2345 6784\r\n",
        "abc\u{A0}def",
        "\u{2003}x\u{3000}",
        "Straße 12",
        "ÄÖÜ",
        "k\u{212A}K",
        "\u{FF21}\u{FF11}a1",
        "a\u{0}b",
        "🚚42",
        "ZzZ000zzz",
        "TEST123",
    ]
}

#[test]
fn example_is_normalized() {
    assert_eq!(normalize_tracking("  ab-12_cd  "), "AB12CD");
}

#[test]
fn letters_are_upper_cased_and_digits_kept() {
    assert_eq!(normalize_tracking("abcxyz0189"), "ABCXYZ0189");
    assert_eq!(normalize_tracking("AbCxYz"), "ABCXYZ");
}

#[test]
fn everything_but_ascii_letters_and_digits_is_dropped() {
    assert_eq!(normalize_tracking("1Z 999-AA1/01.2345#6784"), "1Z999AA10123456784");
    assert_eq!(normalize_tracking("Straße 12"), "STRAE12");
    assert_eq!(normalize_tracking("ÄÖÜ"), "");
    assert_eq!(normalize_tracking("@[`{/:"), "");
}

#[test]
fn input_without_letters_and_digits_is_empty() {
    assert_eq!(normalize_tracking(""), "");
    assert_eq!(normalize_tracking("   "), "");
    assert_eq!(normalize_tracking("---"), "");
    assert_eq!(normalize_tracking("\t\r\n"), "");
}

#[test]
fn normalizing_twice_changes_nothing() {
    for s in samples() {
        let once = normalize_tracking(s);
        assert_eq!(normalize_tracking(once.as_str()), once);
    }
}

#[test]
fn output_holds_digits_and_upper_case_letters_only() {
    for s in samples() {
        for c in normalize_tracking(s).chars() {
            assert!(c.is_ascii_digit() || c.is_ascii_uppercase());
        }
    }
}

#[test]
fn agrees_with_the_pattern() {
    let re = pattern();
    for s in samples() {
        assert_eq!(normalize_tracking(s), by_pattern(&re, s));
    }
}

#[test]
fn agrees_with_the_pattern_on_single_characters() {
    let re = pattern();
    let low = 0..0x3100u32;
    let high = (0x3100..=0x10FFFFu32).step_by(97);
    for n in low.chain(high) {
        if let Some(c) = char::from_u32(n) {
            let s = format!("a{}9", c);
            assert_eq!(normalize_tracking(s.as_str()), by_pattern(&re, s.as_str()));
        }
    }
}
