use music_exporter::text::{
    chars_of, contains_chars, decimal_chars, decimal_string, joined, matches_at, parse_decimal,
    strip_line_ending, strip_suffix, trim_bounds, trimmed,
};

fn chars(s: &str) -> Vec<char> {
    s.chars().collect()
}

#[test]
fn chars_of_gives_the_characters_in_order() {
    assert_eq!(chars_of("héllo"), vec!['h', 'é', 'l', 'l', 'o']);
    assert_eq!(chars_of(""), Vec::<char>::new());
}

#[test]
fn trimmed_agrees_with_str_trim() {
    for s in [
        "",
        " ",
        "  a  ",
        "a",
        "\t\n a b \r\n",
        "\u{a0}x\u{3000}",
        " é ",
        "a  b",
        "\u{2003}\u{2003}",
    ] {
        assert_eq!(trimmed(s), s.trim());
    }
}

#[test]
fn trim_is_idempotent_on_samples() {
    for s in ["  a b  ", "\n\n", "x", " \u{a0} y \t"] {
        let once = trimmed(s).to_string();
        assert_eq!(trimmed(&once), once);
    }
}

#[test]
fn trim_bounds_name_the_kept_part() {
    assert_eq!(trim_bounds(&chars("  ab ")), (2, 4));
    assert_eq!(trim_bounds(&chars("   ")), (3, 3));
    assert_eq!(trim_bounds(&chars("")), (0, 0));
    assert_eq!(trim_bounds(&chars("ab")), (0, 2));
}

#[test]
fn matches_at_tells_where_a_pattern_stands() {
    let s = chars("abcabc");
    let pat = chars("bc");
    assert!(!matches_at(&s, &pat, 0));
    assert!(matches_at(&s, &pat, 1));
    assert!(matches_at(&s, &pat, 4));
    assert!(!matches_at(&s, &pat, 5));
    assert!(!matches_at(&s, &pat, 7));
    assert!(matches_at(&s, &chars(""), 6));
}

#[test]
fn contains_agrees_with_str_contains() {
    for (s, pat) in [
        ("audio officiel", "offic"),
        ("feat. artist", "offic"),
        ("offi", "offic"),
        ("", "offic"),
        ("", ""),
        ("abc", ""),
        ("xoffic", "offic"),
        ("ooffic", "offic"),
    ] {
        assert_eq!(contains_chars(&chars(s), &chars(pat)), s.contains(pat));
    }
}

#[test]
fn decimal_writes_numbers_as_to_string_does() {
    for n in [0u64, 7, 10, 50, 99, 100, 8000, 65535, 1234567890, u64::MAX] {
        assert_eq!(decimal_string(n), n.to_string());
        assert_eq!(decimal_chars(n), chars(&n.to_string()));
    }
    assert_eq!(decimal_string(u64::MAX), "18446744073709551615");
}

#[test]
fn parse_decimal_agrees_with_from_str() {
    for s in [
        "0",
        "50",
        "+50",
        "007",
        "18446744073709551615",
        "18446744073709551616",
        "99999999999999999999999",
        "",
        "+",
        "-1",
        "1 ",
        " 1",
        "1_0",
        "12a",
        "++1",
        "٣",
    ] {
        assert_eq!(parse_decimal(s), s.parse::<u64>().ok());
    }
    assert_eq!(parse_decimal("100"), Some(100));
    assert_eq!(parse_decimal("x"), None);
}

#[test]
fn strip_suffix_takes_the_suffix_off_once() {
    assert_eq!(strip_suffix("Band - Topic", " - Topic"), "Band");
    assert_eq!(strip_suffix("Band - Topic - Topic", " - Topic"), "Band - Topic");
    assert_eq!(strip_suffix("Band - Topic live", " - Topic"), "Band - Topic live");
    assert_eq!(strip_suffix("Topic", " - Topic"), "Topic");
    assert_eq!(strip_suffix(" - Topic", " - Topic"), "");
    assert_eq!(strip_suffix("Band", ""), "Band");
}

#[test]
fn strip_line_ending_takes_one_ending_off() {
    assert_eq!(strip_line_ending("value\n"), "value");
    assert_eq!(strip_line_ending("value\r\n"), "value");
    assert_eq!(strip_line_ending("value\r"), "value");
    assert_eq!(strip_line_ending("value"), "value");
    assert_eq!(strip_line_ending("value\n\n"), "value\n");
    assert_eq!(strip_line_ending("value\n\r"), "value\n");
    assert_eq!(strip_line_ending(""), "");
    assert_eq!(strip_line_ending("\n"), "");
}

#[test]
fn joined_puts_two_texts_together() {
    assert_eq!(joined("Bearer ", "tok"), "Bearer tok");
    assert_eq!(joined("", ""), "");
}
