use blog_service::path::parse_id;

#[test]
fn parse_id_reads_plain_decimal() {
    assert_eq!(parse_id("42"), Some(42));
    assert_eq!(parse_id("0"), Some(0));
    assert_eq!(parse_id("999999"), Some(999999));
}

#[test]
fn parse_id_accepts_a_sign() {
    assert_eq!(parse_id("+7"), Some(7));
    assert_eq!(parse_id("-7"), Some(-7));
    assert_eq!(parse_id("-0"), Some(0));
    assert_eq!(parse_id("+0"), Some(0));
}

#[test]
fn parse_id_reads_leading_zeros_as_digits() {
    assert_eq!(parse_id("007"), Some(7));
    assert_eq!(parse_id("0000000000000000000000000000000012"), Some(12));
    assert_eq!(parse_id("-0000000000000000000000000000000012"), Some(-12));
}

#[test]
fn parse_id_covers_the_whole_i32_range() {
    assert_eq!(parse_id("2147483647"), Some(i32::MAX));
    assert_eq!(parse_id("+2147483647"), Some(i32::MAX));
    assert_eq!(parse_id("-2147483648"), Some(i32::MIN));
    assert_eq!(parse_id("-2147483647"), Some(-2147483647));
}

#[test]
fn parse_id_rejects_numbers_out_of_range() {
    assert_eq!(parse_id("2147483648"), None);
    assert_eq!(parse_id("+2147483648"), None);
    assert_eq!(parse_id("-2147483649"), None);
    assert_eq!(parse_id("4294967296"), None);
    assert_eq!(parse_id("21474836470"), None);
    assert_eq!(parse_id("99999999999999999999999999999999999999"), None);
    assert_eq!(parse_id("-99999999999999999999999999999999999999"), None);
}

#[test]
fn parse_id_rejects_the_empty_segment_and_a_lone_sign() {
    assert_eq!(parse_id(""), None);
    assert_eq!(parse_id("+"), None);
    assert_eq!(parse_id("-"), None);
    assert_eq!(parse_id("+-1"), None);
    assert_eq!(parse_id("--1"), None);
}

#[test]
fn parse_id_rejects_anything_but_digits() {
    assert_eq!(parse_id("abc"), None);
    assert_eq!(parse_id("12a"), None);
    assert_eq!(parse_id("a12"), None);
    assert_eq!(parse_id("1 2"), None);
    assert_eq!(parse_id(" 12"), None);
    assert_eq!(parse_id("12 "), None);
    assert_eq!(parse_id("1_000"), None);
    assert_eq!(parse_id("1.0"), None);
    assert_eq!(parse_id("0x10"), None);
    assert_eq!(parse_id("1e3"), None);
    assert_eq!(parse_id("12\n"), None);
    assert_eq!(parse_id("1-2"), None);
    assert_eq!(parse_id("12+"), None);
}

#[test]
fn parse_id_rejects_digits_outside_ascii() {
    assert_eq!(parse_id("\u{661}\u{662}"), None);
    assert_eq!(parse_id("\u{ff11}"), None);
    assert_eq!(parse_id("1\u{e9}"), None);
    assert_eq!(parse_id("\u{2212}1"), None);
}

#[test]
fn parse_id_agrees_with_the_standard_parser() {
    let samples = [
        "", "0", "1", "-1", "+1", "12345", "-12345", "2147483647", "2147483648", "-2147483648",
        "-2147483649", "abc", "1a", "+", "-", " 1", "0001", "+-3", "3000000000", "99999999999",
    ];
    for s in samples {
        assert_eq!(parse_id(s), s.parse::<i32>().ok(), "segment {:?}", s);
    }
}

#[test]
fn parse_id_agrees_with_the_standard_parser_on_every_short_segment() {
    let alphabet = ['+', '-', '0', '1', '9', 'a', ' '];
    let mut segments = vec![String::new()];
    let mut last = vec![String::new()];
    for _ in 0..5 {
        let mut next = Vec::new();
        for s in &last {
            for c in alphabet {
                let mut t = s.clone();
                t.push(c);
                next.push(t);
            }
        }
        segments.extend(next.iter().cloned());
        last = next;
    }
    assert_eq!(segments.len(), 1 + 7 + 49 + 343 + 2401 + 16807);
    for s in &segments {
        assert_eq!(parse_id(s), s.parse::<i32>().ok(), "segment {:?}", s);
    }
}

#[test]
fn parse_id_agrees_with_the_standard_parser_near_the_bounds() {
    for k in -20i64..=20 {
        for base in [0i64, 2147483647, -2147483648, 4294967296, 21474836470] {
            let n = base + k;
            for text in [n.to_string(), format!("+{}", n), format!("00{}", n.abs())] {
                assert_eq!(parse_id(&text), text.parse::<i32>().ok(), "segment {:?}", text);
            }
        }
    }
}
