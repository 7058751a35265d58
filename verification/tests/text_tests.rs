use ambientd::text::{
    decimal_chars, eq_lit, parse_unsigned, to_chars, trim_chars,
    white_space,
};

fn chars(s: &str) -> Vec<char> {
    s.chars().collect()
}

#[test]
fn trim_removes_outer_whitespace() {
    let v = to_chars("  a b \t\r");
    assert_eq!(trim_chars(&v), vec!['a', ' ', 'b']);
}

#[test]
fn trim_matches_std_trim() {
    for s in ["", "   ", "x", " x ", "\u{3000}mid dle\u{85}", "\r\n key = v \r", "\u{200B}z"] {
        let t: String = trim_chars(&chars(s)).into_iter().collect();
        assert_eq!(t, s.trim(), "trimming {:?}", s);
    }
}

#[test]
fn whitespace_matches_std_for_every_char() {
    for n in 0u32..=0x10FFFF {
        if let Some(c) = char::from_u32(n) {
            assert_eq!(white_space(c), c.is_whitespace(), "char {:#x}", n);
        }
    }
}

#[test]
fn trim_is_idempotent_on_samples() {
    for s in [" a ", "\t\tb", "c\n", "  "] {
        let once = trim_chars(&chars(s));
        assert_eq!(trim_chars(&once), once);
    }
}

#[test]
fn literal_comparison() {
    assert!(eq_lit(&chars("als"), "als"));
    assert!(!eq_lit(&chars("als "), "als"));
    assert!(!eq_lit(&chars("alt"), "als"));
    assert!(eq_lit(&[], ""));
}

#[test]
fn parse_unsigned_like_std() {
    let cases = ["0", "42", "+7", "", "+", "-1", "++1", "1 ", " 1", "12a", "007",
        "18446744073709551615", "18446744073709551616", "99999999999999999999999", "4294967295",
        "4294967296", "١٢"];
    for s in cases {
        assert_eq!(parse_unsigned(&chars(s), u64::MAX), s.parse::<u64>().ok(), "u64 {:?}", s);
        assert_eq!(
            parse_unsigned(&chars(s), u32::MAX as u64),
            s.parse::<u32>().ok().map(|v| v as u64),
            "u32 {:?}",
            s
        );
    }
}

#[test]
fn parse_unsigned_exact_values() {
    assert_eq!(parse_unsigned(&chars("1000"), u64::MAX), Some(1000));
    assert_eq!(parse_unsigned(&chars("+500"), u64::MAX), Some(500));
    assert_eq!(parse_unsigned(&chars("256"), 255), None);
    assert_eq!(parse_unsigned(&chars("255"), 255), Some(255));
}

#[test]
fn decimal_text() {
    assert_eq!(decimal_chars(0), vec!['0']);
    assert_eq!(decimal_chars(1234), chars("1234"));
    assert_eq!(decimal_chars(u64::MAX), chars("18446744073709551615"));
}

#[test]
fn decimal_text_reads_back() {
    for n in [0u64, 9, 10, 99, 100, 4096, 1_000_000_007, u64::MAX] {
        assert_eq!(parse_unsigned(&decimal_chars(n), u64::MAX), Some(n));
        assert_eq!(decimal_chars(n), chars(&n.to_string()));
    }
}
