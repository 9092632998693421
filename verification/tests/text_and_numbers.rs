use pulse_commerce::number::{format_i64, format_u64, format_usize, parse_i64, parse_u16, parse_usize};
use pulse_commerce::text::{
    same_text, starts_with, strip_prefix, to_ascii_lowercase, to_ascii_uppercase, trim,
    trim_end_char,
};

#[test]
fn trim_matches_std_trim() {
    let samples = ["  hi \t\n", "\u{a0}x\u{3000}", "", "   ", "a b", "\u{2028}y\u{85}", "\u{200b}z"];
    for s in samples {
        assert_eq!(trim(s), s.trim());
    }
}

#[test]
fn ascii_case_mapping() {
    assert_eq!(to_ascii_uppercase("dhl-1 é"), "DHL-1 é");
    assert_eq!(to_ascii_lowercase("NovaPoshta É"), "novaposhta É");
}

#[test]
fn unicode_lowercase_through_slugs_and_roles() {
    assert_eq!(pulse_commerce::slug::slugify("ABC Def"), "abc-def");
    assert_eq!(pulse_commerce::gateway::ensure_admin(&Some("AdMiN".to_string())), Ok(()));
    assert_eq!(pulse_commerce::slug::slugify("ÀB"), "b");
}

#[test]
fn prefixes_and_suffixes() {
    assert_eq!(strip_prefix("Bearer abc", "Bearer "), Some("abc".to_string()));
    assert_eq!(strip_prefix("bearer abc", "Bearer "), None);
    assert_eq!(strip_prefix("Bear", "Bearer "), None);
    assert!(starts_with("payment.success", "payment."));
    assert_eq!(trim_end_char("http://x///", '/'), "http://x");
    assert_eq!(trim_end_char("///", '/'), "");
    assert!(same_text("a", "a"));
    assert!(!same_text("a", "b"));
}

#[test]
fn parse_i64_follows_std() {
    let samples = [
        "42", "-42", "+7", "0", "-0", "", "-", "+", "1a", " 1", "1 ", "9223372036854775807",
        "9223372036854775808", "-9223372036854775808", "-9223372036854775809",
        "00000000000000000000000000012", "++1", "+-1",
    ];
    for s in samples {
        assert_eq!(parse_i64(s), s.parse::<i64>().ok(), "input {s:?}");
    }
}

#[test]
fn parse_unsigned_follows_std() {
    let samples = ["80", "+80", "-1", "65535", "65536", "", "0x10", "08080", "-0"];
    for s in samples {
        assert_eq!(parse_u16(s), s.parse::<u16>().ok(), "input {s:?}");
        assert_eq!(parse_usize(s), s.parse::<usize>().ok(), "input {s:?}");
    }
    assert_eq!(parse_usize("18446744073709551615"), Some(usize::MAX));
}

#[test]
fn decimal_formatting_follows_display() {
    for n in [0i64, 7, -7, 10, 99, 100, 1234567890, i64::MAX, i64::MIN, -1] {
        assert_eq!(format_i64(n), n.to_string());
        assert_eq!(parse_i64(&format_i64(n)), Some(n));
    }
    assert_eq!(format_u64(u64::MAX), u64::MAX.to_string());
    assert_eq!(format_usize(100), "100");
}

#[test]
fn trimming_twice_is_trimming_once() {
    for s in ["  hi  ", "\u{3000}\u{a0}x y\t", "", "z"] {
        let once = trim(s);
        assert_eq!(trim(&once), once);
    }
}
