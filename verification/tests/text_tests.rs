use member_club::numtext::{i64_text, pad2, parse_i64, u64_text};
use member_club::text::{is_blank, normalize_optional_text, replace_char_text, trim_text};

#[test]
fn normalize_optional_text_trims_and_drops_blank() {
    assert_eq!(normalize_optional_text(Some("  abc \n".to_string())), Some("abc".to_string()));
    assert_eq!(normalize_optional_text(Some(" \t ".to_string())), None);
    assert_eq!(normalize_optional_text(Some(String::new())), None);
    assert_eq!(normalize_optional_text(None), None);
}

#[test]
fn normalize_optional_text_is_idempotent_on_examples() {
    for raw in ["  x  ", "\u{3000}会员\u{3000}", "", " a b "] {
        let once = normalize_optional_text(Some(raw.to_string()));
        let twice = normalize_optional_text(once.clone());
        assert_eq!(once, twice);
    }
}

#[test]
fn trim_matches_std_trim() {
    for raw in ["  a  ", "\u{3000}全角\u{3000}", "\u{85}x\u{a0}", "\t\n", "no-space", " a b "] {
        assert_eq!(trim_text(raw), raw.trim());
        assert_eq!(is_blank(raw), raw.trim().is_empty());
    }
}

#[test]
fn replace_backslashes() {
    assert_eq!(replace_char_text("data\\backup\\x", '\\', '/'), "data/backup/x");
}

#[test]
fn integer_text_matches_std() {
    for v in [0i64, 7, 10, 99, 100, -1, -45, i64::MAX, i64::MIN] {
        assert_eq!(i64_text(v), v.to_string());
        assert_eq!(parse_i64(&v.to_string()), Some(v));
    }
    assert_eq!(u64_text(1234567890), "1234567890");
    assert_eq!(pad2(5), "05");
    assert_eq!(pad2(12), "12");
    assert_eq!(pad2(123), "123");
}

#[test]
fn parse_i64_matches_std() {
    for raw in ["", "+", "-", "+5", "-0", "007", "12a", " 1", "9223372036854775807",
        "9223372036854775808", "-9223372036854775808", "-9223372036854775809", "99999999999999999999"] {
        assert_eq!(parse_i64(raw), raw.parse::<i64>().ok(), "input {:?}", raw);
    }
}
