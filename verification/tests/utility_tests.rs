use member_club::calendar::month_range;
use member_club::clock::{backup_file_name, compose_business_no, current_month, make_business_no, now_string};
use member_club::digest::{sha256_hex, to_hex_lower};
use member_club::errors::CommandError;
use member_club::name_pinyin::generate_pinyin;

#[test]
fn month_range_of_a_month() {
    assert_eq!(
        month_range("2024-02").unwrap(),
        ("2024-02-01 00:00:00".to_string(), "2024-03-01 00:00:00".to_string())
    );
}

#[test]
fn month_range_wraps_at_december() {
    assert_eq!(
        month_range("2024-12").unwrap(),
        ("2024-12-01 00:00:00".to_string(), "2025-01-01 00:00:00".to_string())
    );
}

#[test]
fn month_range_refuses_bad_month() {
    let err = month_range("2024-13").unwrap_err();
    assert_eq!(err, CommandError::InvalidMonth { month: "2024-13".to_string() });
    assert_eq!(err.message(), "月份格式不正确: 2024-13");
    assert!(matches!(month_range("abc"), Err(CommandError::InvalidMonth { .. })));
}

#[test]
fn month_range_at_end_of_calendar() {
    let err = month_range("+262142-12").unwrap_err();
    assert_eq!(err, CommandError::NextMonthUnavailable);
    assert_eq!(err.message(), "无法计算下月时间");
}

#[test]
fn sha256_hex_known_vector() {
    assert_eq!(
        sha256_hex(b"abc"),
        "ba7816bf8f01cfea414140de5dae2223b00361a396177a9cb410ff61f20015ad"
    );
    assert_eq!(sha256_hex(b"").len(), 64);
}

#[test]
fn hex_lower_encoding() {
    assert_eq!(to_hex_lower(&[0x00, 0x0f, 0xab, 0xff]), "000fabff");
}

#[test]
fn pinyin_of_chinese_name() {
    assert_eq!(generate_pinyin("张三"), ("zhangsan".to_string(), "zs".to_string()));
}

#[test]
fn pinyin_keeps_ascii_letters_and_digits() {
    assert_eq!(generate_pinyin("Tom Lee 2"), ("tomlee2".to_string(), "tomlee2".to_string()));
    assert_eq!(generate_pinyin("李A"), ("lia".to_string(), "la".to_string()));
}

#[test]
fn pinyin_falls_back_to_lowercased_name() {
    assert_eq!(generate_pinyin("！ ？"), ("！ ？".to_string(), "！？".to_string()));
    assert_eq!(generate_pinyin(""), (String::new(), String::new()));
    assert_eq!(generate_pinyin("ÄÖ Ü"), ("äö ü".to_string(), "äöü".to_string()));
    assert_eq!(generate_pinyin("ÄBC"), ("bc".to_string(), "bc".to_string()));
    assert_eq!(generate_pinyin("ÄÖÜÉÈÊËÎÏÔ"), ("äöüéèêëîïô".to_string(), "äöüéèêëî".to_string()));
}

#[test]
fn business_no_shape() {
    let no = make_business_no("C");
    assert!(no.starts_with('C'));
    assert_eq!(no.len(), 1 + 14 + 32);
    assert!(no[no.len() - 32..].chars().all(|c| c.is_ascii_hexdigit() && !c.is_ascii_uppercase()));
    assert_eq!(compose_business_no("R", "20240101120000", "ab"), "R20240101120000ab");
}

#[test]
fn clock_texts_have_their_formats() {
    let now = now_string();
    let b = now.as_bytes();
    assert_eq!(b.len(), 19);
    assert_eq!((b[4], b[7], b[10], b[13], b[16]), (b'-', b'-', b' ', b':', b':'));
    let month = current_month();
    assert_eq!(month.len(), 7);
    assert_eq!(month.as_bytes()[4], b'-');
    assert!(now.starts_with(&month) || month > now[..7].to_string());
    let name = backup_file_name();
    assert!(name.starts_with("club_backup_") && name.ends_with(".db"));
    assert_eq!(name.len(), "club_backup_".len() + 15 + 3);
    assert_eq!(name.as_bytes()["club_backup_".len() + 8], b'_');
}
