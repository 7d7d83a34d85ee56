use member_club::bundle_check::{gift_identity, validate_import_bundle};
use member_club::keymap::{ImportContext, KeyMap};
use member_club::models::{
    ImportBundle, ImportConsumption, ImportGift, ImportMember, ImportRedemption, ImportSettings,
    MigrationErrorItem,
};
use member_club::precheck::{
    build_precheck, check_batch_not_imported, check_precheck_executable, check_source_unchanged,
    import_mode_of, join_keys, precheck_fingerprint,
};
use member_club::errors::CommandError;
use member_club::models::MigrationPrecheckCache;
use member_club::digest::sha256_hex;

fn member(pk: &str, no: Option<i64>, name: &str) -> ImportMember {
    ImportMember {
        legacy_pk: pk.to_string(),
        member_no: no,
        name: name.to_string(),
        gender: None,
        birth_month: None,
        birth_day: None,
        mobile: None,
        points_balance: None,
        total_spent_bits: None,
        last_consume_at: None,
        remark: None,
    }
}

fn consumption(pk: &str, member_pk: &str, amount: f64) -> ImportConsumption {
    ImportConsumption {
        legacy_pk: pk.to_string(),
        member_legacy_pk: member_pk.to_string(),
        amount_bits: amount.to_bits(),
        points_added: None,
        operator_name: None,
        remark: None,
        created_at: None,
    }
}

fn gift(pk: Option<&str>, name: &str) -> ImportGift {
    ImportGift {
        legacy_pk: pk.map(|s| s.to_string()),
        gift_name: name.to_string(),
        points_cost: 10,
        stock_qty: None,
        status: None,
        unique_per_member: None,
        remark: None,
    }
}

fn redemption(pk: &str, member_pk: &str) -> ImportRedemption {
    ImportRedemption {
        legacy_pk: pk.to_string(),
        member_legacy_pk: member_pk.to_string(),
        gift_legacy_pk: None,
        gift_name: None,
        qty: None,
        points_used: None,
        operator_name: None,
        remark: None,
        created_at: None,
    }
}

fn bundle() -> ImportBundle {
    ImportBundle {
        source_version: Some("v1".to_string()),
        members: vec![],
        consumptions: vec![],
        gifts: vec![],
        redemptions: vec![],
        settings: None,
    }
}

fn codes(errors: &[MigrationErrorItem]) -> Vec<(String, Option<String>, String)> {
    errors
        .iter()
        .map(|e| (e.entity_type.clone(), e.legacy_pk.clone(), e.error_code.clone()))
        .collect()
}

fn item(entity: &str, pk: Option<&str>, code: &str) -> (String, Option<String>, String) {
    (entity.to_string(), pk.map(|s| s.to_string()), code.to_string())
}

#[test]
fn clean_bundle_has_no_errors() {
    let mut b = bundle();
    b.members = vec![member("M1", Some(100001), "张三"), member("M2", None, "李四")];
    b.consumptions = vec![consumption("C1", "M1", 12.5)];
    b.gifts = vec![gift(Some("G1"), "水杯")];
    b.redemptions = vec![redemption("R1", "M2")];
    let mut errors = Vec::new();
    let mut warnings = Vec::new();
    validate_import_bundle(&b, &mut errors, &mut warnings);
    assert!(errors.is_empty());
    assert!(warnings.is_empty());
}

#[test]
fn member_errors_in_order() {
    let mut b = bundle();
    let mut bad = member(" ", Some(0), "  ");
    bad.points_balance = Some(-5);
    let mut dup = member("M1", Some(7), "A");
    dup.mobile = Some(" 12345 ".to_string());
    b.members = vec![member("M1", Some(7), "A"), bad, dup];
    let mut errors = Vec::new();
    let mut warnings = Vec::new();
    validate_import_bundle(&b, &mut errors, &mut warnings);
    assert_eq!(
        codes(&errors),
        vec![
            item("MEMBER", None, "EMPTY_LEGACY_PK"),
            item("MEMBER", Some(" "), "EMPTY_NAME"),
            item("MEMBER", Some(" "), "INVALID_MEMBER_NO"),
            item("MEMBER", Some(" "), "NEGATIVE_POINTS"),
            item("MEMBER", Some("M1"), "DUPLICATE_LEGACY_PK"),
            item("MEMBER", Some("M1"), "DUPLICATE_MEMBER_NO"),
        ]
    );
    assert_eq!(errors[0].error_message, "会员 legacyPk 不能为空");
    assert_eq!(warnings, vec!["会员 M1 的手机号长度偏短，请人工确认".to_string()]);
}

#[test]
fn mobile_length_counts_bytes() {
    let mut b = bundle();
    let mut m = member("M1", None, "A");
    m.mobile = Some("一二三".to_string());
    b.members = vec![m];
    let mut errors = Vec::new();
    let mut warnings = Vec::new();
    validate_import_bundle(&b, &mut errors, &mut warnings);
    assert!(warnings.is_empty());
}

#[test]
fn consumption_gift_and_redemption_errors() {
    let mut b = bundle();
    b.members = vec![member("M1", None, "A")];
    let mut c2 = consumption("C1", "MX", 0.0);
    c2.points_added = Some(-1);
    b.consumptions = vec![consumption("C1", "M1", 5.0), c2, consumption("C3", "M1", f64::NAN)];
    b.gifts = vec![gift(None, " 杯子 "), gift(None, "杯子"), gift(Some("G9"), " ")];
    let mut r2 = redemption("R1", "MX");
    r2.qty = Some(0);
    r2.points_used = Some(-3);
    b.redemptions = vec![redemption("R1", "M1"), r2];
    let mut errors = Vec::new();
    let mut warnings = Vec::new();
    validate_import_bundle(&b, &mut errors, &mut warnings);
    assert_eq!(
        codes(&errors),
        vec![
            item("CONSUMPTION", Some("C1"), "DUPLICATE_LEGACY_PK"),
            item("CONSUMPTION", Some("C1"), "INVALID_AMOUNT"),
            item("CONSUMPTION", Some("C1"), "INVALID_POINTS"),
            item("CONSUMPTION", Some("C1"), "MISSING_MEMBER"),
            item("GIFT", Some("gift::杯子"), "DUPLICATE_GIFT"),
            item("GIFT", Some("G9"), "EMPTY_NAME"),
            item("REDEMPTION", Some("R1"), "DUPLICATE_LEGACY_PK"),
            item("REDEMPTION", Some("R1"), "MISSING_MEMBER"),
            item("REDEMPTION", Some("R1"), "INVALID_QTY"),
            item("REDEMPTION", Some("R1"), "INVALID_POINTS"),
        ]
    );
}

#[test]
fn negative_amount_is_invalid() {
    let mut b = bundle();
    b.members = vec![member("M1", None, "A")];
    b.consumptions = vec![consumption("C1", "M1", -0.0), consumption("C2", "M1", -3.0)];
    let mut errors = Vec::new();
    let mut warnings = Vec::new();
    validate_import_bundle(&b, &mut errors, &mut warnings);
    assert_eq!(errors.len(), 2);
    assert!(errors.iter().all(|e| e.error_code == "INVALID_AMOUNT"));
}

#[test]
fn gift_identity_prefers_legacy_key() {
    assert_eq!(gift_identity(&gift(Some("G1"), "x")), "G1");
    assert_eq!(gift_identity(&gift(None, "  x y ")), "gift::x y");
}

#[test]
fn import_mode_depends_on_history() {
    let mut b = bundle();
    assert_eq!(import_mode_of(&b), "BALANCE_ONLY");
    b.redemptions = vec![redemption("R1", "M1")];
    assert_eq!(import_mode_of(&b), "FULL_HISTORY");
}

#[test]
fn join_keys_with_bars() {
    assert_eq!(join_keys(&vec![]), "");
    assert_eq!(join_keys(&vec!["a".to_string()]), "a");
    assert_eq!(join_keys(&vec!["a".to_string(), "b".to_string(), "c".to_string()]), "a|b|c");
}

#[test]
fn fingerprint_follows_its_source() {
    let mut b = bundle();
    b.members = vec![member("M1", None, "A"), member("M2", None, "B")];
    b.consumptions = vec![consumption("C1", "M1", 1.0)];
    b.redemptions = vec![redemption("R1", "M2")];
    let inner = sha256_hex("C1|R1".as_bytes());
    let source = format!("HASH|ALL|2|1|1|0|M1|M2|{}", inner);
    assert_eq!(precheck_fingerprint("HASH", "ALL", &b), sha256_hex(source.as_bytes()));
    assert_eq!(precheck_fingerprint("HASH", "ALL", &b), precheck_fingerprint("HASH", "ALL", &b));
    assert_ne!(precheck_fingerprint("HASH", "ALL", &b), precheck_fingerprint("HASH2", "ALL", &b));
}

#[test]
fn precheck_blocks_duplicates_and_errors() {
    let mut b = bundle();
    b.members = vec![member("M1", None, "A")];
    let ok = build_precheck("B1".into(), "f.json".into(), &b, "ALL".into(), "fp".into(), false);
    assert!(ok.can_execute);
    assert_eq!(ok.member_count, 1);
    assert_eq!(ok.import_mode, "BALANCE_ONLY");
    assert!(ok.warnings.is_empty());
    let dup = build_precheck("B1".into(), "f.json".into(), &b, "ALL".into(), "fp".into(), true);
    assert!(!dup.can_execute);
    assert_eq!(dup.warnings, vec!["系统检测到同指纹批次已成功导入，本次预检结果仅供查看".to_string()]);
    b.members.push(member("M1", None, "B"));
    let bad = build_precheck("B1".into(), "f.json".into(), &b, "ALL".into(), "fp".into(), false);
    assert!(!bad.can_execute);
    assert_eq!(bad.errors.len(), 1);
}

#[test]
fn execution_refuses_blocked_changed_and_repeated_batches() {
    let b = bundle();
    let dup = build_precheck("B1".into(), "f.json".into(), &b, "ALL".into(), "fp".into(), true);
    let cache = MigrationPrecheckCache { precheck: dup, source_file_hash: "h1".into(), source: b.clone() };
    assert_eq!(check_precheck_executable(&cache), Err(CommandError::BatchNotExecutable));
    assert_eq!(check_source_unchanged(&cache, "h1"), Ok(()));
    assert_eq!(check_source_unchanged(&cache, "h2"), Err(CommandError::SourceFileChanged));
    assert_eq!(check_batch_not_imported(true), Err(CommandError::BatchAlreadyImported));
    assert_eq!(check_batch_not_imported(false), Ok(()));
    assert_eq!(CommandError::BatchAlreadyImported.message(), "该数据批次已成功导入，系统已阻止重复入库");
    let fresh = build_precheck("B2".into(), "f.json".into(), &b, "ALL".into(), "fp".into(), false);
    let cache = MigrationPrecheckCache { precheck: fresh, source_file_hash: "h1".into(), source: b };
    assert_eq!(check_precheck_executable(&cache), Ok(()));
}

#[test]
fn keymap_reads_what_was_written() {
    let mut m = KeyMap::new();
    assert_eq!(m.get("a"), None);
    m.insert("a".to_string(), 1);
    m.insert("b".to_string(), 2);
    m.insert("a".to_string(), 3);
    assert_eq!(m.get("a"), Some(3));
    assert_eq!(m.get("b"), Some(2));
    assert_eq!(m.get("c"), None);
    let ctx = ImportContext::default();
    assert_eq!(ctx.member_map.get("a"), None);
}

