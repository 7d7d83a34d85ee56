use member_club::members::{check_member_no_not_taken, check_member_no_unused};
use member_club::import_plan::{check_import_member_no_unused, import_start, import_step, reuse_existing_mapping};
use member_club::errors::CommandError;
use member_club::gifts::{
    check_redeem_qty, check_redemption_eligibility, plan_redemption, prepare_gift_save, prepare_import_gift, GiftForRedeem, MemberPoints,
};
use member_club::import_plan::{
    import_gift_id, import_member_id, import_outcome, plan_import_consumption, plan_import_member,
    plan_import_redemption, reconcile_target,
};
use member_club::keymap::{ImportContext, KeyMap};
use member_club::members::{choose_member_no, prepare_member_form, validate_member_birth_part};
use member_club::models::{
    GiftRecord, ImportConsumption, ImportGift, ImportMember, ImportRedemption, MemberFormPayload,
    OperationLogFilter,
};
use member_club::points::{
    balance_adjustment, check_consume_amount, check_consume_member, consume_result, plan_consumption,
    points_rule_divisor, redeem_result,
};
use member_club::queries::{
    backup_dir_choice, plan_log_query, plan_member_search, report_month, vacuum_into_sql,
};
use member_club::clock::backup_file_name;

fn form(name: &str, month: Option<&str>, day: Option<&str>) -> MemberFormPayload {
    MemberFormPayload {
        member_no: None,
        name: name.to_string(),
        gender: Some(" 男 ".to_string()),
        birth_month: month.map(|s| s.to_string()),
        birth_day: day.map(|s| s.to_string()),
        mobile: Some("  ".to_string()),
        remark: None,
    }
}

#[test]
fn birth_parts() {
    assert_eq!(validate_member_birth_part("生日月", Some(" 3 ".into()), 1, 12), Ok(Some("03".into())));
    assert_eq!(validate_member_birth_part("生日月", Some("12".into()), 1, 12), Ok(Some("12".into())));
    assert_eq!(validate_member_birth_part("生日月", Some("  ".into()), 1, 12), Ok(None));
    assert_eq!(validate_member_birth_part("生日月", None, 1, 12), Ok(None));
    let e = validate_member_birth_part("生日月", Some("1a".into()), 1, 12).unwrap_err();
    assert_eq!(e.message(), "生日月必须为数字");
    let e = validate_member_birth_part("生日日", Some("-1".into()), 1, 31).unwrap_err();
    assert_eq!(e.message(), "生日日必须为数字");
    let e = validate_member_birth_part("生日月", Some("13".into()), 1, 12).unwrap_err();
    assert_eq!(e.message(), "生日月必须在 1 到 12 之间");
    let e = validate_member_birth_part("生日日", Some("99999999999999999999".into()), 1, 31).unwrap_err();
    assert_eq!(e.message(), "生日日格式不正确");
    assert_eq!(validate_member_birth_part("生日日", Some("007".into()), 1, 31), Ok(Some("07".into())));
}

#[test]
fn member_form() {
    let f = prepare_member_form(&form(" 张三 ", Some("2"), None)).unwrap();
    assert_eq!(f.name, "张三");
    assert_eq!(f.birth_month, Some("02".into()));
    assert_eq!(f.birth_day, None);
    assert_eq!(f.gender, Some("男".into()));
    assert_eq!(f.mobile, None);
    assert_eq!(f.name_pinyin, "zhangsan");
    assert_eq!(f.name_initials, "zs");
    assert_eq!(prepare_member_form(&form("  ", Some("x"), None)), Err(CommandError::MemberNameRequired));
    assert_eq!(prepare_member_form(&form("A", Some("0"), Some("x"))).unwrap_err().message(), "生日月必须在 1 到 12 之间");
    assert_eq!(prepare_member_form(&form("A", None, Some("32"))).unwrap_err().message(), "生日日必须在 1 到 31 之间");
    assert_eq!(choose_member_no(Some(5), 100001), 5);
    assert_eq!(choose_member_no(Some(0), 100001), 100001);
    assert_eq!(choose_member_no(None, 100001), 100001);
}

fn member_points(balance: i64, status: &str) -> MemberPoints {
    MemberPoints { points_balance: balance, status: status.to_string() }
}

fn redeem_gift(cost: i64, status: &str, unique: bool) -> GiftForRedeem {
    GiftForRedeem { gift_name: "水杯".into(), points_cost: cost, status: status.into(), unique_per_member: unique }
}

#[test]
fn redemption_decisions() {
    let ok = plan_redemption(2, Some(member_points(100, "ACTIVE")), Some(redeem_gift(30, "ACTIVE", false)), 0).unwrap();
    assert_eq!((ok.points_used, ok.new_balance, ok.qty), (60, 40, 2));
    assert_eq!(ok.points_delta, -60);
    assert_eq!(ok.gift_name_snapshot, "水杯");
    let exact = plan_redemption(1, Some(member_points(30, "ACTIVE")), Some(redeem_gift(30, "ACTIVE", true)), 0).unwrap();
    assert_eq!(exact.new_balance, 0);
    let cases = [
        (0, Some(member_points(100, "ACTIVE")), Some(redeem_gift(1, "ACTIVE", false)), 0, CommandError::RedeemQtyNotPositive),
        (1, None, Some(redeem_gift(1, "ACTIVE", false)), 0, CommandError::MemberNotFound),
        (1, Some(member_points(100, "INACTIVE")), None, 0, CommandError::InactiveMemberRedeem),
        (1, Some(member_points(100, "ACTIVE")), None, 0, CommandError::GiftNotFound),
        (1, Some(member_points(100, "ACTIVE")), Some(redeem_gift(1, "INACTIVE", false)), 0, CommandError::GiftDisabled),
        (2, Some(member_points(100, "ACTIVE")), Some(redeem_gift(1, "ACTIVE", true)), 0, CommandError::UniqueGiftQty),
        (1, Some(member_points(100, "ACTIVE")), Some(redeem_gift(1, "ACTIVE", true)), 1, CommandError::UniqueGiftRedeemed),
        (4, Some(member_points(100, "ACTIVE")), Some(redeem_gift(30, "ACTIVE", false)), 0, CommandError::InsufficientPoints),
    ];
    for (qty, m, g, count, expected) in cases {
        assert_eq!(plan_redemption(qty, m, g, count), Err(expected));
    }
    assert_eq!(CommandError::InsufficientPoints.message(), "会员积分不足");
    assert_eq!(check_redeem_qty(0), Err(CommandError::RedeemQtyNotPositive));
    assert_eq!(check_redeem_qty(1), Ok(()));
    assert_eq!(
        check_redemption_eligibility(1, &Some(member_points(0, "ACTIVE")), &Some(redeem_gift(i64::MAX, "ACTIVE", false)), 0),
        Ok(())
    );
    assert_eq!(
        check_redemption_eligibility(1, &Some(member_points(0, "INACTIVE")), &None, 0),
        Err(CommandError::InactiveMemberRedeem)
    );
    assert_eq!(redeem_result(60, "R1".into()).message, "兑换成功，扣减 60 积分");
}

#[test]
fn gift_save_checks() {
    let mut g = GiftRecord {
        id: None,
        gift_name: " 水杯 ".into(),
        points_cost: 10,
        stock_qty: 3,
        status: None,
        unique_per_member: Some(true),
        remark: Some(" ".into()),
        created_at: None,
        updated_at: None,
    };
    let f = prepare_gift_save(&g).unwrap();
    assert_eq!((f.gift_name.as_str(), f.status.as_str(), f.unique_per_member, f.remark), ("水杯", "ACTIVE", 1, None));
    g.points_cost = -1;
    assert_eq!(prepare_gift_save(&g), Err(CommandError::GiftPointsNegative));
    g.gift_name = " ".into();
    assert_eq!(prepare_gift_save(&g), Err(CommandError::GiftNameRequired));
    let ig = ImportGift { legacy_pk: None, gift_name: " 笔 ".into(), points_cost: 5, stock_qty: None, status: Some("INACTIVE".into()), unique_per_member: None, remark: None };
    let f = prepare_import_gift(&ig);
    assert_eq!((f.gift_name.as_str(), f.stock_qty, f.status.as_str(), f.unique_per_member), ("笔", 0, "INACTIVE", 0));
}

#[test]
fn consumption_decisions() {
    assert_eq!(check_consume_amount(0.0f64.to_bits()), Err(CommandError::ConsumeAmountNotPositive));
    assert_eq!(check_consume_amount((-2.5f64).to_bits()), Err(CommandError::ConsumeAmountNotPositive));
    assert_eq!(check_consume_amount(f64::NEG_INFINITY.to_bits()), Err(CommandError::ConsumeAmountNotPositive));
    assert_eq!(check_consume_amount(0.01f64.to_bits()), Ok(()));
    assert_eq!(check_consume_amount(f64::NAN.to_bits()), Ok(()));
    assert_eq!(points_rule_divisor(0), 1);
    assert_eq!(points_rule_divisor(15), 15);
    assert_eq!(plan_consumption(Some(member_points(10, "ACTIVE")), 5), Ok(15));
    assert_eq!(plan_consumption(Some(member_points(10, "INACTIVE")), 5), Err(CommandError::InactiveMemberConsume));
    assert_eq!(plan_consumption(None, 5), Err(CommandError::MemberNotFound));
    assert_eq!(check_consume_member(&Some(member_points(i64::MAX, "INACTIVE"))), Err(CommandError::InactiveMemberConsume));
    assert_eq!(plan_consumption(Some(member_points(i64::MAX, "INACTIVE")), 1), Err(CommandError::InactiveMemberConsume));
    assert_eq!(check_consume_member(&Some(member_points(1, "ACTIVE"))), Ok(()));
    assert_eq!(consume_result(5, "C1".into()).message, "消费登记成功，本次增加 5 积分");
    assert_eq!(balance_adjustment(10, 10), None);
    assert_eq!(balance_adjustment(10, 4), Some(6));
    assert_eq!(balance_adjustment(-3, 4), Some(-7));
}

fn import_member(pk: &str, no: Option<i64>, balance: Option<i64>) -> ImportMember {
    ImportMember {
        legacy_pk: pk.into(),
        member_no: no,
        name: " 王五 ".into(),
        gender: None,
        birth_month: Some(" 1 ".into()),
        birth_day: None,
        mobile: None,
        points_balance: balance,
        total_spent_bits: Some(12.5f64.to_bits()),
        last_consume_at: Some("2020-01-01 00:00:00".into()),
        remark: None,
    }
}

#[test]
fn import_member_plans() {
    let mut next = 100005;
    let p = plan_import_member(&import_member("M1", Some(7), Some(20)), "BALANCE_ONLY", &mut next);
    assert_eq!((p.member_no, next), (7, 100005));
    assert_eq!((p.points_balance, p.total_spent_bits), (20, 12.5f64.to_bits()));
    assert!(p.opening_ledger);
    assert_eq!(p.name, "王五");
    assert_eq!(p.name_pinyin, "wangwu");
    assert_eq!(p.birth_month, Some("1".into()));
    let q = plan_import_member(&import_member("M2", Some(-1), Some(20)), "FULL_HISTORY", &mut next);
    assert_eq!((q.member_no, next), (100005, 100006));
    assert_eq!((q.points_balance, q.total_spent_bits, q.last_consume_at.clone(), q.opening_ledger), (0, 0, None, false));
    let r = plan_import_member(&import_member("M3", None, None), "BALANCE_ONLY", &mut next);
    assert_eq!((r.member_no, r.points_balance, r.opening_ledger), (100006, 0, false));
}

#[test]
fn import_mappings_and_history() {
    let mut ctx = ImportContext::default();
    ctx.member_map.insert("M1".into(), 11);
    ctx.gift_map.insert("G1".into(), 21);
    assert_eq!(import_member_id(&ctx, "M1"), Ok(11));
    assert_eq!(import_member_id(&ctx, "M9"), Err(CommandError::MemberMappingMissing));
    assert_eq!(CommandError::MemberMappingMissing.message(), "找不到关联会员映射");
    let c = ImportConsumption { legacy_pk: "C1".into(), member_legacy_pk: "M1".into(), amount_bits: 25.0f64.to_bits(), points_added: None, operator_name: None, remark: Some(" r ".into()), created_at: Some("2020-02-02 10:00:00".into()) };
    let plan = plan_import_consumption(&c, 100, 2);
    assert_eq!((plan.points_added, plan.new_balance, plan.created_at.as_str(), plan.operator_name.as_str(), plan.remark), (2, 102, "2020-02-02 10:00:00", "系统导入", Some("r".into())));
    let mut r = ImportRedemption { legacy_pk: "R1".into(), member_legacy_pk: "M1".into(), gift_legacy_pk: Some("G1".into()), gift_name: Some("旧名".into()), qty: Some(2), points_used: None, operator_name: Some("店员".into()), remark: None, created_at: None };
    let gift_id = import_gift_id(&ctx, &r);
    assert_eq!(gift_id, Some(21));
    let plan = plan_import_redemption(&r, 50, gift_id, None, Some(7)).unwrap();
    assert_eq!((plan.gift_name.as_str(), plan.qty, plan.points_used, plan.new_balance, plan.operator_name.as_str()), ("旧名", 2, 14, 36, "店员"));
    assert_eq!(plan.points_delta, -14);
    let plan = plan_import_redemption(&r, 50, gift_id, Some("水杯".into()), Some(7)).unwrap();
    assert_eq!(plan.gift_name, "水杯");
    r.gift_legacy_pk = Some("G9".into());
    r.gift_name = None;
    assert_eq!(import_gift_id(&ctx, &r), None);
    assert_eq!(plan_import_redemption(&r, 50, None, None, None), Err(CommandError::RedemptionPointsUnknown));
    r.points_used = Some(5);
    let plan = plan_import_redemption(&r, 50, None, None, None).unwrap();
    assert_eq!((plan.gift_name.as_str(), plan.points_used, plan.new_balance), ("历史礼品", 5, 45));
    assert_eq!(reconcile_target(&ctx, &import_member("M1", None, Some(9))), Some((11, 9)));
    assert_eq!(reconcile_target(&ctx, &import_member("M1", None, None)), None);
    assert_eq!(reconcile_target(&ctx, &import_member("M2", None, Some(9))), None);
}

#[test]
fn import_outcomes() {
    let ok = import_outcome(5, 0, "B1".into());
    assert_eq!((ok.status.as_str(), ok.error_message.clone(), ok.result.success), ("SUCCESS", None, true));
    assert_eq!(ok.result.message, "导入完成，共成功处理 5 条数据");
    let bad = import_outcome(3, 2, "B1".into());
    assert_eq!((bad.status.as_str(), bad.result.success), ("FAILED", false));
    assert_eq!(bad.error_message, Some("部分数据导入失败，请查看导入报告".into()));
    assert_eq!(bad.result.message, "导入完成，成功 3 条，失败 2 条");
    assert_eq!(bad.result.target_id, Some("B1".into()));
}

#[test]
fn search_and_log_plans() {
    let p = plan_member_search("  ZS ", 0, 500);
    assert_eq!((p.page_no, p.page_size, p.offset), (1, 100, 0));
    assert_eq!((p.keyword.as_str(), p.like.as_str(), p.initials_like.as_str()), ("ZS", "%ZS%", "zs%"));
    let p = plan_member_search("", 3, 0);
    assert_eq!((p.page_no, p.page_size, p.offset), (3, 1, 2));
    let l = plan_log_query(&OperationLogFilter { keyword: Some(" 会员 ".into()), module_name: None, limit: Some(900) });
    assert_eq!((l.keyword.as_str(), l.keyword_like.as_str(), l.module_name.as_str(), l.limit), ("会员", "%会员%", "", 500));
    let l = plan_log_query(&OperationLogFilter { keyword: None, module_name: Some("gift".into()), limit: None });
    assert_eq!((l.keyword.as_str(), l.module_name.as_str(), l.limit), ("", "gift", 80));
    assert_eq!(report_month("2024-05".into()), "2024-05");
    assert_eq!(report_month("  ".into()).len(), 7);
}

#[test]
fn backup_statement() {
    assert_eq!(vacuum_into_sql("/tmp/it's.db"), "VACUUM INTO '/tmp/it''s.db';");
    assert_eq!(backup_dir_choice(Some("  /x ".into()), "data/backup"), "/x");
    assert_eq!(backup_dir_choice(Some(" ".into()), "data/backup"), "data/backup");
    assert_eq!(backup_dir_choice(None, "data/backup"), "data/backup");
    let name = backup_file_name();
    assert!(name.starts_with("club_backup_") && name.ends_with(".db"));
    assert_eq!(name.len(), "club_backup_".len() + 15 + 3);
}

#[test]
fn import_member_no_message() {
    assert_eq!(CommandError::ImportMemberNoExists { member_no: 100001 }.message(), "会员编号 100001 已存在");
}

#[test]
fn member_number_refusals() {
    assert_eq!(check_member_no_unused(0), Ok(()));
    assert_eq!(check_member_no_unused(1), Err(CommandError::MemberNoExists));
    assert_eq!(check_member_no_not_taken(0), Ok(()));
    assert_eq!(check_member_no_not_taken(2), Err(CommandError::MemberNoTaken));
    assert_eq!(check_import_member_no_unused(0, 7), Ok(()));
    assert_eq!(check_import_member_no_unused(1, 7), Err(CommandError::ImportMemberNoExists { member_no: 7 }));
}

#[test]
fn import_tally_and_reuse() {
    let p = import_start();
    let p = import_step(p, true);
    let p = import_step(p, false);
    let p = import_step(p, true);
    assert_eq!((p.success_count, p.failed_count), (2, 1));
    let mut m = KeyMap::new();
    assert!(!reuse_existing_mapping(&mut m, "G1".to_string(), None));
    assert_eq!(m.get("G1"), None);
    assert!(reuse_existing_mapping(&mut m, "G1".to_string(), Some(42)));
    assert_eq!(m.get("G1"), Some(42));
}
