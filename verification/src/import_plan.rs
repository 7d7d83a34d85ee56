//! What importing each record of a migration file writes, decided from the
//! record, what the import has done so far, and what is stored.
use vstd::prelude::*;
use crate::clock::{is_local_time_text, now_string};
use crate::errors::CommandError;
use crate::keymap::{ImportContext, KeyMap};
use crate::members::copy_text;
use crate::models::{CommandResult, ImportConsumption, ImportMember, ImportRedemption};
use crate::name_pinyin::{generate_pinyin, name_pinyin};
use crate::numtext::{i64_text, in_i64, int_text};
use crate::text::{concat_str, normalize_optional_text, normalized_text, opt_view, trim_text, trimmed};

verus! {

pub open spec fn is_balance_only(mode: Seq<char>) -> bool {
    mode == "BALANCE_ONLY"@
}

/// What importing a member writes.
#[derive(Debug, Clone, PartialEq)]
pub struct ImportMemberPlan {
    pub member_no: i64,
    pub name: String,
    pub gender: Option<String>,
    pub birth_month: Option<String>,
    pub birth_day: Option<String>,
    pub mobile: Option<String>,
    pub name_pinyin: String,
    pub name_initials: String,
    pub points_balance: i64,
    pub total_spent_bits: u64,
    pub last_consume_at: Option<String>,
    pub remark: Option<String>,
    /// Whether the opening balance gets a ledger entry of its own.
    pub opening_ledger: bool,
}

/// Plans the import of a member: it keeps its number where that is positive
/// and takes the next generated number otherwise. When only balances are
/// imported, the member starts with its points, spending and last purchase
/// from the file (and a ledger entry for positive points); when the whole
/// history is imported, it starts from nothing.
pub fn plan_import_member(member: &ImportMember, import_mode: &str, next_no: &mut i64) -> (r:
    ImportMemberPlan)
    requires
        !(member.member_no matches Some(n) && n > 0) ==> *old(next_no) < i64::MAX,
    ensures
        (member.member_no matches Some(n) && n > 0) ==> r.member_no == member.member_no->0
            && *final(next_no) == *old(next_no),
        !(member.member_no matches Some(n) && n > 0) ==> r.member_no == *old(next_no)
            && *final(next_no) == *old(next_no) + 1,
        r.name@ == trimmed(member.name@),
        opt_view(r.gender) == normalized_text(opt_view(member.gender)),
        opt_view(r.birth_month) == normalized_text(opt_view(member.birth_month)),
        opt_view(r.birth_day) == normalized_text(opt_view(member.birth_day)),
        opt_view(r.mobile) == normalized_text(opt_view(member.mobile)),
        opt_view(r.remark) == normalized_text(opt_view(member.remark)),
        (r.name_pinyin@, r.name_initials@) == name_pinyin(trimmed(member.name@)),
        is_balance_only(import_mode@) ==> r.points_balance == match member.points_balance {
            Some(b) => b,
            None => 0,
        } && r.total_spent_bits == match member.total_spent_bits {
            Some(b) => b,
            None => 0,
        } && opt_view(r.last_consume_at) == opt_view(member.last_consume_at),
        !is_balance_only(import_mode@) ==> r.points_balance == 0 && r.total_spent_bits == 0
            && r.last_consume_at is None,
        r.opening_ledger == (is_balance_only(import_mode@) && r.points_balance > 0),
{
    let member_no = match member.member_no {
        Some(value) if value > 0 => value,
        _ => {
            let generated: i64 = *next_no;
            *next_no = *next_no + 1;
            generated
        },
    };
    let name = trim_text(member.name.as_str());
    let (name_pinyin, name_initials) = generate_pinyin(name.as_str());
    let balance_only = String::from_str(import_mode) == String::from_str("BALANCE_ONLY");
    let points_balance = if balance_only {
        match member.points_balance {
            Some(b) => b,
            None => 0,
        }
    } else {
        0
    };
    let total_spent_bits = if balance_only {
        match member.total_spent_bits {
            Some(b) => b,
            None => 0,
        }
    } else {
        0
    };
    let last_consume_at = if balance_only {
        copy_text(&member.last_consume_at)
    } else {
        None
    };
    ImportMemberPlan {
        member_no,
        name,
        gender: normalize_optional_text(copy_text(&member.gender)),
        birth_month: normalize_optional_text(copy_text(&member.birth_month)),
        birth_day: normalize_optional_text(copy_text(&member.birth_day)),
        mobile: normalize_optional_text(copy_text(&member.mobile)),
        name_pinyin,
        name_initials,
        points_balance,
        total_spent_bits,
        last_consume_at,
        remark: normalize_optional_text(copy_text(&member.remark)),
        opening_ledger: balance_only && points_balance > 0,
    }
}

/// The id an earlier step of the import gave the member with this legacy key.
pub fn import_member_id(ctx: &ImportContext, member_legacy_pk: &str) -> (r: Result<
    i64,
    CommandError,
>)
    ensures
        ctx.member_map@.contains_key(member_legacy_pk@) ==> r == Ok::<i64, CommandError>(
            ctx.member_map@[member_legacy_pk@],
        ),
        !ctx.member_map@.contains_key(member_legacy_pk@) ==> r == Err::<i64, CommandError>(
            CommandError::MemberMappingMissing,
        ),
{
    match ctx.member_map.get(member_legacy_pk) {
        Some(id) => Ok(id),
        None => Err(CommandError::MemberMappingMissing),
    }
}

/// The text that stands where an operator's name is missing.
pub open spec fn import_operator() -> Seq<char> {
    "系统导入"@
}

fn operator_or_import(v: &Option<String>) -> (r: String)
    ensures
        r@ == match opt_view(*v) {
            Some(s) => s,
            None => import_operator(),
        },
{
    match v {
        Some(s) => s.clone(),
        None => String::from_str("系统导入"),
    }
}

/// The given time, or the current time where none is given.
fn time_or_now(v: &Option<String>) -> (r: String)
    ensures
        opt_view(*v) matches Some(s) ==> r@ == s,
        v is None ==> is_local_time_text(r@),
{
    match v {
        Some(s) => s.clone(),
        None => now_string(),
    }
}

/// What importing a past purchase writes.
#[derive(Debug, Clone, PartialEq)]
pub struct ImportConsumptionPlan {
    pub points_added: i64,
    pub new_balance: i64,
    pub created_at: String,
    pub operator_name: String,
    pub remark: Option<String>,
}

/// Plans the import of a past purchase: it earns the points the file gives,
/// or `rule_points` (what the points rule makes of the amount) where the file
/// gives none, and they are added to the member's current balance.
pub fn plan_import_consumption(
    consume: &ImportConsumption,
    current_balance: i64,
    rule_points: i64,
) -> (r: ImportConsumptionPlan)
    requires
        in_i64(
            current_balance + match consume.points_added {
                Some(p) => p,
                None => rule_points,
            },
        ),
    ensures
        r.points_added == match consume.points_added {
            Some(p) => p,
            None => rule_points,
        },
        r.new_balance == current_balance + r.points_added,
        opt_view(consume.created_at) matches Some(t) ==> r.created_at@ == t,
        consume.created_at is None ==> is_local_time_text(r.created_at@),
        r.operator_name@ == match opt_view(consume.operator_name) {
            Some(s) => s,
            None => import_operator(),
        },
        opt_view(r.remark) == normalized_text(opt_view(consume.remark)),
{
    let points_added = match consume.points_added {
        Some(p) => p,
        None => rule_points,
    };
    ImportConsumptionPlan {
        points_added,
        new_balance: current_balance + points_added,
        created_at: time_or_now(&consume.created_at),
        operator_name: operator_or_import(&consume.operator_name),
        remark: normalize_optional_text(copy_text(&consume.remark)),
    }
}

/// The id an earlier step of the import gave the redeemed gift, where the
/// redemption names one that was imported.
pub fn import_gift_id(ctx: &ImportContext, redemption: &ImportRedemption) -> (r: Option<i64>)
    ensures
        r == match redemption.gift_legacy_pk {
            Some(pk) => if ctx.gift_map@.contains_key(pk@) {
                Some(ctx.gift_map@[pk@])
            } else {
                None
            },
            None => None,
        },
{
    match &redemption.gift_legacy_pk {
        Some(pk) => ctx.gift_map.get(pk.as_str()),
        None => None,
    }
}

/// The name a past redemption keeps of its gift: the stored gift's name, else
/// the name in the file, else "历史礼品".
pub open spec fn redemption_gift_name(
    gift_id: Option<i64>,
    stored_name: Option<Seq<char>>,
    file_name: Option<Seq<char>>,
) -> Seq<char> {
    let from_file = match file_name {
        Some(n) => n,
        None => "历史礼品"@,
    };
    if gift_id is Some {
        match stored_name {
            Some(n) => n,
            None => from_file,
        }
    } else {
        from_file
    }
}

/// The name a past redemption keeps: the file's name wherever no stored gift
/// name stands in for it (no imported gift matched, or the matched gift has no
/// stored name); the stored name of a matched gift where there is one; and
/// "历史礼品" only where neither gives a name.
pub proof fn lemma_redemption_gift_name(
    gift_id: Option<i64>,
    stored_name: Option<Seq<char>>,
    file_name: Option<Seq<char>>,
)
    ensures
        gift_id is None && file_name is Some ==> redemption_gift_name(gift_id, stored_name, file_name)
            == file_name->0,
        gift_id is Some && stored_name is Some ==> redemption_gift_name(gift_id, stored_name, file_name)
            == stored_name->0,
        gift_id is Some && stored_name is None && file_name is Some ==> redemption_gift_name(
            gift_id,
            stored_name,
            file_name,
        ) == file_name->0,
        (gift_id is None || stored_name is None) && file_name is None ==> redemption_gift_name(
            gift_id,
            stored_name,
            file_name,
        ) == "历史礼品"@,
{
}

/// What importing a past redemption writes.
#[derive(Debug, Clone, PartialEq)]
pub struct ImportRedemptionPlan {
    pub gift_id: Option<i64>,
    pub gift_name: String,
    pub qty: i64,
    pub points_used: i64,
    pub points_delta: i64,
    pub new_balance: i64,
    pub created_at: String,
    pub operator_name: String,
    pub remark: Option<String>,
}

/// The points a past redemption used: those the file gives, else the stored
/// gift's cost times the quantity; `None` where neither is known.
pub open spec fn redemption_points(
    points_used: Option<i64>,
    gift_id: Option<i64>,
    unit_cost: Option<i64>,
    qty: i64,
) -> Option<int> {
    match points_used {
        Some(p) => Some(p as int),
        None => if gift_id is Some {
            Some(unit_cost->0 * qty)
        } else {
            None
        },
    }
}

/// The points of a past redemption are those the file gives, whatever the
/// gift; where the file gives none they are the matched gift's cost times the
/// quantity; where it gives none and no gift matched they are unknown.
pub proof fn lemma_redemption_points(
    points_used: Option<i64>,
    gift_id: Option<i64>,
    unit_cost: Option<i64>,
    qty: i64,
)
    ensures
        points_used matches Some(p) ==> redemption_points(points_used, gift_id, unit_cost, qty)
            == Some(p as int),
        points_used is None && gift_id is Some && unit_cost is Some ==> redemption_points(
            points_used,
            gift_id,
            unit_cost,
            qty,
        ) == Some(unit_cost->0 * qty),
        points_used is None && gift_id is None ==> redemption_points(
            points_used,
            gift_id,
            unit_cost,
            qty,
        ) is None,
{
}

/// Plans the import of a past redemption, given the gift it was for (where
/// that gift was imported), that gift's stored name and cost, and the member's
/// current balance. It fails where the file gives no points and no gift to
/// reckon them from. Its ledger entry records the negated points, so that the
/// new balance is the old one plus the entry.
pub fn plan_import_redemption(
    redemption: &ImportRedemption,
    current_balance: i64,
    gift_id: Option<i64>,
    stored_gift_name: Option<String>,
    unit_cost: Option<i64>,
) -> (r: Result<ImportRedemptionPlan, CommandError>)
    requires
        redemption.points_used is None && gift_id is Some ==> unit_cost is Some,
        ({
            let qty = match redemption.qty {
                Some(q) => q,
                None => 1,
            };
            redemption_points(redemption.points_used, gift_id, unit_cost, qty) matches Some(p)
                ==> in_i64(p) && in_i64(-p) && in_i64(current_balance - p)
        }),
    ensures
        ({
            let qty = match redemption.qty {
                Some(q) => q,
                None => 1,
            };
            match redemption_points(redemption.points_used, gift_id, unit_cost, qty) {
                None => r == Err::<ImportRedemptionPlan, CommandError>(
                    CommandError::RedemptionPointsUnknown,
                ),
                Some(p) => r matches Ok(plan) && plan.gift_id == gift_id && plan.qty == qty
                    && plan.points_used == p && plan.points_delta == -p && plan.new_balance
                    == current_balance - p && plan.new_balance == current_balance + plan.points_delta
                    && plan.gift_name@ == redemption_gift_name(
                    gift_id,
                    opt_view(stored_gift_name),
                    opt_view(redemption.gift_name),
                ) && (opt_view(redemption.created_at) matches Some(t) ==> plan.created_at@ == t)
                    && (redemption.created_at is None ==> is_local_time_text(plan.created_at@))
                    && plan.operator_name@ == match opt_view(redemption.operator_name) {
                    Some(s) => s,
                    None => import_operator(),
                } && opt_view(plan.remark) == normalized_text(opt_view(redemption.remark)),
            }
        }),
{
    let from_file = match &redemption.gift_name {
        Some(n) => n.clone(),
        None => String::from_str("历史礼品"),
    };
    let gift_name = if gift_id.is_some() {
        match stored_gift_name {
            Some(n) => n,
            None => from_file,
        }
    } else {
        from_file
    };
    let qty = match redemption.qty {
        Some(q) => q,
        None => 1,
    };
    let points_used = match redemption.points_used {
        Some(p) => p,
        None => {
            if gift_id.is_some() {
                let cost = match unit_cost {
                    Some(c) => c,
                    None => 0,
                };
                cost * qty
            } else {
                return Err(CommandError::RedemptionPointsUnknown);
            }
        },
    };
    Ok(
        ImportRedemptionPlan {
            gift_id,
            gift_name,
            qty,
            points_used,
            points_delta: -points_used,
            new_balance: current_balance - points_used,
            created_at: time_or_now(&redemption.created_at),
            operator_name: operator_or_import(&redemption.operator_name),
            remark: normalize_optional_text(copy_text(&redemption.remark)),
        },
    )
}

/// The member id and target balance that a member's balance is corrected to
/// after a full-history import: only for members the import mapped and whose
/// file gives a balance.
pub fn reconcile_target(ctx: &ImportContext, member: &ImportMember) -> (r: Option<(i64, i64)>)
    ensures
        r == (if ctx.member_map@.contains_key(member.legacy_pk@) && member.points_balance is Some {
            Some((ctx.member_map@[member.legacy_pk@], member.points_balance->0))
        } else {
            None
        }),
{
    let member_id = match ctx.member_map.get(member.legacy_pk.as_str()) {
        Some(id) => id,
        None => {
            return None;
        },
    };
    match member.points_balance {
        Some(target) => Some((member_id, target)),
        None => None,
    }
}

/// How an import batch ended.
#[derive(Debug, Clone, PartialEq)]
pub struct ImportOutcome {
    pub status: String,
    pub error_message: Option<String>,
    pub result: CommandResult,
}

/// The end of an import: "SUCCESS" where nothing failed, "FAILED" with a note
/// to read the report otherwise, and the counts in the message.
pub fn import_outcome(success_count: i64, failed_count: i64, batch_no: String) -> (r:
    ImportOutcome)
    ensures
        failed_count == 0 ==> r.status@ == "SUCCESS"@ && r.error_message is None
            && r.result.message@ == "导入完成，共成功处理 "@ + int_text(success_count as int)
            + " 条数据"@,
        failed_count != 0 ==> r.status@ == "FAILED"@ && (r.error_message matches Some(m)
            && m@ == "部分数据导入失败，请查看导入报告"@) && r.result.message@ == "导入完成，成功 "@
            + int_text(success_count as int) + " 条，失败 "@ + int_text(failed_count as int)
            + " 条"@,
        r.result.success == (failed_count == 0),
        r.result.target_id matches Some(t) && t@ == batch_no@,
{
    if failed_count == 0 {
        let a = concat_str("导入完成，共成功处理 ", i64_text(success_count).as_str());
        ImportOutcome {
            status: String::from_str("SUCCESS"),
            error_message: None,
            result: CommandResult {
                success: true,
                message: concat_str(a.as_str(), " 条数据"),
                target_id: Some(batch_no),
            },
        }
    } else {
        let a = concat_str("导入完成，成功 ", i64_text(success_count).as_str());
        let b = concat_str(a.as_str(), " 条，失败 ");
        let c = concat_str(b.as_str(), i64_text(failed_count).as_str());
        ImportOutcome {
            status: String::from_str("FAILED"),
            error_message: Some(String::from_str("部分数据导入失败，请查看导入报告")),
            result: CommandResult {
                success: false,
                message: concat_str(c.as_str(), " 条"),
                target_id: Some(batch_no),
            },
        }
    }
}

/// An imported member's number must not be held by a member already: refused,
/// naming the number, where `holders` is positive.
pub fn check_import_member_no_unused(holders: i64, member_no: i64) -> (r: Result<(), CommandError>)
    ensures
        holders > 0 ==> r == Err::<(), CommandError>(
            CommandError::ImportMemberNoExists { member_no },
        ),
        holders <= 0 ==> r is Ok,
{
    if holders > 0 {
        Err(CommandError::ImportMemberNoExists { member_no })
    } else {
        Ok(())
    }
}

/// A record that an earlier import of the batch wrote (the entity map gives its
/// id) is not written again; a gift or member keeps that id under its legacy
/// key. Tells whether the record is skipped.
pub fn reuse_existing_mapping(map: &mut KeyMap, legacy_pk: String, existing_id: Option<i64>) -> (skip:
    bool)
    ensures
        skip == existing_id is Some,
        existing_id matches Some(id) ==> final(map)@ == old(map)@.insert(legacy_pk@, id),
        existing_id is None ==> final(map)@ == old(map)@,
{
    match existing_id {
        Some(id) => {
            map.insert(legacy_pk, id);
            true
        },
        None => false,
    }
}

/// How many records of a batch have been imported and how many failed.
#[derive(Debug, Clone, Copy, PartialEq)]
pub struct ImportProgress {
    pub success_count: i64,
    pub failed_count: i64,
}

/// The count before any record is imported.
pub fn import_start() -> (r: ImportProgress)
    ensures
        r.success_count == 0 && r.failed_count == 0,
{
    ImportProgress { success_count: 0, failed_count: 0 }
}

/// Counts one more record: a success where it was imported, a failure where it
/// was not. Every record is counted exactly once.
pub fn import_step(p: ImportProgress, imported: bool) -> (r: ImportProgress)
    requires
        imported ==> p.success_count < i64::MAX,
        !imported ==> p.failed_count < i64::MAX,
    ensures
        imported ==> r.success_count == p.success_count + 1 && r.failed_count == p.failed_count,
        !imported ==> r.failed_count == p.failed_count + 1 && r.success_count == p.success_count,
        r.success_count + r.failed_count == p.success_count + p.failed_count + 1,
{
    if imported {
        ImportProgress { success_count: p.success_count + 1, failed_count: p.failed_count }
    } else {
        ImportProgress { success_count: p.success_count, failed_count: p.failed_count + 1 }
    }
}

} // verus!
