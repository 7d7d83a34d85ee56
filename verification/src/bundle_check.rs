//! Checking a migration file before anything of it is imported: every record
//! is looked at once, in file order, and each problem becomes one error (or,
//! for a short mobile number, one warning).
use vstd::prelude::*;
use vstd::utf8::encode_utf8;
use crate::floatbits::{bits_le_zero, f64_bits_le_zero};
use crate::models::{
    ImportBundle, ImportConsumption, ImportGift, ImportMember, ImportRedemption,
    MigrationErrorItem, MigrationErrorView,
};
use crate::text::{concat_str, is_blank, is_blank_text, opt_view, trim_text, trimmed};

verus! {

pub open spec fn err_view(
    entity: Seq<char>,
    pk: Option<Seq<char>>,
    code: Seq<char>,
    msg: Seq<char>,
) -> MigrationErrorView {
    MigrationErrorView { entity_type: entity, legacy_pk: pk, error_code: code, error_message: msg }
}

pub open spec fn error_views(v: Seq<MigrationErrorItem>) -> Seq<MigrationErrorView> {
    v.map_values(|e: MigrationErrorItem| e@)
}

pub open spec fn text_views(v: Seq<String>) -> Seq<Seq<char>> {
    v.map_values(|s: String| s@)
}

/// One error where `b` holds, none otherwise.
pub open spec fn when(b: bool, e: MigrationErrorView) -> Seq<MigrationErrorView> {
    if b {
        seq![e]
    } else {
        seq![]
    }
}

pub open spec fn or_default(v: Option<i64>, d: i64) -> i64 {
    match v {
        Some(x) => x,
        None => d,
    }
}

/// `str::len` of the text: the length of its UTF-8 encoding.
pub open spec fn utf8_len(s: Seq<char>) -> usize {
    encode_utf8(s).len() as usize
}

pub open spec fn member_pks(ms: Seq<ImportMember>) -> Seq<Seq<char>> {
    ms.map_values(|m: ImportMember| m.legacy_pk@)
}

/// The member numbers given in `ms`, in order.
pub open spec fn member_nos(ms: Seq<ImportMember>) -> Seq<i64>
    decreases ms.len(),
{
    if ms.len() == 0 {
        seq![]
    } else {
        let rest = member_nos(ms.drop_last());
        match ms.last().member_no {
            Some(n) => rest.push(n),
            None => rest,
        }
    }
}

/// The member's own problems and those with the keys of earlier members.
pub open spec fn member_key_errors(prior_pks: Seq<Seq<char>>, m: ImportMember) -> Seq<
    MigrationErrorView,
> {
    let pk = m.legacy_pk@;
    when(
        is_blank_text(pk),
        err_view("MEMBER"@, None, "EMPTY_LEGACY_PK"@, "会员 legacyPk 不能为空"@),
    ) + when(
        prior_pks.contains(pk),
        err_view("MEMBER"@, Some(pk), "DUPLICATE_LEGACY_PK"@, "会员 legacyPk 在导入文件中重复"@),
    ) + when(
        is_blank_text(m.name@),
        err_view("MEMBER"@, Some(pk), "EMPTY_NAME"@, "会员姓名不能为空"@),
    )
}

/// The member's problems with its number and its points.
pub open spec fn member_number_errors(prior_nos: Seq<i64>, m: ImportMember) -> Seq<
    MigrationErrorView,
> {
    let pk = m.legacy_pk@;
    (match m.member_no {
        Some(no) => when(
            no <= 0,
            err_view("MEMBER"@, Some(pk), "INVALID_MEMBER_NO"@, "会员编号必须大于 0"@),
        ) + when(
            prior_nos.contains(no),
            err_view("MEMBER"@, Some(pk), "DUPLICATE_MEMBER_NO"@, "会员编号在导入文件中重复"@),
        ),
        None => seq![],
    }) + when(
        or_default(m.points_balance, 0) < 0,
        err_view("MEMBER"@, Some(pk), "NEGATIVE_POINTS"@, "会员当前积分不能为负数"@),
    )
}

pub open spec fn member_item_errors(
    prior_pks: Seq<Seq<char>>,
    prior_nos: Seq<i64>,
    m: ImportMember,
) -> Seq<MigrationErrorView> {
    member_key_errors(prior_pks, m) + member_number_errors(prior_nos, m)
}

pub open spec fn short_mobile_warning(pk: Seq<char>) -> Seq<char> {
    "会员 "@ + pk + " 的手机号长度偏短，请人工确认"@
}

pub open spec fn member_item_warnings(m: ImportMember) -> Seq<Seq<char>> {
    match m.mobile {
        Some(mobile) => if !is_blank_text(mobile@) && utf8_len(trimmed(mobile@)) < 7 {
            seq![short_mobile_warning(m.legacy_pk@)]
        } else {
            seq![]
        },
        None => seq![],
    }
}

pub open spec fn member_section_errors(ms: Seq<ImportMember>) -> Seq<MigrationErrorView>
    decreases ms.len(),
{
    if ms.len() == 0 {
        seq![]
    } else {
        let prior = ms.drop_last();
        member_section_errors(prior) + member_item_errors(
            member_pks(prior),
            member_nos(prior),
            ms.last(),
        )
    }
}

pub open spec fn member_section_warnings(ms: Seq<ImportMember>) -> Seq<Seq<char>>
    decreases ms.len(),
{
    if ms.len() == 0 {
        seq![]
    } else {
        member_section_warnings(ms.drop_last()) + member_item_warnings(ms.last())
    }
}

pub open spec fn consumption_pks(cs: Seq<ImportConsumption>) -> Seq<Seq<char>> {
    cs.map_values(|c: ImportConsumption| c.legacy_pk@)
}

pub open spec fn consumption_item_errors(
    prior_pks: Seq<Seq<char>>,
    member_keys: Seq<Seq<char>>,
    c: ImportConsumption,
) -> Seq<MigrationErrorView> {
    let pk = c.legacy_pk@;
    when(
        prior_pks.contains(pk),
        err_view("CONSUMPTION"@, Some(pk), "DUPLICATE_LEGACY_PK"@, "消费记录 legacyPk 在导入文件中重复"@),
    ) + when(
        f64_bits_le_zero(c.amount_bits),
        err_view("CONSUMPTION"@, Some(pk), "INVALID_AMOUNT"@, "消费金额必须大于 0"@),
    ) + match c.points_added {
        Some(p) => when(
            p < 0,
            err_view("CONSUMPTION"@, Some(pk), "INVALID_POINTS"@, "消费积分不能为负数"@),
        ),
        None => seq![],
    } + when(
        !member_keys.contains(c.member_legacy_pk@),
        err_view("CONSUMPTION"@, Some(pk), "MISSING_MEMBER"@, "消费记录关联的会员不存在"@),
    )
}

pub open spec fn consumption_section_errors(
    cs: Seq<ImportConsumption>,
    member_keys: Seq<Seq<char>>,
) -> Seq<MigrationErrorView>
    decreases cs.len(),
{
    if cs.len() == 0 {
        seq![]
    } else {
        let prior = cs.drop_last();
        consumption_section_errors(prior, member_keys) + consumption_item_errors(
            consumption_pks(prior),
            member_keys,
            cs.last(),
        )
    }
}

/// What tells two gifts of a migration file apart: the legacy key, or the
/// trimmed name behind `gift::` where there is no key.
pub open spec fn gift_identity_text(g: ImportGift) -> Seq<char> {
    match g.legacy_pk {
        Some(pk) => pk@,
        None => "gift::"@ + trimmed(g.gift_name@),
    }
}

pub open spec fn gift_ids(gs: Seq<ImportGift>) -> Seq<Seq<char>> {
    gs.map_values(|g: ImportGift| gift_identity_text(g))
}

pub open spec fn gift_item_errors(prior_ids: Seq<Seq<char>>, g: ImportGift) -> Seq<
    MigrationErrorView,
> {
    let key = gift_identity_text(g);
    when(
        prior_ids.contains(key),
        err_view("GIFT"@, Some(key), "DUPLICATE_GIFT"@, "礼品主键或名称在导入文件中重复"@),
    ) + when(
        is_blank_text(g.gift_name@),
        err_view("GIFT"@, opt_view(g.legacy_pk), "EMPTY_NAME"@, "礼品名称不能为空"@),
    )
}

pub open spec fn gift_section_errors(gs: Seq<ImportGift>) -> Seq<MigrationErrorView>
    decreases gs.len(),
{
    if gs.len() == 0 {
        seq![]
    } else {
        let prior = gs.drop_last();
        gift_section_errors(prior) + gift_item_errors(gift_ids(prior), gs.last())
    }
}

pub open spec fn redemption_pks(rs: Seq<ImportRedemption>) -> Seq<Seq<char>> {
    rs.map_values(|r: ImportRedemption| r.legacy_pk@)
}

pub open spec fn redemption_item_errors(
    prior_pks: Seq<Seq<char>>,
    member_keys: Seq<Seq<char>>,
    r: ImportRedemption,
) -> Seq<MigrationErrorView> {
    let pk = r.legacy_pk@;
    when(
        prior_pks.contains(pk),
        err_view("REDEMPTION"@, Some(pk), "DUPLICATE_LEGACY_PK"@, "兑换记录 legacyPk 在导入文件中重复"@),
    ) + when(
        !member_keys.contains(r.member_legacy_pk@),
        err_view("REDEMPTION"@, Some(pk), "MISSING_MEMBER"@, "兑换记录关联的会员不存在"@),
    ) + when(
        or_default(r.qty, 1) <= 0,
        err_view("REDEMPTION"@, Some(pk), "INVALID_QTY"@, "兑换数量必须大于 0"@),
    ) + when(
        or_default(r.points_used, 0) < 0,
        err_view("REDEMPTION"@, Some(pk), "INVALID_POINTS"@, "兑换积分不能为负数"@),
    )
}

pub open spec fn redemption_section_errors(
    rs: Seq<ImportRedemption>,
    member_keys: Seq<Seq<char>>,
) -> Seq<MigrationErrorView>
    decreases rs.len(),
{
    if rs.len() == 0 {
        seq![]
    } else {
        let prior = rs.drop_last();
        redemption_section_errors(prior, member_keys) + redemption_item_errors(
            redemption_pks(prior),
            member_keys,
            rs.last(),
        )
    }
}

/// Every error that a migration file yields, in the order they are found:
/// members, then purchases, gifts and redemptions.
pub open spec fn bundle_errors(b: ImportBundle) -> Seq<MigrationErrorView> {
    let keys = member_pks(b.members@);
    member_section_errors(b.members@) + consumption_section_errors(b.consumptions@, keys)
        + gift_section_errors(b.gifts@) + redemption_section_errors(b.redemptions@, keys)
}

/// Every warning that a migration file yields.
pub open spec fn bundle_warnings(b: ImportBundle) -> Seq<Seq<char>> {
    member_section_warnings(b.members@)
}

fn push_error(
    errors: &mut Vec<MigrationErrorItem>,
    entity: &str,
    pk: Option<String>,
    code: &str,
    msg: &str,
)
    ensures
        error_views(final(errors)@) == error_views(old(errors)@).push(
            err_view(entity@, opt_view(pk), code@, msg@),
        ),
{
    let item = MigrationErrorItem {
        entity_type: String::from_str(entity),
        legacy_pk: pk,
        error_code: String::from_str(code),
        error_message: String::from_str(msg),
    };
    let ghost before = errors@;
    errors.push(item);
    assert(error_views(errors@) =~= error_views(before).push(item@));
}

fn copy_opt(v: &Option<String>) -> (r: Option<String>)
    ensures
        opt_view(r) == opt_view(*v),
{
    match v {
        Some(s) => Some(s.clone()),
        None => None,
    }
}

/// Whether `items` holds a text equal to `key`.
fn has_text(items: &Vec<String>, key: &String) -> (b: bool)
    ensures
        b == text_views(items@).contains(key@),
{
    let mut i: usize = 0;
    while i < items.len()
        invariant
            i <= items.len(),
            forall|k: int| 0 <= k < i ==> (#[trigger] items@[k])@ != key@,
        decreases items.len() - i,
    {
        if items[i] == *key {
            assert(text_views(items@)[i as int] == key@);
            return true;
        }
        i = i + 1;
    }
    proof {
        if text_views(items@).contains(key@) {
            let k = choose|k: int| 0 <= k < text_views(items@).len() && text_views(items@)[k] == key@;
            assert(items@[k]@ == key@);
        }
    }
    false
}

fn has_number(items: &Vec<i64>, key: i64) -> (b: bool)
    ensures
        b == items@.contains(key),
{
    let mut i: usize = 0;
    while i < items.len()
        invariant
            i <= items.len(),
            forall|k: int| 0 <= k < i ==> items@[k] != key,
        decreases items.len() - i,
    {
        if items[i] == key {
            return true;
        }
        i = i + 1;
    }
    false
}

fn check_member_keys(prior_pks: &Vec<String>, m: &ImportMember, errors: &mut Vec<MigrationErrorItem>)
    ensures
        error_views(final(errors)@) == error_views(old(errors)@) + member_key_errors(
            text_views(prior_pks@),
            *m,
        ),
{
    let ghost e0 = error_views(errors@);
    let ghost pk = m.legacy_pk@;
    let ghost part1 = when(
        is_blank_text(pk),
        err_view("MEMBER"@, None, "EMPTY_LEGACY_PK"@, "会员 legacyPk 不能为空"@),
    );
    let ghost part2 = when(
        text_views(prior_pks@).contains(pk),
        err_view("MEMBER"@, Some(pk), "DUPLICATE_LEGACY_PK"@, "会员 legacyPk 在导入文件中重复"@),
    );
    if is_blank(m.legacy_pk.as_str()) {
        push_error(errors, "MEMBER", None, "EMPTY_LEGACY_PK", "会员 legacyPk 不能为空");
    }
    assert(error_views(errors@) =~= e0 + part1);
    if has_text(prior_pks, &m.legacy_pk) {
        push_error(
            errors,
            "MEMBER",
            Some(m.legacy_pk.clone()),
            "DUPLICATE_LEGACY_PK",
            "会员 legacyPk 在导入文件中重复",
        );
    }
    assert(error_views(errors@) =~= e0 + part1 + part2);
    if is_blank(m.name.as_str()) {
        push_error(errors, "MEMBER", Some(m.legacy_pk.clone()), "EMPTY_NAME", "会员姓名不能为空");
    }
    assert(error_views(errors@) =~= e0 + member_key_errors(text_views(prior_pks@), *m));
}

fn check_member_numbers(prior_nos: &Vec<i64>, m: &ImportMember, errors: &mut Vec<MigrationErrorItem>)
    ensures
        error_views(final(errors)@) == error_views(old(errors)@) + member_number_errors(
            prior_nos@,
            *m,
        ),
{
    let ghost e0 = error_views(errors@);
    let ghost pk = m.legacy_pk@;
    let ghost part4 = match m.member_no {
        Some(no) => when(
            no <= 0,
            err_view("MEMBER"@, Some(pk), "INVALID_MEMBER_NO"@, "会员编号必须大于 0"@),
        ) + when(
            prior_nos@.contains(no),
            err_view("MEMBER"@, Some(pk), "DUPLICATE_MEMBER_NO"@, "会员编号在导入文件中重复"@),
        ),
        None => seq![],
    };
    if let Some(no) = m.member_no {
        let ghost part4a = when(
            no <= 0,
            err_view("MEMBER"@, Some(pk), "INVALID_MEMBER_NO"@, "会员编号必须大于 0"@),
        );
        if no <= 0 {
            push_error(
                errors,
                "MEMBER",
                Some(m.legacy_pk.clone()),
                "INVALID_MEMBER_NO",
                "会员编号必须大于 0",
            );
        }
        assert(error_views(errors@) =~= e0 + part4a);
        if has_number(prior_nos, no) {
            push_error(
                errors,
                "MEMBER",
                Some(m.legacy_pk.clone()),
                "DUPLICATE_MEMBER_NO",
                "会员编号在导入文件中重复",
            );
        }
    }
    assert(error_views(errors@) =~= e0 + part4);
    let balance = match m.points_balance {
        Some(b) => b,
        None => 0,
    };
    if balance < 0 {
        push_error(
            errors,
            "MEMBER",
            Some(m.legacy_pk.clone()),
            "NEGATIVE_POINTS",
            "会员当前积分不能为负数",
        );
    }
    assert(error_views(errors@) =~= e0 + member_number_errors(prior_nos@, *m));
}

fn check_member_mobile(m: &ImportMember, warnings: &mut Vec<String>)
    ensures
        text_views(final(warnings)@) == text_views(old(warnings)@) + member_item_warnings(*m),
{
    let ghost w0 = text_views(warnings@);
    if let Some(mobile) = &m.mobile {
        let t = trim_text(mobile.as_str());
        if !t.as_str().is_empty() && t.as_str().len() < 7 {
            let head = concat_str("会员 ", m.legacy_pk.as_str());
            let message = concat_str(head.as_str(), " 的手机号长度偏短，请人工确认");
            let ghost before = warnings@;
            warnings.push(message);
            assert(text_views(warnings@) =~= text_views(before).push(message@));
        }
    }
    assert(text_views(warnings@) =~= w0 + member_item_warnings(*m));
}

fn check_member(
    prior_pks: &Vec<String>,
    prior_nos: &Vec<i64>,
    m: &ImportMember,
    errors: &mut Vec<MigrationErrorItem>,
    warnings: &mut Vec<String>,
)
    ensures
        error_views(final(errors)@) == error_views(old(errors)@) + member_item_errors(
            text_views(prior_pks@),
            prior_nos@,
            *m,
        ),
        text_views(final(warnings)@) == text_views(old(warnings)@) + member_item_warnings(*m),
{
    let ghost e0 = error_views(errors@);
    check_member_keys(prior_pks, m, errors);
    check_member_numbers(prior_nos, m, errors);
    assert(error_views(errors@) =~= e0 + member_item_errors(text_views(prior_pks@), prior_nos@, *m));
    check_member_mobile(m, warnings);
}

fn check_consumption(
    prior_pks: &Vec<String>,
    member_keys: &Vec<String>,
    c: &ImportConsumption,
    errors: &mut Vec<MigrationErrorItem>,
)
    ensures
        error_views(final(errors)@) == error_views(old(errors)@) + consumption_item_errors(
            text_views(prior_pks@),
            text_views(member_keys@),
            *c,
        ),
{
    let ghost e0 = error_views(errors@);
    let ghost pk = c.legacy_pk@;
    let ghost part1 = when(
        text_views(prior_pks@).contains(pk),
        err_view("CONSUMPTION"@, Some(pk), "DUPLICATE_LEGACY_PK"@, "消费记录 legacyPk 在导入文件中重复"@),
    );
    let ghost part2 = when(
        f64_bits_le_zero(c.amount_bits),
        err_view("CONSUMPTION"@, Some(pk), "INVALID_AMOUNT"@, "消费金额必须大于 0"@),
    );
    let ghost part3 = match c.points_added {
        Some(p) => when(
            p < 0,
            err_view("CONSUMPTION"@, Some(pk), "INVALID_POINTS"@, "消费积分不能为负数"@),
        ),
        None => seq![],
    };
    if has_text(prior_pks, &c.legacy_pk) {
        push_error(
            errors,
            "CONSUMPTION",
            Some(c.legacy_pk.clone()),
            "DUPLICATE_LEGACY_PK",
            "消费记录 legacyPk 在导入文件中重复",
        );
    }
    assert(error_views(errors@) =~= e0 + part1);
    if bits_le_zero(c.amount_bits) {
        push_error(
            errors,
            "CONSUMPTION",
            Some(c.legacy_pk.clone()),
            "INVALID_AMOUNT",
            "消费金额必须大于 0",
        );
    }
    assert(error_views(errors@) =~= e0 + part1 + part2);
    if let Some(p) = c.points_added {
        if p < 0 {
            push_error(
                errors,
                "CONSUMPTION",
                Some(c.legacy_pk.clone()),
                "INVALID_POINTS",
                "消费积分不能为负数",
            );
        }
    }
    assert(error_views(errors@) =~= e0 + part1 + part2 + part3);
    if !has_text(member_keys, &c.member_legacy_pk) {
        push_error(
            errors,
            "CONSUMPTION",
            Some(c.legacy_pk.clone()),
            "MISSING_MEMBER",
            "消费记录关联的会员不存在",
        );
    }
    assert(error_views(errors@) =~= e0 + consumption_item_errors(
        text_views(prior_pks@),
        text_views(member_keys@),
        *c,
    ));
}

/// `gift::` and the trimmed name, or the gift's legacy key where it has one.
pub fn gift_identity(gift: &ImportGift) -> (r: String)
    ensures
        r@ == gift_identity_text(*gift),
{
    match &gift.legacy_pk {
        Some(pk) => pk.clone(),
        None => {
            let name = trim_text(gift.gift_name.as_str());
            concat_str("gift::", name.as_str())
        },
    }
}

fn check_gift(prior_ids: &Vec<String>, g: &ImportGift, errors: &mut Vec<MigrationErrorItem>)
    ensures
        error_views(final(errors)@) == error_views(old(errors)@) + gift_item_errors(
            text_views(prior_ids@),
            *g,
        ),
{
    let ghost e0 = error_views(errors@);
    let key = gift_identity(g);
    let ghost part1 = when(
        text_views(prior_ids@).contains(key@),
        err_view("GIFT"@, Some(key@), "DUPLICATE_GIFT"@, "礼品主键或名称在导入文件中重复"@),
    );
    if has_text(prior_ids, &key) {
        push_error(errors, "GIFT", Some(key), "DUPLICATE_GIFT", "礼品主键或名称在导入文件中重复");
    }
    assert(error_views(errors@) =~= e0 + part1);
    if is_blank(g.gift_name.as_str()) {
        push_error(errors, "GIFT", copy_opt(&g.legacy_pk), "EMPTY_NAME", "礼品名称不能为空");
    }
    assert(error_views(errors@) =~= e0 + gift_item_errors(text_views(prior_ids@), *g));
}

fn check_redemption(
    prior_pks: &Vec<String>,
    member_keys: &Vec<String>,
    r: &ImportRedemption,
    errors: &mut Vec<MigrationErrorItem>,
)
    ensures
        error_views(final(errors)@) == error_views(old(errors)@) + redemption_item_errors(
            text_views(prior_pks@),
            text_views(member_keys@),
            *r,
        ),
{
    let ghost e0 = error_views(errors@);
    let ghost pk = r.legacy_pk@;
    let ghost part1 = when(
        text_views(prior_pks@).contains(pk),
        err_view("REDEMPTION"@, Some(pk), "DUPLICATE_LEGACY_PK"@, "兑换记录 legacyPk 在导入文件中重复"@),
    );
    let ghost part2 = when(
        !text_views(member_keys@).contains(r.member_legacy_pk@),
        err_view("REDEMPTION"@, Some(pk), "MISSING_MEMBER"@, "兑换记录关联的会员不存在"@),
    );
    let ghost part3 = when(
        or_default(r.qty, 1) <= 0,
        err_view("REDEMPTION"@, Some(pk), "INVALID_QTY"@, "兑换数量必须大于 0"@),
    );
    if has_text(prior_pks, &r.legacy_pk) {
        push_error(
            errors,
            "REDEMPTION",
            Some(r.legacy_pk.clone()),
            "DUPLICATE_LEGACY_PK",
            "兑换记录 legacyPk 在导入文件中重复",
        );
    }
    assert(error_views(errors@) =~= e0 + part1);
    if !has_text(member_keys, &r.member_legacy_pk) {
        push_error(
            errors,
            "REDEMPTION",
            Some(r.legacy_pk.clone()),
            "MISSING_MEMBER",
            "兑换记录关联的会员不存在",
        );
    }
    assert(error_views(errors@) =~= e0 + part1 + part2);
    let qty = match r.qty {
        Some(q) => q,
        None => 1,
    };
    if qty <= 0 {
        push_error(
            errors,
            "REDEMPTION",
            Some(r.legacy_pk.clone()),
            "INVALID_QTY",
            "兑换数量必须大于 0",
        );
    }
    assert(error_views(errors@) =~= e0 + part1 + part2 + part3);
    let points = match r.points_used {
        Some(p) => p,
        None => 0,
    };
    if points < 0 {
        push_error(
            errors,
            "REDEMPTION",
            Some(r.legacy_pk.clone()),
            "INVALID_POINTS",
            "兑换积分不能为负数",
        );
    }
    assert(error_views(errors@) =~= e0 + redemption_item_errors(
        text_views(prior_pks@),
        text_views(member_keys@),
        *r,
    ));
}

/// Appends to `errors` every error of the migration file and to `warnings`
/// every warning, in the order in which the file holds the records.
pub fn validate_import_bundle(
    source: &ImportBundle,
    errors: &mut Vec<MigrationErrorItem>,
    warnings: &mut Vec<String>,
)
    ensures
        error_views(final(errors)@) == error_views(old(errors)@) + bundle_errors(*source),
        text_views(final(warnings)@) == text_views(old(warnings)@) + bundle_warnings(*source),
{
    let ghost e0 = error_views(errors@);
    let ghost w0 = text_views(warnings@);
    let ghost ms = source.members@;
    let mut member_keys: Vec<String> = Vec::new();
    let mut member_numbers: Vec<i64> = Vec::new();
    let mut i: usize = 0;
    while i < source.members.len()
        invariant
            i <= source.members.len(),
            ms == source.members@,
            text_views(member_keys@) == member_pks(ms.take(i as int)),
            member_numbers@ == member_nos(ms.take(i as int)),
            error_views(errors@) == e0 + member_section_errors(ms.take(i as int)),
            text_views(warnings@) == w0 + member_section_warnings(ms.take(i as int)),
        decreases source.members.len() - i,
    {
        let m = &source.members[i];
        let ghost ebefore = error_views(errors@);
        let ghost wbefore = text_views(warnings@);
        check_member(&member_keys, &member_numbers, m, errors, warnings);
        let ghost prior = ms.take(i as int);
        let ghost next = ms.take(i + 1);
        assert(next.drop_last() =~= prior);
        assert(next.last() == *m);
        assert(error_views(errors@) =~= e0 + member_section_errors(next));
        assert(text_views(warnings@) =~= w0 + member_section_warnings(next));
        if let Some(no) = m.member_no {
            member_numbers.push(no);
        }
        let ghost kbefore = member_keys@;
        member_keys.push(m.legacy_pk.clone());
        assert(text_views(member_keys@) =~= text_views(kbefore).push(m.legacy_pk@));
        assert(member_pks(next) =~= member_pks(prior).push(m.legacy_pk@));
        i = i + 1;
    }
    assert(ms.take(ms.len() as int) =~= ms);
    let ghost e1 = error_views(errors@);
    let ghost keys = member_pks(ms);
    let ghost cs = source.consumptions@;
    let mut consume_keys: Vec<String> = Vec::new();
    let mut j: usize = 0;
    while j < source.consumptions.len()
        invariant
            j <= source.consumptions.len(),
            cs == source.consumptions@,
            text_views(member_keys@) == keys,
            text_views(consume_keys@) == consumption_pks(cs.take(j as int)),
            error_views(errors@) == e1 + consumption_section_errors(cs.take(j as int), keys),
        decreases source.consumptions.len() - j,
    {
        let c = &source.consumptions[j];
        check_consumption(&consume_keys, &member_keys, c, errors);
        let ghost prior = cs.take(j as int);
        let ghost next = cs.take(j + 1);
        assert(next.drop_last() =~= prior);
        assert(next.last() == *c);
        assert(error_views(errors@) =~= e1 + consumption_section_errors(next, keys));
        let ghost kbefore = consume_keys@;
        consume_keys.push(c.legacy_pk.clone());
        assert(text_views(consume_keys@) =~= text_views(kbefore).push(c.legacy_pk@));
        assert(consumption_pks(next) =~= consumption_pks(prior).push(c.legacy_pk@));
        j = j + 1;
    }
    assert(cs.take(cs.len() as int) =~= cs);
    let ghost e2 = error_views(errors@);
    let ghost gs = source.gifts@;
    let mut gift_keys: Vec<String> = Vec::new();
    let mut k: usize = 0;
    while k < source.gifts.len()
        invariant
            k <= source.gifts.len(),
            gs == source.gifts@,
            text_views(gift_keys@) == gift_ids(gs.take(k as int)),
            error_views(errors@) == e2 + gift_section_errors(gs.take(k as int)),
        decreases source.gifts.len() - k,
    {
        let g = &source.gifts[k];
        check_gift(&gift_keys, g, errors);
        let ghost prior = gs.take(k as int);
        let ghost next = gs.take(k + 1);
        assert(next.drop_last() =~= prior);
        assert(next.last() == *g);
        assert(error_views(errors@) =~= e2 + gift_section_errors(next));
        let key = gift_identity(g);
        let ghost kbefore = gift_keys@;
        gift_keys.push(key);
        assert(text_views(gift_keys@) =~= text_views(kbefore).push(gift_identity_text(*g)));
        assert(gift_ids(next) =~= gift_ids(prior).push(gift_identity_text(*g)));
        k = k + 1;
    }
    assert(gs.take(gs.len() as int) =~= gs);
    let ghost e3 = error_views(errors@);
    let ghost rs = source.redemptions@;
    let mut redemption_keys: Vec<String> = Vec::new();
    let mut n: usize = 0;
    while n < source.redemptions.len()
        invariant
            n <= source.redemptions.len(),
            rs == source.redemptions@,
            text_views(member_keys@) == keys,
            text_views(redemption_keys@) == redemption_pks(rs.take(n as int)),
            error_views(errors@) == e3 + redemption_section_errors(rs.take(n as int), keys),
        decreases source.redemptions.len() - n,
    {
        let r = &source.redemptions[n];
        check_redemption(&redemption_keys, &member_keys, r, errors);
        let ghost prior = rs.take(n as int);
        let ghost next = rs.take(n + 1);
        assert(next.drop_last() =~= prior);
        assert(next.last() == *r);
        assert(error_views(errors@) =~= e3 + redemption_section_errors(next, keys));
        let ghost kbefore = redemption_keys@;
        redemption_keys.push(r.legacy_pk.clone());
        assert(text_views(redemption_keys@) =~= text_views(kbefore).push(r.legacy_pk@));
        assert(redemption_pks(next) =~= redemption_pks(prior).push(r.legacy_pk@));
        n = n + 1;
    }
    assert(rs.take(rs.len() as int) =~= rs);
    assert(error_views(errors@) =~= e0 + bundle_errors(*source));
}

proof fn lemma_member_item_clean(ms: Seq<ImportMember>, i: int)
    requires
        member_section_errors(ms).len() == 0,
        0 <= i < ms.len(),
    ensures
        member_item_errors(member_pks(ms.take(i)), member_nos(ms.take(i)), ms[i]).len() == 0,
    decreases ms.len(),
{
    let prior = ms.drop_last();
    if i == ms.len() - 1 {
        assert(prior =~= ms.take(i));
    } else {
        lemma_member_item_clean(prior, i);
        assert(prior.take(i) =~= ms.take(i));
    }
}

proof fn lemma_consumption_item_clean(cs: Seq<ImportConsumption>, keys: Seq<Seq<char>>, i: int)
    requires
        consumption_section_errors(cs, keys).len() == 0,
        0 <= i < cs.len(),
    ensures
        consumption_item_errors(consumption_pks(cs.take(i)), keys, cs[i]).len() == 0,
    decreases cs.len(),
{
    let prior = cs.drop_last();
    if i == cs.len() - 1 {
        assert(prior =~= cs.take(i));
    } else {
        lemma_consumption_item_clean(prior, keys, i);
        assert(prior.take(i) =~= cs.take(i));
    }
}

proof fn lemma_redemption_item_clean(rs: Seq<ImportRedemption>, keys: Seq<Seq<char>>, i: int)
    requires
        redemption_section_errors(rs, keys).len() == 0,
        0 <= i < rs.len(),
    ensures
        redemption_item_errors(redemption_pks(rs.take(i)), keys, rs[i]).len() == 0,
    decreases rs.len(),
{
    let prior = rs.drop_last();
    if i == rs.len() - 1 {
        assert(prior =~= rs.take(i));
    } else {
        lemma_redemption_item_clean(prior, keys, i);
        assert(prior.take(i) =~= rs.take(i));
    }
}

/// Some error of `errs` has the code `code`.
pub open spec fn has_code(errs: Seq<MigrationErrorView>, code: Seq<char>) -> bool {
    exists|k: int| 0 <= k < errs.len() && (#[trigger] errs[k]).error_code == code
}

proof fn lemma_has_code_concat(a: Seq<MigrationErrorView>, b: Seq<MigrationErrorView>, code: Seq<
    char,
>)
    ensures
        has_code(a + b, code) <==> (has_code(a, code) || has_code(b, code)),
{
    let ab = a + b;
    if has_code(ab, code) {
        let k = choose|k: int| 0 <= k < ab.len() && (#[trigger] ab[k]).error_code == code;
        if k < a.len() {
            assert(a[k] == ab[k]);
        } else {
            assert(b[k - a.len()] == ab[k]);
        }
    }
    if has_code(a, code) {
        let k = choose|k: int| 0 <= k < a.len() && (#[trigger] a[k]).error_code == code;
        assert(ab[k] == a[k]);
    }
    if has_code(b, code) {
        let k = choose|k: int| 0 <= k < b.len() && (#[trigger] b[k]).error_code == code;
        assert(ab[k + a.len()] == b[k]);
    }
}

proof fn lemma_has_code_when(x: bool, e: MigrationErrorView, code: Seq<char>)
    ensures
        has_code(when(x, e), code) <==> (x && e.error_code == code),
{
    if x {
        assert(when(x, e)[0] == e);
    }
}

/// A past purchase is reported for its amount exactly when the amount is not
/// above zero: a positive amount of any size is never reported, and zero or a
/// negative amount always is.
pub proof fn lemma_invalid_amount_only_when_not_positive(
    prior_pks: Seq<Seq<char>>,
    member_keys: Seq<Seq<char>>,
    c: ImportConsumption,
)
    ensures
        c.amount_bits < 0x8000_0000_0000_0000 && c.amount_bits != 0 ==> !has_code(
            consumption_item_errors(prior_pks, member_keys, c),
            "INVALID_AMOUNT"@,
        ),
        c.amount_bits == 0 || c.amount_bits == 0x8000_0000_0000_0000 ==> has_code(
            consumption_item_errors(prior_pks, member_keys, c),
            "INVALID_AMOUNT"@,
        ),
        c.amount_bits >= 0x8000_0000_0000_0000 && !((c.amount_bits / 0x10_0000_0000_0000) % 0x800
            == 0x7ff && c.amount_bits % 0x10_0000_0000_0000 != 0) ==> has_code(
            consumption_item_errors(prior_pks, member_keys, c),
            "INVALID_AMOUNT"@,
        ),
{
    reveal_strlit("INVALID_AMOUNT");
    reveal_strlit("DUPLICATE_LEGACY_PK");
    reveal_strlit("INVALID_POINTS");
    reveal_strlit("MISSING_MEMBER");
    crate::floatbits::lemma_le_zero_by_sign(c.amount_bits);
    let pk = c.legacy_pk@;
    let code = "INVALID_AMOUNT"@;
    let e1 = when(
        prior_pks.contains(pk),
        err_view("CONSUMPTION"@, Some(pk), "DUPLICATE_LEGACY_PK"@, "消费记录 legacyPk 在导入文件中重复"@),
    );
    let e2 = when(
        f64_bits_le_zero(c.amount_bits),
        err_view("CONSUMPTION"@, Some(pk), "INVALID_AMOUNT"@, "消费金额必须大于 0"@),
    );
    let e3 = match c.points_added {
        Some(p) => when(
            p < 0,
            err_view("CONSUMPTION"@, Some(pk), "INVALID_POINTS"@, "消费积分不能为负数"@),
        ),
        None => seq![],
    };
    let e4 = when(
        !member_keys.contains(c.member_legacy_pk@),
        err_view("CONSUMPTION"@, Some(pk), "MISSING_MEMBER"@, "消费记录关联的会员不存在"@),
    );
    assert(consumption_item_errors(prior_pks, member_keys, c) == e1 + e2 + e3 + e4);
    lemma_has_code_concat(e1 + e2 + e3, e4, code);
    lemma_has_code_concat(e1 + e2, e3, code);
    lemma_has_code_concat(e1, e2, code);
    assert("DUPLICATE_LEGACY_PK"@.len() != code.len());
    assert("INVALID_POINTS"@ != code) by {
        assert("INVALID_POINTS"@[8] != code[8]);
    }
    assert("MISSING_MEMBER"@ != code) by {
        assert("MISSING_MEMBER"@[0] != code[0]);
    }
    lemma_has_code_when(
        prior_pks.contains(pk),
        err_view("CONSUMPTION"@, Some(pk), "DUPLICATE_LEGACY_PK"@, "消费记录 legacyPk 在导入文件中重复"@),
        code,
    );
    lemma_has_code_when(
        f64_bits_le_zero(c.amount_bits),
        err_view("CONSUMPTION"@, Some(pk), "INVALID_AMOUNT"@, "消费金额必须大于 0"@),
        code,
    );
    match c.points_added {
        Some(p) => {
            lemma_has_code_when(
                p < 0,
                err_view("CONSUMPTION"@, Some(pk), "INVALID_POINTS"@, "消费积分不能为负数"@),
                code,
            );
        },
        None => {
            assert(!has_code(e3, code));
        },
    }
    lemma_has_code_when(
        !member_keys.contains(c.member_legacy_pk@),
        err_view("CONSUMPTION"@, Some(pk), "MISSING_MEMBER"@, "消费记录关联的会员不存在"@),
        code,
    );
}

/// A past redemption is reported for its quantity exactly when the file gives
/// a quantity of zero or less (a missing quantity is one), and for its points
/// exactly when the file gives negative points (missing points are none).
pub proof fn lemma_redemption_qty_and_points_checks(
    prior_pks: Seq<Seq<char>>,
    member_keys: Seq<Seq<char>>,
    r: ImportRedemption,
)
    ensures
        has_code(redemption_item_errors(prior_pks, member_keys, r), "INVALID_QTY"@) <==> (match r.qty {
            Some(q) => q <= 0,
            None => false,
        }),
        has_code(redemption_item_errors(prior_pks, member_keys, r), "INVALID_POINTS"@) <==> (
        match r.points_used {
            Some(p) => p < 0,
            None => false,
        }),
{
    reveal_strlit("INVALID_QTY");
    reveal_strlit("DUPLICATE_LEGACY_PK");
    reveal_strlit("INVALID_POINTS");
    reveal_strlit("MISSING_MEMBER");
    let pk = r.legacy_pk@;
    let d1 = err_view("REDEMPTION"@, Some(pk), "DUPLICATE_LEGACY_PK"@, "兑换记录 legacyPk 在导入文件中重复"@);
    let d2 = err_view("REDEMPTION"@, Some(pk), "MISSING_MEMBER"@, "兑换记录关联的会员不存在"@);
    let d3 = err_view("REDEMPTION"@, Some(pk), "INVALID_QTY"@, "兑换数量必须大于 0"@);
    let d4 = err_view("REDEMPTION"@, Some(pk), "INVALID_POINTS"@, "兑换积分不能为负数"@);
    let x1 = prior_pks.contains(pk);
    let x2 = !member_keys.contains(r.member_legacy_pk@);
    let x3 = or_default(r.qty, 1) <= 0;
    let x4 = or_default(r.points_used, 0) < 0;
    let e1 = when(x1, d1);
    let e2 = when(x2, d2);
    let e3 = when(x3, d3);
    let e4 = when(x4, d4);
    assert(redemption_item_errors(prior_pks, member_keys, r) == e1 + e2 + e3 + e4);
    assert("DUPLICATE_LEGACY_PK"@.len() != "INVALID_QTY"@.len());
    assert("MISSING_MEMBER"@.len() != "INVALID_QTY"@.len());
    assert("INVALID_POINTS"@.len() != "INVALID_QTY"@.len());
    assert("DUPLICATE_LEGACY_PK"@.len() != "INVALID_POINTS"@.len());
    assert("MISSING_MEMBER"@ != "INVALID_POINTS"@) by {
        assert("MISSING_MEMBER"@[0] != "INVALID_POINTS"@[0]);
    }
    let codes = seq!["INVALID_QTY"@, "INVALID_POINTS"@];
    assert forall|i: int| 0 <= i < 2 implies (has_code(e1 + e2 + e3 + e4, #[trigger] codes[i]) <==> (
    has_code(e3, codes[i]) || has_code(e4, codes[i]))) by {
        let code = codes[i];
        lemma_has_code_concat(e1 + e2 + e3, e4, code);
        lemma_has_code_concat(e1 + e2, e3, code);
        lemma_has_code_concat(e1, e2, code);
        lemma_has_code_when(x1, d1, code);
        lemma_has_code_when(x2, d2, code);
    }
    assert(codes[0] == "INVALID_QTY"@);
    assert(codes[1] == "INVALID_POINTS"@);
    lemma_has_code_when(x3, d3, "INVALID_QTY"@);
    lemma_has_code_when(x4, d4, "INVALID_QTY"@);
    lemma_has_code_when(x3, d3, "INVALID_POINTS"@);
    lemma_has_code_when(x4, d4, "INVALID_POINTS"@);
}

/// A member is reported for negative points exactly when the file gives it a
/// balance below zero; a missing balance, or a balance of zero or more, is
/// never reported, whatever else is wrong with the member.
pub proof fn lemma_negative_points_only_below_zero(
    prior_pks: Seq<Seq<char>>,
    prior_nos: Seq<i64>,
    m: ImportMember,
)
    ensures
        has_code(member_item_errors(prior_pks, prior_nos, m), "NEGATIVE_POINTS"@) <==> (match m.points_balance {
            Some(b) => b < 0,
            None => false,
        }),
{
    reveal_strlit("NEGATIVE_POINTS");
    reveal_strlit("EMPTY_LEGACY_PK");
    reveal_strlit("DUPLICATE_LEGACY_PK");
    reveal_strlit("EMPTY_NAME");
    reveal_strlit("INVALID_MEMBER_NO");
    reveal_strlit("DUPLICATE_MEMBER_NO");
    let pk = m.legacy_pk@;
    let errs = member_item_errors(prior_pks, prior_nos, m);
    let negative = match m.points_balance {
        Some(b) => b < 0,
        None => false,
    };
    let neg = err_view("MEMBER"@, Some(pk), "NEGATIVE_POINTS"@, "会员当前积分不能为负数"@);
    let head = member_key_errors(prior_pks, m) + match m.member_no {
        Some(no) => when(
            no <= 0,
            err_view("MEMBER"@, Some(pk), "INVALID_MEMBER_NO"@, "会员编号必须大于 0"@),
        ) + when(
            prior_nos.contains(no),
            err_view("MEMBER"@, Some(pk), "DUPLICATE_MEMBER_NO"@, "会员编号在导入文件中重复"@),
        ),
        None => seq![],
    };
    assert(errs =~= head + when(negative, neg));
    assert forall|k: int| 0 <= k < head.len() implies (#[trigger] head[k]).error_code
        != "NEGATIVE_POINTS"@ by {
        let c = head[k].error_code;
        assert(c == "EMPTY_LEGACY_PK"@ || c == "DUPLICATE_LEGACY_PK"@ || c == "EMPTY_NAME"@ || c
            == "INVALID_MEMBER_NO"@ || c == "DUPLICATE_MEMBER_NO"@);
        assert("EMPTY_LEGACY_PK"@[0] != "NEGATIVE_POINTS"@[0]);
        assert("DUPLICATE_LEGACY_PK"@.len() != "NEGATIVE_POINTS"@.len());
        assert("EMPTY_NAME"@.len() != "NEGATIVE_POINTS"@.len());
        assert("INVALID_MEMBER_NO"@.len() != "NEGATIVE_POINTS"@.len());
        assert("DUPLICATE_MEMBER_NO"@.len() != "NEGATIVE_POINTS"@.len());
    }
    if negative {
        assert(errs[head.len() as int] == neg);
    } else {
        assert(errs =~= head);
    }
}

/// A file whose only record is one member with a non-blank key and name, and
/// either no number or a positive one, has no errors at all when its balance
/// is missing or at least zero, and only the negative-points error otherwise.
pub proof fn lemma_single_member_bundle(b: ImportBundle)
    requires
        b.members@.len() == 1,
        b.consumptions@.len() == 0,
        b.gifts@.len() == 0,
        b.redemptions@.len() == 0,
        !is_blank_text(b.members@[0].legacy_pk@),
        !is_blank_text(b.members@[0].name@),
        b.members@[0].member_no matches Some(n) ==> n > 0,
    ensures
        (match b.members@[0].points_balance {
            Some(v) => v >= 0,
            None => true,
        }) ==> bundle_errors(b).len() == 0,
        (match b.members@[0].points_balance {
            Some(v) => v < 0,
            None => false,
        }) ==> bundle_errors(b) == seq![
            err_view(
                "MEMBER"@,
                Some(b.members@[0].legacy_pk@),
                "NEGATIVE_POINTS"@,
                "会员当前积分不能为负数"@,
            ),
        ],
{
    let ms = b.members@;
    let m = ms[0];
    let prior = ms.drop_last();
    assert(prior =~= Seq::<ImportMember>::empty());
    assert(member_pks(prior) =~= Seq::<Seq<char>>::empty());
    assert(member_nos(prior) =~= Seq::<i64>::empty());
    assert(member_section_errors(prior) =~= Seq::<MigrationErrorView>::empty());
    assert(ms.last() == m);
    assert(!member_pks(prior).contains(m.legacy_pk@));
    assert(member_key_errors(member_pks(prior), m) =~= Seq::<MigrationErrorView>::empty());
    match m.member_no {
        Some(n) => {
            assert(!member_nos(prior).contains(n));
        },
        None => {},
    }
    assert(consumption_section_errors(b.consumptions@, member_pks(ms)) =~= Seq::<
        MigrationErrorView,
    >::empty());
    assert(gift_section_errors(b.gifts@) =~= Seq::<MigrationErrorView>::empty());
    assert(redemption_section_errors(b.redemptions@, member_pks(ms)) =~= Seq::<
        MigrationErrorView,
    >::empty());
    assert(bundle_errors(b) =~= member_item_errors(member_pks(prior), member_nos(prior), m));
}

/// A migration file without errors has members with distinct, non-blank
/// legacy keys, and every past purchase and every past redemption in it
/// belongs to one of its members and has a key of its own; every purchase is
/// of a positive amount.
pub proof fn lemma_clean_bundle_is_consistent(b: ImportBundle)
    requires
        bundle_errors(b).len() == 0,
    ensures
        forall|i: int, j: int|
            0 <= i < j < b.members@.len() ==> b.members@[i].legacy_pk@ != b.members@[j].legacy_pk@,
        forall|i: int| 0 <= i < b.members@.len() ==> !is_blank_text(b.members@[i].legacy_pk@),
        forall|i: int|
            0 <= i < b.consumptions@.len() ==> member_pks(b.members@).contains(
                b.consumptions@[i].member_legacy_pk@,
            ) && !f64_bits_le_zero(b.consumptions@[i].amount_bits),
        forall|i: int, j: int|
            0 <= i < j < b.consumptions@.len() ==> b.consumptions@[i].legacy_pk@
                != b.consumptions@[j].legacy_pk@,
        forall|i: int|
            0 <= i < b.redemptions@.len() ==> member_pks(b.members@).contains(
                b.redemptions@[i].member_legacy_pk@,
            ),
        forall|i: int, j: int|
            0 <= i < j < b.redemptions@.len() ==> b.redemptions@[i].legacy_pk@
                != b.redemptions@[j].legacy_pk@,
{
    let ms = b.members@;
    let keys = member_pks(ms);
    let cs = b.consumptions@;
    let rs = b.redemptions@;
    let e1 = member_section_errors(ms);
    let e2 = consumption_section_errors(cs, keys);
    let e3 = gift_section_errors(b.gifts@);
    let e4 = redemption_section_errors(rs, keys);
    assert(bundle_errors(b) == e1 + e2 + e3 + e4);
    assert(e1.len() == 0 && e2.len() == 0 && e4.len() == 0);
    assert forall|i: int, j: int|
        0 <= i < j < ms.len() implies ms[i].legacy_pk@ != ms[j].legacy_pk@ by {
        lemma_member_item_clean(ms, j);
        let prior = ms.take(j);
        assert(member_pks(prior)[i] == ms[i].legacy_pk@);
        if ms[i].legacy_pk@ == ms[j].legacy_pk@ {
            assert(member_pks(prior).contains(ms[j].legacy_pk@));
        }
    }
    assert forall|i: int| 0 <= i < ms.len() implies !is_blank_text(ms[i].legacy_pk@) by {
        lemma_member_item_clean(ms, i);
    }
    assert forall|i: int|
        0 <= i < cs.len() implies keys.contains(cs[i].member_legacy_pk@) && !f64_bits_le_zero(
            cs[i].amount_bits,
        ) by {
        lemma_consumption_item_clean(cs, keys, i);
    }
    assert forall|i: int, j: int|
        0 <= i < j < cs.len() implies cs[i].legacy_pk@ != cs[j].legacy_pk@ by {
        lemma_consumption_item_clean(cs, keys, j);
        let prior = cs.take(j);
        assert(consumption_pks(prior)[i] == cs[i].legacy_pk@);
        if cs[i].legacy_pk@ == cs[j].legacy_pk@ {
            assert(consumption_pks(prior).contains(cs[j].legacy_pk@));
        }
    }
    assert forall|i: int| 0 <= i < rs.len() implies keys.contains(rs[i].member_legacy_pk@) by {
        lemma_redemption_item_clean(rs, keys, i);
    }
    assert forall|i: int, j: int|
        0 <= i < j < rs.len() implies rs[i].legacy_pk@ != rs[j].legacy_pk@ by {
        lemma_redemption_item_clean(rs, keys, j);
        let prior = rs.take(j);
        assert(redemption_pks(prior)[i] == rs[i].legacy_pk@);
        if rs[i].legacy_pk@ == rs[j].legacy_pk@ {
            assert(redemption_pks(prior).contains(rs[j].legacy_pk@));
        }
    }
}

} // verus!
