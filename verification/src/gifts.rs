//! Gifts: what is stored for one, and whether a member may redeem it.
use vstd::prelude::*;
use crate::errors::CommandError;
use crate::models::{GiftRecord, ImportGift};
use crate::numtext::in_i64;
use crate::text::{is_blank_text, normalize_optional_text, normalized_text, opt_view, trim_text, trimmed};

verus! {

/// The columns a gift is written with.
#[derive(Debug, Clone, PartialEq)]
pub struct GiftFields {
    pub gift_name: String,
    pub points_cost: i64,
    pub stock_qty: i64,
    pub status: String,
    pub unique_per_member: i64,
    pub remark: Option<String>,
}

/// The stored status of a gift: the given one, "ACTIVE" where none is given.
pub open spec fn status_or_active(status: Option<Seq<char>>) -> Seq<char> {
    match status {
        Some(s) => s,
        None => "ACTIVE"@,
    }
}

/// The stored flag for "once per member": 1 where set, 0 otherwise.
pub open spec fn unique_flag(unique: Option<bool>) -> i64 {
    if unique == Some(true) {
        1
    } else {
        0
    }
}

fn status_text(status: &Option<String>) -> (r: String)
    ensures
        r@ == status_or_active(opt_view(*status)),
{
    match status {
        Some(s) => s.clone(),
        None => String::from_str("ACTIVE"),
    }
}

fn flag_value(unique: Option<bool>) -> (r: i64)
    ensures
        r == unique_flag(unique),
{
    match unique {
        Some(true) => 1,
        _ => 0,
    }
}

fn copy_opt(v: &Option<String>) -> (r: Option<String>)
    ensures
        opt_view(r) == opt_view(*v),
{
    match v {
        Some(s) => Some(s.clone()),
        None => None,
    }
}

/// Checks a gift from the gift page: the name must not be blank and the cost
/// must not be negative. The name is trimmed, the status defaults to
/// "ACTIVE", the remark is trimmed and dropped where blank.
pub fn prepare_gift_save(payload: &GiftRecord) -> (r: Result<GiftFields, CommandError>)
    ensures
        is_blank_text(payload.gift_name@) ==> r == Err::<GiftFields, CommandError>(
            CommandError::GiftNameRequired,
        ),
        !is_blank_text(payload.gift_name@) && payload.points_cost < 0 ==> r == Err::<
            GiftFields,
            CommandError,
        >(CommandError::GiftPointsNegative),
        !is_blank_text(payload.gift_name@) && payload.points_cost >= 0 ==> (r matches Ok(f)
            && f.gift_name@ == trimmed(payload.gift_name@) && f.points_cost == payload.points_cost
            && f.stock_qty == payload.stock_qty && f.status@ == status_or_active(
            opt_view(payload.status),
        ) && f.unique_per_member == unique_flag(payload.unique_per_member) && opt_view(f.remark)
            == normalized_text(opt_view(payload.remark))),
{
    let name = trim_text(payload.gift_name.as_str());
    if name.as_str().is_empty() {
        return Err(CommandError::GiftNameRequired);
    }
    if payload.points_cost < 0 {
        return Err(CommandError::GiftPointsNegative);
    }
    Ok(
        GiftFields {
            gift_name: name,
            points_cost: payload.points_cost,
            stock_qty: payload.stock_qty,
            status: status_text(&payload.status),
            unique_per_member: flag_value(payload.unique_per_member),
            remark: normalize_optional_text(copy_opt(&payload.remark)),
        },
    )
}

/// The columns a gift from a migration file is written with: trimmed name,
/// no stock where none is given, "ACTIVE" where no status is given.
pub fn prepare_import_gift(gift: &ImportGift) -> (r: GiftFields)
    ensures
        r.gift_name@ == trimmed(gift.gift_name@),
        r.points_cost == gift.points_cost,
        r.stock_qty == match gift.stock_qty {
            Some(q) => q,
            None => 0,
        },
        r.status@ == status_or_active(opt_view(gift.status)),
        r.unique_per_member == unique_flag(gift.unique_per_member),
        opt_view(r.remark) == normalized_text(opt_view(gift.remark)),
{
    GiftFields {
        gift_name: trim_text(gift.gift_name.as_str()),
        points_cost: gift.points_cost,
        stock_qty: match gift.stock_qty {
            Some(q) => q,
            None => 0,
        },
        status: status_text(&gift.status),
        unique_per_member: flag_value(gift.unique_per_member),
        remark: normalize_optional_text(copy_opt(&gift.remark)),
    }
}

/// A member's points and status, as stored.
#[derive(Debug, Clone, PartialEq)]
pub struct MemberPoints {
    pub points_balance: i64,
    pub status: String,
}

/// What a redemption needs to know of a gift, as stored.
#[derive(Debug, Clone, PartialEq)]
pub struct GiftForRedeem {
    pub gift_name: String,
    pub points_cost: i64,
    pub status: String,
    pub unique_per_member: bool,
}

/// What an accepted redemption writes.
#[derive(Debug, Clone, PartialEq)]
pub struct RedemptionPlan {
    pub gift_name_snapshot: String,
    pub qty: i64,
    pub points_used: i64,
    pub points_delta: i64,
    pub new_balance: i64,
}

/// A redemption must be of a positive quantity.
pub fn check_redeem_qty(qty: i64) -> (r: Result<(), CommandError>)
    ensures
        qty <= 0 ==> r == Err::<(), CommandError>(CommandError::RedeemQtyNotPositive),
        qty > 0 ==> r is Ok,
{
    if qty <= 0 {
        Err(CommandError::RedeemQtyNotPositive)
    } else {
        Ok(())
    }
}

/// Why a redemption is refused before its cost is reckoned, checked in this
/// order; `None` where it may go on.
pub open spec fn eligibility_refusal(
    qty: i64,
    member: Option<MemberPoints>,
    gift: Option<GiftForRedeem>,
    redeemed_count: i64,
) -> Option<CommandError> {
    if qty <= 0 {
        Some(CommandError::RedeemQtyNotPositive)
    } else if member is None {
        Some(CommandError::MemberNotFound)
    } else if member->0.status@ != "ACTIVE"@ {
        Some(CommandError::InactiveMemberRedeem)
    } else if gift is None {
        Some(CommandError::GiftNotFound)
    } else if gift->0.status@ != "ACTIVE"@ {
        Some(CommandError::GiftDisabled)
    } else if gift->0.unique_per_member && qty != 1 {
        Some(CommandError::UniqueGiftQty)
    } else if gift->0.unique_per_member && redeemed_count > 0 {
        Some(CommandError::UniqueGiftRedeemed)
    } else {
        None
    }
}

/// Why a redemption is refused, checked in this order; `None` where it is
/// accepted.
pub open spec fn redemption_refusal(
    qty: i64,
    member: Option<MemberPoints>,
    gift: Option<GiftForRedeem>,
    redeemed_count: i64,
) -> Option<CommandError> {
    match eligibility_refusal(qty, member, gift, redeemed_count) {
        Some(e) => Some(e),
        None => if member->0.points_balance < gift->0.points_cost * qty {
            Some(CommandError::InsufficientPoints)
        } else {
            None
        },
    }
}

/// The arithmetic of an eligible redemption stays within `i64`.
pub open spec fn redemption_fits(
    qty: i64,
    member: Option<MemberPoints>,
    gift: Option<GiftForRedeem>,
    redeemed_count: i64,
) -> bool {
    eligibility_refusal(qty, member, gift, redeemed_count) is None ==> {
        &&& in_i64(gift->0.points_cost * qty)
        &&& member->0.points_balance >= gift->0.points_cost * qty ==> {
            &&& in_i64(-(gift->0.points_cost * qty))
            &&& in_i64(member->0.points_balance - gift->0.points_cost * qty)
        }
    }
}

/// Whether a redemption may go on to have its cost reckoned.
pub fn check_redemption_eligibility(
    qty: i64,
    member: &Option<MemberPoints>,
    gift: &Option<GiftForRedeem>,
    redeemed_count: i64,
) -> (r: Result<(), CommandError>)
    ensures
        match eligibility_refusal(qty, *member, *gift, redeemed_count) {
            Some(e) => r == Err::<(), CommandError>(e),
            None => r is Ok,
        },
{
    if qty <= 0 {
        return Err(CommandError::RedeemQtyNotPositive);
    }
    let m = match member {
        None => {
            return Err(CommandError::MemberNotFound);
        },
        Some(m) => m,
    };
    if !(m.status == String::from_str("ACTIVE")) {
        return Err(CommandError::InactiveMemberRedeem);
    }
    let g = match gift {
        None => {
            return Err(CommandError::GiftNotFound);
        },
        Some(g) => g,
    };
    if !(g.status == String::from_str("ACTIVE")) {
        return Err(CommandError::GiftDisabled);
    }
    if g.unique_per_member {
        if qty != 1 {
            return Err(CommandError::UniqueGiftQty);
        }
        if redeemed_count > 0 {
            return Err(CommandError::UniqueGiftRedeemed);
        }
    }
    Ok(())
}

/// Decides a redemption of `qty` of a gift by a member, given what is stored
/// of both and how often the member has redeemed the gift before. An accepted
/// redemption costs the gift's points times the quantity and takes them off
/// the member's balance; its ledger entry records the negated cost, so that
/// the new balance is the old one plus the entry.
pub fn plan_redemption(
    qty: i64,
    member: Option<MemberPoints>,
    gift: Option<GiftForRedeem>,
    redeemed_count: i64,
) -> (r: Result<RedemptionPlan, CommandError>)
    requires
        redemption_fits(qty, member, gift, redeemed_count),
    ensures
        match redemption_refusal(qty, member, gift, redeemed_count) {
            Some(e) => r == Err::<RedemptionPlan, CommandError>(e),
            None => r matches Ok(p) && p.gift_name_snapshot@ == gift->0.gift_name@ && p.qty == qty
                && p.points_used == gift->0.points_cost * qty && p.points_delta == -(
                gift->0.points_cost * qty) && p.new_balance == member->0.points_balance
                - gift->0.points_cost * qty && p.new_balance == member->0.points_balance
                + p.points_delta,
        },
{
    check_redemption_eligibility(qty, &member, &gift, redeemed_count)?;
    let m = match member {
        Some(m) => m,
        None => {
            return Err(CommandError::MemberNotFound);
        },
    };
    let g = match gift {
        Some(g) => g,
        None => {
            return Err(CommandError::GiftNotFound);
        },
    };
    let points_used: i64 = g.points_cost * qty;
    if m.points_balance < points_used {
        return Err(CommandError::InsufficientPoints);
    }
    Ok(
        RedemptionPlan {
            gift_name_snapshot: g.gift_name,
            qty,
            points_used,
            points_delta: -points_used,
            new_balance: m.points_balance - points_used,
        },
    )
}

/// An accepted redemption never leaves a member with a negative balance, and
/// the balance falls by exactly the points used.
pub proof fn lemma_redemption_keeps_balance_non_negative(
    qty: i64,
    member: MemberPoints,
    gift: GiftForRedeem,
    redeemed_count: i64,
)
    requires
        redemption_refusal(qty, Some(member), Some(gift), redeemed_count) is None,
    ensures
        member.points_balance - gift.points_cost * qty >= 0,
        (member.points_balance - gift.points_cost * qty) + gift.points_cost * qty
            == member.points_balance,
{
}

/// A redemption of a positive quantity by an active member of an active gift
/// that is not once-only is accepted exactly when the member's balance covers
/// the gift's points times the quantity, and refused for want of points
/// otherwise.
pub proof fn lemma_redemption_accepted_when_covered(
    qty: i64,
    member: MemberPoints,
    gift: GiftForRedeem,
    redeemed_count: i64,
)
    requires
        qty > 0,
        member.status@ == "ACTIVE"@,
        gift.status@ == "ACTIVE"@,
        !gift.unique_per_member,
    ensures
        member.points_balance >= gift.points_cost * qty ==> redemption_refusal(
            qty,
            Some(member),
            Some(gift),
            redeemed_count,
        ) is None,
        member.points_balance < gift.points_cost * qty ==> redemption_refusal(
            qty,
            Some(member),
            Some(gift),
            redeemed_count,
        ) == Some(CommandError::InsufficientPoints),
{
}

/// A redemption is refused where the member or the gift is missing or not
/// active, or the quantity is not positive, whatever the balance.
pub proof fn lemma_redemption_refused_when_ineligible(
    qty: i64,
    member: Option<MemberPoints>,
    gift: Option<GiftForRedeem>,
    redeemed_count: i64,
)
    ensures
        qty <= 0 ==> redemption_refusal(qty, member, gift, redeemed_count) == Some(
            CommandError::RedeemQtyNotPositive,
        ),
        qty > 0 && member is None ==> redemption_refusal(qty, member, gift, redeemed_count) == Some(
            CommandError::MemberNotFound,
        ),
        qty > 0 && member is Some && member->0.status@ != "ACTIVE"@ ==> redemption_refusal(
            qty,
            member,
            gift,
            redeemed_count,
        ) == Some(CommandError::InactiveMemberRedeem),
        qty > 0 && member is Some && member->0.status@ == "ACTIVE"@ && gift is None
            ==> redemption_refusal(qty, member, gift, redeemed_count) == Some(
            CommandError::GiftNotFound,
        ),
        qty > 0 && member is Some && member->0.status@ == "ACTIVE"@ && gift is Some
            && gift->0.status@ != "ACTIVE"@ ==> redemption_refusal(qty, member, gift, redeemed_count)
            == Some(CommandError::GiftDisabled),
{
}

/// A gift that may be redeemed once per member is refused to a member who has
/// redeemed it before, and refused for any quantity but one.
pub proof fn lemma_unique_gift_once(
    qty: i64,
    member: MemberPoints,
    gift: GiftForRedeem,
    redeemed_count: i64,
)
    requires
        gift.unique_per_member,
        redeemed_count > 0 || qty != 1,
    ensures
        redemption_refusal(qty, Some(member), Some(gift), redeemed_count) is Some,
{
}

} // verus!
