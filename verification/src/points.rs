//! Points earned by purchases, and the answers that purchases and
//! redemptions give.
use vstd::prelude::*;
use crate::errors::CommandError;
use crate::floatbits::{bits_le_zero, f64_bits_le_zero};
use crate::gifts::MemberPoints;
use crate::models::CommandResult;
use crate::numtext::{i64_text, in_i64, int_text};
use crate::text::concat_str;

verus! {

/// A purchase must be of a positive amount (given as the bits of its `f64`).
pub fn check_consume_amount(amount_bits: u64) -> (r: Result<(), CommandError>)
    ensures
        f64_bits_le_zero(amount_bits) ==> r == Err::<(), CommandError>(
            CommandError::ConsumeAmountNotPositive,
        ),
        !f64_bits_le_zero(amount_bits) ==> r is Ok,
{
    if bits_le_zero(amount_bits) {
        Err(CommandError::ConsumeAmountNotPositive)
    } else {
        Ok(())
    }
}

/// The divisor of the points rule: the configured amount per point, at least 1.
pub fn points_rule_divisor(points_rule_amount: i64) -> (r: i64)
    ensures
        r == if points_rule_amount >= 1 {
            points_rule_amount
        } else {
            1
        },
{
    if points_rule_amount >= 1 {
        points_rule_amount
    } else {
        1
    }
}

/// Why a purchase by a member is refused: the member must exist and be
/// active.
pub open spec fn consume_member_refusal(member: Option<MemberPoints>) -> Option<CommandError> {
    match member {
        None => Some(CommandError::MemberNotFound),
        Some(m) => if m.status@ != "ACTIVE"@ {
            Some(CommandError::InactiveMemberConsume)
        } else {
            None
        },
    }
}

/// A purchase is refused exactly for a missing or inactive member, and for a
/// missing member as not found.
pub proof fn lemma_consume_refused_unless_active(member: Option<MemberPoints>)
    ensures
        consume_member_refusal(member) is None <==> (member matches Some(m) && m.status@
            == "ACTIVE"@),
        member is None ==> consume_member_refusal(member) == Some(CommandError::MemberNotFound),
        member matches Some(m) && m.status@ != "ACTIVE"@ ==> consume_member_refusal(member) == Some(
            CommandError::InactiveMemberConsume,
        ),
{
}

/// Whether a member may record a purchase.
pub fn check_consume_member(member: &Option<MemberPoints>) -> (r: Result<(), CommandError>)
    ensures
        match consume_member_refusal(*member) {
            Some(e) => r == Err::<(), CommandError>(e),
            None => r is Ok,
        },
{
    match member {
        None => Err(CommandError::MemberNotFound),
        Some(m) => if !(m.status == String::from_str("ACTIVE")) {
            Err(CommandError::InactiveMemberConsume)
        } else {
            Ok(())
        },
    }
}

/// Decides a purchase by a member, given what is stored of the member and the
/// points the purchase earns: the member must exist and be active, and the
/// balance grows by the points.
pub fn plan_consumption(member: Option<MemberPoints>, points_added: i64) -> (r: Result<
    i64,
    CommandError,
>)
    requires
        consume_member_refusal(member) is None ==> in_i64(member->0.points_balance + points_added),
    ensures
        match consume_member_refusal(member) {
            Some(e) => r == Err::<i64, CommandError>(e),
            None => r == Ok::<i64, CommandError>((member->0.points_balance + points_added) as i64),
        },
{
    check_consume_member(&member)?;
    let m = match member {
        None => {
            return Err(CommandError::MemberNotFound);
        },
        Some(m) => m,
    };
    Ok(m.points_balance + points_added)
}

/// The answer to a recorded purchase.
pub fn consume_result(points_added: i64, record_no: String) -> (r: CommandResult)
    ensures
        r.success,
        r.message@ == "消费登记成功，本次增加 "@ + int_text(points_added as int) + " 积分"@,
        r.target_id matches Some(t) && t@ == record_no@,
{
    let head = concat_str("消费登记成功，本次增加 ", i64_text(points_added).as_str());
    CommandResult {
        success: true,
        message: concat_str(head.as_str(), " 积分"),
        target_id: Some(record_no),
    }
}

/// The answer to an accepted redemption.
pub fn redeem_result(points_used: i64, redeem_no: String) -> (r: CommandResult)
    ensures
        r.success,
        r.message@ == "兑换成功，扣减 "@ + int_text(points_used as int) + " 积分"@,
        r.target_id matches Some(t) && t@ == redeem_no@,
{
    let head = concat_str("兑换成功，扣减 ", i64_text(points_used).as_str());
    CommandResult {
        success: true,
        message: concat_str(head.as_str(), " 积分"),
        target_id: Some(redeem_no),
    }
}

/// The correction that brings a balance to its target, where one is needed:
/// the balance plus the correction is the target.
pub fn balance_adjustment(target_balance: i64, current_balance: i64) -> (r: Option<i64>)
    requires
        in_i64(target_balance - current_balance),
    ensures
        target_balance == current_balance ==> r is None,
        target_balance != current_balance ==> r == Some((target_balance - current_balance) as i64),
        r matches Some(d) ==> current_balance + d == target_balance,
{
    let delta: i64 = target_balance - current_balance;
    if delta == 0 {
        None
    } else {
        Some(delta)
    }
}

} // verus!
