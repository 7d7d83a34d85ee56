//! Why a command was refused, and the message the user is shown for it.
use vstd::prelude::*;
use crate::numtext::{i64_text, int_text};
use crate::text::concat_str;

verus! {

#[derive(Debug, Clone, PartialEq)]
pub enum CommandError {
    MemberNotFound,
    MemberNameRequired,
    BirthPartNotDigits { label: String },
    BirthPartMalformed { label: String },
    BirthPartOutOfRange { label: String, min: i64, max: i64 },
    MemberNoExists,
    MemberNoTaken,
    ConsumeAmountNotPositive,
    InactiveMemberConsume,
    GiftNameRequired,
    GiftPointsNegative,
    RedeemQtyNotPositive,
    InactiveMemberRedeem,
    GiftNotFound,
    GiftDisabled,
    UniqueGiftQty,
    UniqueGiftRedeemed,
    InsufficientPoints,
    PointsRuleNotPositive,
    InvalidMonth { month: String },
    NextMonthUnavailable,
    BatchNotExecutable,
    SourceFileChanged,
    BatchAlreadyImported,
    ImportMemberNoExists { member_no: i64 },
    MemberMappingMissing,
    RedemptionPointsUnknown,
}

impl CommandError {
    /// The message shown to the user.
    pub open spec fn message_text(self) -> Seq<char> {
        match self {
            CommandError::MemberNotFound => "会员不存在"@,
            CommandError::MemberNameRequired => "会员姓名不能为空"@,
            CommandError::BirthPartNotDigits { label } => label@ + "必须为数字"@,
            CommandError::BirthPartMalformed { label } => label@ + "格式不正确"@,
            CommandError::BirthPartOutOfRange { label, min, max } => label@ + "必须在 "@ + int_text(
                min as int,
            ) + " 到 "@ + int_text(max as int) + " 之间"@,
            CommandError::MemberNoExists => "会员编号已存在"@,
            CommandError::MemberNoTaken => "会员编号已被其他会员占用"@,
            CommandError::ConsumeAmountNotPositive => "消费金额必须大于 0"@,
            CommandError::InactiveMemberConsume => "停用会员不能登记消费"@,
            CommandError::GiftNameRequired => "礼品名称不能为空"@,
            CommandError::GiftPointsNegative => "礼品积分不能为负数"@,
            CommandError::RedeemQtyNotPositive => "兑换数量必须大于 0"@,
            CommandError::InactiveMemberRedeem => "停用会员不能兑换礼品"@,
            CommandError::GiftNotFound => "礼品不存在"@,
            CommandError::GiftDisabled => "礼品已禁用，无法兑换"@,
            CommandError::UniqueGiftQty => "兑换一次礼品每位会员仅可兑换 1 件"@,
            CommandError::UniqueGiftRedeemed => "该礼品为兑换一次，当前会员已兑换过"@,
            CommandError::InsufficientPoints => "会员积分不足"@,
            CommandError::PointsRuleNotPositive => "积分规则必须大于 0"@,
            CommandError::InvalidMonth { month } => "月份格式不正确: "@ + month@,
            CommandError::NextMonthUnavailable => "无法计算下月时间"@,
            CommandError::BatchNotExecutable => "当前批次存在预检错误或已重复导入，不能执行正式导入"@,
            CommandError::SourceFileChanged => "源文件在预检后发生变化，请重新预检"@,
            CommandError::BatchAlreadyImported => "该数据批次已成功导入，系统已阻止重复入库"@,
            CommandError::ImportMemberNoExists { member_no } => "会员编号 "@ + int_text(
                member_no as int,
            ) + " 已存在"@,
            CommandError::MemberMappingMissing => "找不到关联会员映射"@,
            CommandError::RedemptionPointsUnknown => "兑换记录缺少 pointsUsed 且无法根据礼品推导积分"@,
        }
    }

    /// The message shown to the user.
    pub fn message(&self) -> (r: String)
        ensures
            r@ == self.message_text(),
    {
        match self {
            CommandError::MemberNotFound => String::from_str("会员不存在"),
            CommandError::MemberNameRequired => String::from_str("会员姓名不能为空"),
            CommandError::BirthPartNotDigits { label } => concat_str(label.as_str(), "必须为数字"),
            CommandError::BirthPartMalformed { label } => concat_str(label.as_str(), "格式不正确"),
            CommandError::BirthPartOutOfRange { label, min, max } => {
                let a = concat_str(label.as_str(), "必须在 ");
                let b = concat_str(a.as_str(), i64_text(*min).as_str());
                let c = concat_str(b.as_str(), " 到 ");
                let d = concat_str(c.as_str(), i64_text(*max).as_str());
                concat_str(d.as_str(), " 之间")
            },
            CommandError::MemberNoExists => String::from_str("会员编号已存在"),
            CommandError::MemberNoTaken => String::from_str("会员编号已被其他会员占用"),
            CommandError::ConsumeAmountNotPositive => String::from_str("消费金额必须大于 0"),
            CommandError::InactiveMemberConsume => String::from_str("停用会员不能登记消费"),
            CommandError::GiftNameRequired => String::from_str("礼品名称不能为空"),
            CommandError::GiftPointsNegative => String::from_str("礼品积分不能为负数"),
            CommandError::RedeemQtyNotPositive => String::from_str("兑换数量必须大于 0"),
            CommandError::InactiveMemberRedeem => String::from_str("停用会员不能兑换礼品"),
            CommandError::GiftNotFound => String::from_str("礼品不存在"),
            CommandError::GiftDisabled => String::from_str("礼品已禁用，无法兑换"),
            CommandError::UniqueGiftQty => String::from_str("兑换一次礼品每位会员仅可兑换 1 件"),
            CommandError::UniqueGiftRedeemed => String::from_str("该礼品为兑换一次，当前会员已兑换过"),
            CommandError::InsufficientPoints => String::from_str("会员积分不足"),
            CommandError::PointsRuleNotPositive => String::from_str("积分规则必须大于 0"),
            CommandError::InvalidMonth { month } => concat_str("月份格式不正确: ", month.as_str()),
            CommandError::NextMonthUnavailable => String::from_str("无法计算下月时间"),
            CommandError::BatchNotExecutable => String::from_str(
                "当前批次存在预检错误或已重复导入，不能执行正式导入",
            ),
            CommandError::SourceFileChanged => String::from_str("源文件在预检后发生变化，请重新预检"),
            CommandError::BatchAlreadyImported => String::from_str(
                "该数据批次已成功导入，系统已阻止重复入库",
            ),
            CommandError::ImportMemberNoExists { member_no } => {
                let a = concat_str("会员编号 ", i64_text(*member_no).as_str());
                concat_str(a.as_str(), " 已存在")
            },
            CommandError::MemberMappingMissing => String::from_str("找不到关联会员映射"),
            CommandError::RedemptionPointsUnknown => String::from_str(
                "兑换记录缺少 pointsUsed 且无法根据礼品推导积分",
            ),
        }
    }
}

} // verus!
