//! The records that the library's operations take and give back.
//!
//! Amounts of money that the stored data keeps as `f64` are carried here as
//! their IEEE-754 bit patterns (`f64::to_bits`), so that no floating-point
//! value passes through the verified code.
use vstd::prelude::*;

verus! {

/// One page of a search.
#[derive(Debug, Clone, PartialEq)]
pub struct PagedResult<T> {
    pub items: Vec<T>,
    pub total: i64,
    pub page_no: i64,
    pub page_size: i64,
}

/// One movement of a member's points.
#[derive(Debug, Clone, PartialEq)]
pub struct PointsLedgerEntry {
    pub id: i64,
    pub member_id: i64,
    pub change_type: String,
    pub points_delta: i64,
    pub balance_after: i64,
    pub source_type: String,
    pub source_id: Option<String>,
    pub operator_name: String,
    pub remark: Option<String>,
    pub created_at: String,
}

/// A gift that members can redeem points for.
#[derive(Debug, Clone, PartialEq)]
pub struct GiftRecord {
    pub id: Option<i64>,
    pub gift_name: String,
    pub points_cost: i64,
    pub stock_qty: i64,
    pub status: Option<String>,
    pub unique_per_member: Option<bool>,
    pub remark: Option<String>,
    pub created_at: Option<String>,
    pub updated_at: Option<String>,
}

/// One redemption of a gift.
#[derive(Debug, Clone, PartialEq)]
pub struct GiftRedemption {
    pub id: i64,
    pub redeem_no: String,
    pub member_id: i64,
    pub gift_id: Option<i64>,
    pub gift_name_snapshot: String,
    pub qty: i64,
    pub points_used: i64,
    pub operator_name: String,
    pub remark: Option<String>,
    pub legacy_redemption_id: Option<String>,
    pub created_at: String,
}

/// What the member form sends when a member is created or edited.
#[derive(Debug, Clone, PartialEq)]
pub struct MemberFormPayload {
    pub member_no: Option<i64>,
    pub name: String,
    pub gender: Option<String>,
    pub birth_month: Option<String>,
    pub birth_day: Option<String>,
    pub mobile: Option<String>,
    pub remark: Option<String>,
}

/// A request to redeem a gift.
#[derive(Debug, Clone, PartialEq)]
pub struct RedeemPayload {
    pub member_id: i64,
    pub gift_id: i64,
    pub qty: i64,
    pub operator_name: String,
    pub remark: Option<String>,
}

/// The store's settings as the settings page shows them.
#[derive(Debug, Clone, PartialEq)]
pub struct SettingsData {
    pub store_name: String,
    pub db_path: String,
    pub backup_path: String,
    pub auto_backup_enabled: bool,
    pub points_rule_amount: i64,
    pub legacy_jpdj: String,
    pub default_operator: String,
}

/// One entry of the operation log.
#[derive(Debug, Clone, PartialEq)]
pub struct OperationLogItem {
    pub id: i64,
    pub operator_name: String,
    pub module_name: String,
    pub action_name: String,
    pub target_type: Option<String>,
    pub target_id: Option<String>,
    pub request_summary: Option<String>,
    pub result_status: String,
    pub error_message: Option<String>,
    pub created_at: String,
}

/// What the operation log page filters by.
#[derive(Debug, Clone, PartialEq)]
pub struct OperationLogFilter {
    pub keyword: Option<String>,
    pub module_name: Option<String>,
    pub limit: Option<i64>,
}

/// The answer to a command that changes data.
#[derive(Debug, Clone, PartialEq)]
pub struct CommandResult {
    pub success: bool,
    pub message: String,
    pub target_id: Option<String>,
}

/// The answer to a backup request.
#[derive(Debug, Clone, PartialEq)]
pub struct BackupResult {
    pub file_path: String,
    pub created_at: String,
    pub message: String,
}

/// One problem found in a migration file or met while importing it.
#[derive(Debug, Clone, PartialEq)]
pub struct MigrationErrorItem {
    pub entity_type: String,
    pub legacy_pk: Option<String>,
    pub error_code: String,
    pub error_message: String,
}

/// A `MigrationErrorItem` as plain text.
pub struct MigrationErrorView {
    pub entity_type: Seq<char>,
    pub legacy_pk: Option<Seq<char>>,
    pub error_code: Seq<char>,
    pub error_message: Seq<char>,
}

impl View for MigrationErrorItem {
    type V = MigrationErrorView;

    open spec fn view(&self) -> MigrationErrorView {
        MigrationErrorView {
            entity_type: self.entity_type@,
            legacy_pk: match self.legacy_pk {
                Some(p) => Some(p@),
                None => None,
            },
            error_code: self.error_code@,
            error_message: self.error_message@,
        }
    }
}

/// The outcome of checking a migration file before importing it.
#[derive(Debug, Clone, PartialEq)]
pub struct MigrationPrecheckResult {
    pub batch_no: String,
    pub source_file: String,
    pub source_version: Option<String>,
    pub import_scope: String,
    pub batch_fingerprint: String,
    pub import_mode: String,
    pub member_count: i64,
    pub consumption_count: i64,
    pub redemption_count: i64,
    pub gift_count: i64,
    pub duplicate_batch: bool,
    pub can_execute: bool,
    pub warnings: Vec<String>,
    pub errors: Vec<MigrationErrorItem>,
}

/// One import batch as the report shows it.
#[derive(Debug, Clone, PartialEq)]
pub struct MigrationBatchInfo {
    pub batch_no: String,
    pub source_file: String,
    pub source_version: Option<String>,
    pub import_scope: String,
    pub status: String,
    pub success_count: i64,
    pub failed_count: i64,
    pub error_message: Option<String>,
    pub created_at: String,
    pub completed_at: Option<String>,
}

/// An import batch together with what went wrong in it.
#[derive(Debug, Clone, PartialEq)]
pub struct MigrationReport {
    pub batch: MigrationBatchInfo,
    pub errors: Vec<MigrationErrorItem>,
}

/// The content of a migration file.
#[derive(Debug, Clone, PartialEq)]
pub struct ImportBundle {
    pub source_version: Option<String>,
    pub members: Vec<ImportMember>,
    pub consumptions: Vec<ImportConsumption>,
    pub gifts: Vec<ImportGift>,
    pub redemptions: Vec<ImportRedemption>,
    pub settings: Option<ImportSettings>,
}

/// A member in a migration file. `total_spent_bits` holds the bits of the
/// `f64` amount.
#[derive(Debug, Clone, PartialEq)]
pub struct ImportMember {
    pub legacy_pk: String,
    pub member_no: Option<i64>,
    pub name: String,
    pub gender: Option<String>,
    pub birth_month: Option<String>,
    pub birth_day: Option<String>,
    pub mobile: Option<String>,
    pub points_balance: Option<i64>,
    pub total_spent_bits: Option<u64>,
    pub last_consume_at: Option<String>,
    pub remark: Option<String>,
}

/// A past purchase in a migration file. `amount_bits` holds the bits of the
/// `f64` amount.
#[derive(Debug, Clone, PartialEq)]
pub struct ImportConsumption {
    pub legacy_pk: String,
    pub member_legacy_pk: String,
    pub amount_bits: u64,
    pub points_added: Option<i64>,
    pub operator_name: Option<String>,
    pub remark: Option<String>,
    pub created_at: Option<String>,
}

/// A gift in a migration file.
#[derive(Debug, Clone, PartialEq)]
pub struct ImportGift {
    pub legacy_pk: Option<String>,
    pub gift_name: String,
    pub points_cost: i64,
    pub stock_qty: Option<i64>,
    pub status: Option<String>,
    pub unique_per_member: Option<bool>,
    pub remark: Option<String>,
}

/// A past redemption in a migration file.
#[derive(Debug, Clone, PartialEq)]
pub struct ImportRedemption {
    pub legacy_pk: String,
    pub member_legacy_pk: String,
    pub gift_legacy_pk: Option<String>,
    pub gift_name: Option<String>,
    pub qty: Option<i64>,
    pub points_used: Option<i64>,
    pub operator_name: Option<String>,
    pub remark: Option<String>,
    pub created_at: Option<String>,
}

/// Settings carried in a migration file.
#[derive(Debug, Clone, PartialEq)]
pub struct ImportSettings {
    pub store_name: Option<String>,
    pub points_rule_amount: Option<i64>,
    pub legacy_jpdj: Option<String>,
    pub default_operator: Option<String>,
}

/// What a precheck leaves behind for the import that follows it.
#[derive(Debug, Clone, PartialEq)]
pub struct MigrationPrecheckCache {
    pub precheck: MigrationPrecheckResult,
    pub source_file_hash: String,
    pub source: ImportBundle,
}

} // verus!
