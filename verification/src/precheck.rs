//! The precheck of a migration file: its fingerprint, its import mode, and
//! whether it may be imported; and the checks made again before importing.
use vstd::prelude::*;
use vstd::utf8::encode_utf8;
use crate::bundle_check::{
    bundle_errors, bundle_warnings, consumption_pks, error_views, member_pks, redemption_pks,
    text_views, validate_import_bundle,
};
use crate::digest::{hex_text, sha256_hex, sha256_of};
use crate::errors::CommandError;
use crate::models::{ImportBundle, MigrationErrorItem, MigrationPrecheckCache, MigrationPrecheckResult};
use crate::numtext::{nat_text, usize_text};
use crate::text::concat_str;

verus! {

/// The texts one after the other with "|" between them.
pub open spec fn joined_keys(keys: Seq<Seq<char>>) -> Seq<char>
    decreases keys.len(),
{
    if keys.len() == 0 {
        seq![]
    } else if keys.len() == 1 {
        keys[0]
    } else {
        joined_keys(keys.drop_last()) + "|"@ + keys.last()
    }
}

/// Joins texts with "|" between them.
pub fn join_keys(keys: &Vec<String>) -> (r: String)
    ensures
        r@ == joined_keys(text_views(keys@)),
{
    let ghost views = text_views(keys@);
    let mut r = String::new();
    let mut i: usize = 0;
    while i < keys.len()
        invariant
            i <= keys.len(),
            views == text_views(keys@),
            r@ == joined_keys(views.take(i as int)),
        decreases keys.len() - i,
    {
        let ghost prior = views.take(i as int);
        let ghost next = views.take(i + 1);
        assert(next.drop_last() =~= prior);
        assert(next.last() == keys@[i as int]@);
        if i == 0 {
            r.append(keys[i].as_str());
            assert(r@ =~= joined_keys(next));
        } else {
            r.append("|");
            r.append(keys[i].as_str());
        }
        i = i + 1;
    }
    assert(views.take(keys.len() as int) =~= views);
    r
}

/// The import mode of a migration file: "BALANCE_ONLY" where it holds no past
/// purchases and no past redemptions, "FULL_HISTORY" otherwise.
pub open spec fn import_mode_text(b: ImportBundle) -> Seq<char> {
    if b.consumptions@.len() == 0 && b.redemptions@.len() == 0 {
        "BALANCE_ONLY"@
    } else {
        "FULL_HISTORY"@
    }
}

/// A file is imported balances-only exactly when it holds no past purchase
/// and no past redemption; a file with any past purchase or redemption is
/// imported with its full history.
pub proof fn lemma_import_mode_follows_history(b: ImportBundle)
    ensures
        (import_mode_text(b) == "BALANCE_ONLY"@) <==> (b.consumptions@.len() == 0
            && b.redemptions@.len() == 0),
        b.consumptions@.len() > 0 ==> import_mode_text(b) == "FULL_HISTORY"@,
        b.redemptions@.len() > 0 ==> import_mode_text(b) == "FULL_HISTORY"@,
{
    reveal_strlit("BALANCE_ONLY");
    reveal_strlit("FULL_HISTORY");
    assert("BALANCE_ONLY"@ != "FULL_HISTORY"@) by {
        assert("BALANCE_ONLY"@[0] != "FULL_HISTORY"@[0]);
    }
}

pub fn import_mode_of(bundle: &ImportBundle) -> (r: String)
    ensures
        r@ == import_mode_text(*bundle),
{
    if bundle.consumptions.len() == 0 && bundle.redemptions.len() == 0 {
        String::from_str("BALANCE_ONLY")
    } else {
        String::from_str("FULL_HISTORY")
    }
}

/// The text that a batch's fingerprint is the digest of: the file's hash, the
/// scope, the four record counts, the member keys, and the digest of the
/// purchase keys and the redemption keys.
pub open spec fn fingerprint_source(hash: Seq<char>, scope: Seq<char>, b: ImportBundle) -> Seq<
    char,
> {
    let history = joined_keys(consumption_pks(b.consumptions@)) + "|"@ + joined_keys(
        redemption_pks(b.redemptions@),
    );
    hash + "|"@ + scope + "|"@ + nat_text(b.members@.len()) + "|"@ + nat_text(
        b.consumptions@.len(),
    ) + "|"@ + nat_text(b.redemptions@.len()) + "|"@ + nat_text(b.gifts@.len()) + "|"@
        + joined_keys(member_pks(b.members@)) + "|"@ + hex_text(sha256_of(encode_utf8(history)))
}

/// The fingerprint of a batch: the SHA-256 digest, in hexadecimal, of
/// `fingerprint_source`. Two prechecks of the same file with the same scope
/// have the same fingerprint.
pub open spec fn fingerprint_text(hash: Seq<char>, scope: Seq<char>, b: ImportBundle) -> Seq<char> {
    hex_text(sha256_of(encode_utf8(fingerprint_source(hash, scope, b))))
}

fn member_key_list(b: &ImportBundle) -> (r: Vec<String>)
    ensures
        text_views(r@) == member_pks(b.members@),
{
    let mut r: Vec<String> = Vec::new();
    let mut i: usize = 0;
    while i < b.members.len()
        invariant
            i <= b.members.len(),
            text_views(r@) == member_pks(b.members@.take(i as int)),
        decreases b.members.len() - i,
    {
        r.push(b.members[i].legacy_pk.clone());
        assert(member_pks(b.members@.take(i + 1)) =~= member_pks(b.members@.take(i as int)).push(
            b.members@[i as int].legacy_pk@,
        ));
        i = i + 1;
        assert(text_views(r@) =~= member_pks(b.members@.take(i as int)));
    }
    assert(b.members@.take(b.members.len() as int) =~= b.members@);
    r
}

fn consumption_key_list(b: &ImportBundle) -> (r: Vec<String>)
    ensures
        text_views(r@) == consumption_pks(b.consumptions@),
{
    let mut r: Vec<String> = Vec::new();
    let mut i: usize = 0;
    while i < b.consumptions.len()
        invariant
            i <= b.consumptions.len(),
            text_views(r@) == consumption_pks(b.consumptions@.take(i as int)),
        decreases b.consumptions.len() - i,
    {
        r.push(b.consumptions[i].legacy_pk.clone());
        assert(consumption_pks(b.consumptions@.take(i + 1)) =~= consumption_pks(
            b.consumptions@.take(i as int),
        ).push(b.consumptions@[i as int].legacy_pk@));
        i = i + 1;
        assert(text_views(r@) =~= consumption_pks(b.consumptions@.take(i as int)));
    }
    assert(b.consumptions@.take(b.consumptions.len() as int) =~= b.consumptions@);
    r
}

fn redemption_key_list(b: &ImportBundle) -> (r: Vec<String>)
    ensures
        text_views(r@) == redemption_pks(b.redemptions@),
{
    let mut r: Vec<String> = Vec::new();
    let mut i: usize = 0;
    while i < b.redemptions.len()
        invariant
            i <= b.redemptions.len(),
            text_views(r@) == redemption_pks(b.redemptions@.take(i as int)),
        decreases b.redemptions.len() - i,
    {
        r.push(b.redemptions[i].legacy_pk.clone());
        assert(redemption_pks(b.redemptions@.take(i + 1)) =~= redemption_pks(
            b.redemptions@.take(i as int),
        ).push(b.redemptions@[i as int].legacy_pk@));
        i = i + 1;
        assert(text_views(r@) =~= redemption_pks(b.redemptions@.take(i as int)));
    }
    assert(b.redemptions@.take(b.redemptions.len() as int) =~= b.redemptions@);
    r
}

/// The fingerprint of a batch, from the hash of its file, its scope and its
/// records.
pub fn precheck_fingerprint(source_file_hash: &str, import_scope: &str, bundle: &ImportBundle) -> (r:
    String)
    ensures
        r@ == fingerprint_text(source_file_hash@, import_scope@, *bundle),
{
    let member_keys = join_keys(&member_key_list(bundle));
    let consumption_keys = join_keys(&consumption_key_list(bundle));
    let redemption_keys = join_keys(&redemption_key_list(bundle));
    let history_a = concat_str(consumption_keys.as_str(), "|");
    let history = concat_str(history_a.as_str(), redemption_keys.as_str());
    let history_digest = sha256_hex(history.as_str().as_bytes());
    let mut source = String::from_str(source_file_hash);
    source.append("|");
    source.append(import_scope);
    source.append("|");
    source.append(usize_text(bundle.members.len()).as_str());
    source.append("|");
    source.append(usize_text(bundle.consumptions.len()).as_str());
    source.append("|");
    source.append(usize_text(bundle.redemptions.len()).as_str());
    source.append("|");
    source.append(usize_text(bundle.gifts.len()).as_str());
    source.append("|");
    source.append(member_keys.as_str());
    source.append("|");
    source.append(history_digest.as_str());
    assert(source@ =~= fingerprint_source(source_file_hash@, import_scope@, *bundle));
    sha256_hex(source.as_str().as_bytes())
}

/// Whether a precheck lets a batch be imported: the file has no errors and no
/// batch with the same fingerprint was imported before.
pub open spec fn precheck_allows(b: ImportBundle, duplicate_batch: bool) -> bool {
    bundle_errors(b).len() == 0 && !duplicate_batch
}

/// A batch that was imported before, or whose file has errors, is never
/// allowed by its precheck.
pub proof fn lemma_precheck_blocks_repeats_and_errors(b: ImportBundle, duplicate_batch: bool)
    ensures
        duplicate_batch ==> !precheck_allows(b, duplicate_batch),
        bundle_errors(b).len() > 0 ==> !precheck_allows(b, duplicate_batch),
        precheck_allows(b, duplicate_batch) ==> !duplicate_batch && bundle_errors(b).len() == 0,
{
}

/// The warning given where a batch with the same fingerprint was imported
/// before.
pub open spec fn duplicate_batch_warning() -> Seq<char> {
    "系统检测到同指纹批次已成功导入，本次预检结果仅供查看"@
}

/// The precheck of a migration file: its errors and warnings (and a warning
/// where the same batch was imported before), its counts, and whether it may
/// be imported, which it may where it has no errors and is no repeat.
pub fn build_precheck(
    batch_no: String,
    source_file: String,
    bundle: &ImportBundle,
    import_scope: String,
    batch_fingerprint: String,
    duplicate_batch: bool,
) -> (r: MigrationPrecheckResult)
    ensures
        r.batch_no@ == batch_no@,
        r.source_file@ == source_file@,
        r.source_version == bundle.source_version,
        r.import_scope@ == import_scope@,
        r.batch_fingerprint@ == batch_fingerprint@,
        r.import_mode@ == import_mode_text(*bundle),
        r.member_count == bundle.members.len() as i64,
        r.consumption_count == bundle.consumptions.len() as i64,
        r.redemption_count == bundle.redemptions.len() as i64,
        r.gift_count == bundle.gifts.len() as i64,
        r.duplicate_batch == duplicate_batch,
        error_views(r.errors@) == bundle_errors(*bundle),
        text_views(r.warnings@) == bundle_warnings(*bundle) + if duplicate_batch {
            seq![duplicate_batch_warning()]
        } else {
            seq![]
        },
        r.can_execute == precheck_allows(*bundle, duplicate_batch),
{
    let mut errors: Vec<MigrationErrorItem> = Vec::new();
    let mut warnings: Vec<String> = Vec::new();
    validate_import_bundle(bundle, &mut errors, &mut warnings);
    assert(error_views(errors@) =~= bundle_errors(*bundle));
    assert(text_views(warnings@) =~= bundle_warnings(*bundle));
    if duplicate_batch {
        let ghost before = warnings@;
        warnings.push(String::from_str("系统检测到同指纹批次已成功导入，本次预检结果仅供查看"));
        assert(text_views(warnings@) =~= text_views(before).push(duplicate_batch_warning()));
    }
    let can_execute = errors.len() == 0 && !duplicate_batch;
    MigrationPrecheckResult {
        batch_no,
        source_file,
        source_version: match &bundle.source_version {
            Some(v) => Some(v.clone()),
            None => None,
        },
        import_scope,
        batch_fingerprint,
        import_mode: import_mode_of(bundle),
        member_count: bundle.members.len() as i64,
        consumption_count: bundle.consumptions.len() as i64,
        redemption_count: bundle.redemptions.len() as i64,
        gift_count: bundle.gifts.len() as i64,
        duplicate_batch,
        can_execute,
        warnings,
        errors,
    }
}

/// A batch may only be imported where its precheck allowed it.
pub fn check_precheck_executable(cache: &MigrationPrecheckCache) -> (r: Result<(), CommandError>)
    ensures
        cache.precheck.can_execute ==> r is Ok,
        !cache.precheck.can_execute ==> r == Err::<(), CommandError>(
            CommandError::BatchNotExecutable,
        ),
{
    if cache.precheck.can_execute {
        Ok(())
    } else {
        Err(CommandError::BatchNotExecutable)
    }
}

/// A batch may only be imported while its file is the one that was prechecked.
pub fn check_source_unchanged(cache: &MigrationPrecheckCache, current_hash: &str) -> (r: Result<
    (),
    CommandError,
>)
    ensures
        current_hash@ == cache.source_file_hash@ ==> r is Ok,
        current_hash@ != cache.source_file_hash@ ==> r == Err::<(), CommandError>(
            CommandError::SourceFileChanged,
        ),
{
    if String::from_str(current_hash) == cache.source_file_hash {
        Ok(())
    } else {
        Err(CommandError::SourceFileChanged)
    }
}

/// A batch is refused where a batch with the same fingerprint has already
/// been imported successfully, so that no batch is imported twice.
pub fn check_batch_not_imported(already_imported: bool) -> (r: Result<(), CommandError>)
    ensures
        already_imported ==> r == Err::<(), CommandError>(CommandError::BatchAlreadyImported),
        !already_imported ==> r is Ok,
{
    if already_imported {
        Err(CommandError::BatchAlreadyImported)
    } else {
        Ok(())
    }
}

} // verus!
