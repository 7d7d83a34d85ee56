//! Where the application keeps its files, and the configuration file's
//! content.
use vstd::prelude::*;
use crate::models::SettingsData;
use crate::numtext::{parse_i64, parse_i64_spec};
use crate::paths::{
    is_joined, is_verbatim, lemma_portable_step_settles, lemma_slashes_settle, normalize_portable_path, path_join,
    path_to_config_value, plainly_relative, portable_step, resolve_path,
};
use crate::text::{chars_of, concat_str, replace_char, string_from_chars, trim_bounds, trimmed};

verus! {

pub const DEFAULT_DB_PATH: &'static str = "data/club.db";

pub const DEFAULT_BACKUP_PATH: &'static str = "data/backup";

/// The directories and files the application works with.
#[derive(Debug, Clone, PartialEq)]
pub struct AppState {
    pub root_dir: String,
    pub db_path: String,
    pub import_dir: String,
    pub config_path: String,
    pub log_dir: String,
}

/// What the legacy system's settings contributed.
#[derive(Debug, Clone, PartialEq)]
pub struct LegacyConfig {
    pub jpdj: String,
}

/// The content of the configuration file.
#[derive(Debug, Clone, PartialEq)]
pub struct AppConfig {
    pub store_name: String,
    pub db_path: String,
    pub backup_path: String,
    pub auto_backup_enabled: bool,
    pub points_rule_amount: i64,
    pub legacy: LegacyConfig,
    pub default_operator: String,
}

/// The settings that the configuration holds. The database path is the one in
/// use; the backup path is the configured one resolved against the root
/// directory.
pub fn settings_from_config(config: &AppConfig, state: &AppState) -> (r: SettingsData)
    ensures
        r.store_name@ == config.store_name@,
        r.db_path@ == state.db_path@,
        r.auto_backup_enabled == config.auto_backup_enabled,
        r.points_rule_amount == config.points_rule_amount,
        r.legacy_jpdj@ == config.legacy.jpdj@,
        r.default_operator@ == config.default_operator@,
        plainly_relative(config.backup_path@) && !is_verbatim(state.root_dir@) ==> is_joined(
            state.root_dir@,
            config.backup_path@,
            r.backup_path@,
        ),
{
    SettingsData {
        store_name: config.store_name.clone(),
        db_path: state.db_path.clone(),
        backup_path: resolve_path(state.root_dir.as_str(), config.backup_path.as_str()),
        auto_backup_enabled: config.auto_backup_enabled,
        points_rule_amount: config.points_rule_amount,
        legacy_jpdj: config.legacy.jpdj.clone(),
        default_operator: config.default_operator.clone(),
    }
}

/// `new` is `old` with its database and backup paths made portable (see
/// `portable_step`; a plainly relative path gets slashes for backslashes),
/// every other field as it was, and `changed` tells whether either path
/// changed.
pub open spec fn normalized_config(old: AppConfig, new: AppConfig, changed: bool) -> bool {
    &&& changed == (new.db_path@ != old.db_path@ || new.backup_path@ != old.backup_path@)
    &&& portable_step(old.db_path@, DEFAULT_DB_PATH@, new.db_path@)
    &&& portable_step(old.backup_path@, DEFAULT_BACKUP_PATH@, new.backup_path@)
    &&& plainly_relative(old.db_path@) ==> new.db_path@ == replace_char(old.db_path@, '\\', '/')
    &&& plainly_relative(old.backup_path@) ==> new.backup_path@ == replace_char(
        old.backup_path@,
        '\\',
        '/',
    )
    &&& new.store_name == old.store_name
    &&& new.auto_backup_enabled == old.auto_backup_enabled
    &&& new.points_rule_amount == old.points_rule_amount
    &&& new.legacy == old.legacy
    &&& new.default_operator == old.default_operator
}

/// Makes the database and backup paths of the configuration portable, and
/// tells whether either of them changed.
pub fn normalize_config_paths(config: &mut AppConfig) -> (changed: bool)
    ensures
        normalized_config(*old(config), *final(config), changed),
{
    let normalized_db_path = normalize_portable_path(config.db_path.as_str(), DEFAULT_DB_PATH);
    let normalized_backup_path = normalize_portable_path(
        config.backup_path.as_str(),
        DEFAULT_BACKUP_PATH,
    );
    let changed = !(normalized_db_path == config.db_path) || !(normalized_backup_path
        == config.backup_path);
    if changed {
        config.db_path = normalized_db_path;
        config.backup_path = normalized_backup_path;
    }
    changed
}

/// The portable forms hold no backslash.
proof fn lemma_default_paths_have_no_backslash()
    ensures
        !DEFAULT_DB_PATH@.contains('\\'),
        !DEFAULT_BACKUP_PATH@.contains('\\'),
{
    reveal_strlit("data/club.db");
    reveal_strlit("data/backup");
    assert(!DEFAULT_DB_PATH@.contains('\\')) by {
        if DEFAULT_DB_PATH@.contains('\\') {
            let k = choose|k: int| 0 <= k < DEFAULT_DB_PATH@.len() && DEFAULT_DB_PATH@[k] == '\\';
        }
    }
    assert(!DEFAULT_BACKUP_PATH@.contains('\\')) by {
        if DEFAULT_BACKUP_PATH@.contains('\\') {
            let k = choose|k: int| 0 <= k < DEFAULT_BACKUP_PATH@.len() && DEFAULT_BACKUP_PATH@[k]
                == '\\';
        }
    }
}

/// Plainly relative paths stay plainly relative when normalized, so that the
/// law below applies to them.
pub proof fn lemma_plain_config_paths_stay_plain(c0: AppConfig, c1: AppConfig, changed: bool)
    requires
        normalized_config(c0, c1, changed),
        plainly_relative(c0.db_path@),
        plainly_relative(c0.backup_path@),
    ensures
        plainly_relative(c1.db_path@),
        plainly_relative(c1.backup_path@),
{
    lemma_slashes_settle(c0.db_path@);
    lemma_slashes_settle(c0.backup_path@);
}

/// Normalizing the configuration's paths a second time reports no change and
/// changes nothing, wherever the first time left both paths plainly relative
/// (as it does for plainly relative paths and for absolute paths that end in
/// the portable path).
pub proof fn lemma_normalize_config_paths_twice(
    c0: AppConfig,
    c1: AppConfig,
    changed1: bool,
    c2: AppConfig,
    changed2: bool,
)
    requires
        normalized_config(c0, c1, changed1),
        normalized_config(c1, c2, changed2),
        plainly_relative(c1.db_path@),
        plainly_relative(c1.backup_path@),
    ensures
        !changed2,
        c2.db_path@ == c1.db_path@,
        c2.backup_path@ == c1.backup_path@,
        c2.store_name == c1.store_name,
        c2.auto_backup_enabled == c1.auto_backup_enabled,
        c2.points_rule_amount == c1.points_rule_amount,
        c2.legacy == c1.legacy,
        c2.default_operator == c1.default_operator,
{
    lemma_default_paths_have_no_backslash();
    lemma_portable_step_settles(c0.db_path@, DEFAULT_DB_PATH@, c1.db_path@, c2.db_path@);
    lemma_portable_step_settles(
        c0.backup_path@,
        DEFAULT_BACKUP_PATH@,
        c1.backup_path@,
        c2.backup_path@,
    );
}

/// The configuration written on the first start: the store's defaults, with
/// the points rule and the legacy value taken from the legacy system's
/// setting where there is one ("10" where there is none, and 10 points where
/// that setting is not a number).
pub fn initial_config(legacy_jpdj: Option<String>) -> (r: AppConfig)
    ensures
        r.store_name@ == "永丰文体"@,
        r.db_path@ == DEFAULT_DB_PATH@,
        r.backup_path@ == DEFAULT_BACKUP_PATH@,
        r.auto_backup_enabled,
        r.legacy.jpdj@ == match legacy_jpdj {
            Some(j) => j@,
            None => "10"@,
        },
        r.points_rule_amount == match parse_i64_spec(r.legacy.jpdj@) {
            Some(v) => v,
            None => 10,
        },
        r.default_operator@ == "管理员"@,
{
    let jpdj = match legacy_jpdj {
        Some(j) => j,
        None => String::from_str("10"),
    };
    let points = match parse_i64(jpdj.as_str()) {
        Some(v) => v,
        None => 10,
    };
    AppConfig {
        store_name: String::from_str("永丰文体"),
        db_path: String::from_str(DEFAULT_DB_PATH),
        backup_path: String::from_str(DEFAULT_BACKUP_PATH),
        auto_backup_enabled: true,
        points_rule_amount: points,
        legacy: LegacyConfig { jpdj },
        default_operator: String::from_str("管理员"),
    }
}

/// The configuration that a saved settings page writes: the paths as the
/// configuration file keeps them, everything else as given.
pub fn config_from_settings(state: &AppState, payload: &SettingsData) -> (r: AppConfig)
    ensures
        r.store_name@ == payload.store_name@,
        r.auto_backup_enabled == payload.auto_backup_enabled,
        r.points_rule_amount == payload.points_rule_amount,
        r.legacy.jpdj@ == payload.legacy_jpdj@,
        r.default_operator@ == payload.default_operator@,
        plainly_relative(state.db_path@) ==> r.db_path@ == replace_char(state.db_path@, '\\', '/'),
        plainly_relative(payload.backup_path@) ==> r.backup_path@ == replace_char(
            payload.backup_path@,
            '\\',
            '/',
        ),
{
    AppConfig {
        store_name: payload.store_name.clone(),
        db_path: path_to_config_value(state.root_dir.as_str(), state.db_path.as_str()),
        backup_path: path_to_config_value(state.root_dir.as_str(), payload.backup_path.as_str()),
        auto_backup_enabled: payload.auto_backup_enabled,
        points_rule_amount: payload.points_rule_amount,
        legacy: LegacyConfig { jpdj: payload.legacy_jpdj.clone() },
        default_operator: payload.default_operator.clone(),
    }
}

/// Where the precheck of a batch is kept: "<batch_no>.json" in the import
/// directory.
pub fn precheck_cache_file(state: &AppState, batch_no: &str) -> (r: String)
    ensures
        plainly_relative(batch_no@) && !is_verbatim(state.import_dir@) ==> is_joined(
            state.import_dir@,
            batch_no@ + ".json"@,
            r@,
        ),
{
    let file_name = concat_str(batch_no, ".json");
    proof {
        reveal_strlit(".json");
        let n = file_name@;
        if plainly_relative(batch_no@) {
            assert(n.len() > 0);
            if batch_no@.len() > 0 {
                assert(n[0] == batch_no@[0]);
            } else {
                assert(n[0] == '.');
            }
            assert(!n.contains(':')) by {
                if n.contains(':') {
                    let k = choose|k: int| 0 <= k < n.len() && n[k] == ':';
                    if k < batch_no@.len() {
                        assert(batch_no@[k] == ':');
                        assert(batch_no@.contains(':'));
                    } else {
                        assert(".json"@[k - batch_no@.len()] == ':');
                    }
                }
            }
        }
    }
    path_join(state.import_dir.as_str(), file_name.as_str())
}

pub open spec fn occurs_at(s: Seq<char>, pat: Seq<char>, i: int) -> bool {
    0 <= i && i + pat.len() <= s.len() && s.subrange(i, i + pat.len()) == pat
}

/// Where `pat` first occurs in `s` (what `str::find` reports, counted in
/// characters).
pub open spec fn first_occurrence(s: Seq<char>, pat: Seq<char>) -> Option<int> {
    if exists|i: int| occurs_at(s, pat, i) {
        Some(choose|i: int| occurs_at(s, pat, i) && forall|j: int| 0 <= j < i ==> !occurs_at(s, pat, j))
    } else {
        None
    }
}

fn find_text(s: &Vec<char>, pat: &Vec<char>) -> (r: Option<usize>)
    ensures
        match r {
            Some(i) => occurs_at(s@, pat@, i as int) && forall|j: int|
                0 <= j < i ==> !occurs_at(s@, pat@, j),
            None => forall|j: int| !occurs_at(s@, pat@, j),
        },
{
    if pat.len() > s.len() {
        return None;
    }
    if pat.len() == 0 {
        assert(s@.subrange(0, 0) =~= pat@);
        return Some(0);
    }
    let last: usize = s.len() - pat.len();
    let mut i: usize = 0;
    while i <= last
        invariant
            last == s.len() - pat.len(),
            0 < pat.len() <= s.len(),
            i <= last + 1,
            forall|j: int| 0 <= j < i ==> !occurs_at(s@, pat@, j),
        decreases last + 1 - i,
    {
        let mut k: usize = 0;
        let mut matched = true;
        while k < pat.len()
            invariant
                k <= pat.len(),
                i <= last,
                last == s.len() - pat.len(),
                matched ==> forall|t: int| 0 <= t < k ==> s@[i + t] == pat@[t],
                !matched ==> !occurs_at(s@, pat@, i as int),
            decreases pat.len() - k,
        {
            if s[i + k] != pat[k] {
                proof {
                    let sub = s@.subrange(i as int, i + pat.len());
                    assert(sub[k as int] == s@[i + k]);
                    assert(sub != pat@);
                }
                matched = false;
            }
            k = k + 1;
        }
        if matched {
            assert(s@.subrange(i as int, i + pat.len()) =~= pat@);
            return Some(i);
        }
        i = i + 1;
    }
    proof {
        assert forall|j: int| !occurs_at(s@, pat@, j) by {
            if 0 <= j && j + pat.len() <= s.len() {
                assert(j <= last);
            }
        }
    }
    None
}

pub proof fn lemma_first_occurrence(s: Seq<char>, pat: Seq<char>, i: int)
    requires
        occurs_at(s, pat, i),
        forall|j: int| 0 <= j < i ==> !occurs_at(s, pat, j),
    ensures
        first_occurrence(s, pat) == Some(i),
{
    let c = choose|k: int| occurs_at(s, pat, k) && forall|j: int| 0 <= j < k ==> !occurs_at(s, pat, j);
    if c < i {
        assert(!occurs_at(s, pat, c));
    } else if c > i {
        assert(!occurs_at(s, pat, i));
    }
}

/// The value between `<JPDJ>` and `</JPDJ>` in the legacy settings file,
/// trimmed: nothing where a tag is missing or the closing tag does not come
/// after the opening one with something between them.
pub open spec fn jpdj_value(content: Seq<char>) -> Option<Seq<char>> {
    match (first_occurrence(content, "<JPDJ>"@), first_occurrence(content, "</JPDJ>"@)) {
        (Some(start), Some(end)) => if end <= start + "<JPDJ>"@.len() {
            None
        } else {
            Some(trimmed(content.subrange(start + "<JPDJ>"@.len(), end)))
        },
        _ => None,
    }
}

/// Reads the points rule of the legacy system out of its settings file.
pub fn extract_jpdj(content: &str) -> (r: Option<String>)
    ensures
        match r {
            Some(v) => jpdj_value(content@) == Some(v@),
            None => jpdj_value(content@) is None,
        },
{
    let chars = chars_of(content);
    let open_tag = chars_of("<JPDJ>");
    let close_tag = chars_of("</JPDJ>");
    let start = find_text(&chars, &open_tag);
    let end = find_text(&chars, &close_tag);
    proof {
        if let Some(i) = start {
            lemma_first_occurrence(content@, "<JPDJ>"@, i as int);
        }
        if let Some(i) = end {
            lemma_first_occurrence(content@, "</JPDJ>"@, i as int);
        }
    }
    match (start, end) {
        (Some(s), Some(e)) => {
            assert(s + open_tag@.len() <= chars@.len());
            assert(chars@.len() == chars.len());
            assert(open_tag@.len() == open_tag.len());
            if e <= s + open_tag.len() {
                None
            } else {
                let from: usize = s + open_tag.len();
                let inner = string_from_chars(&chars, from, e);
                let inner_chars = chars_of(inner.as_str());
                let (a, b) = trim_bounds(&inner_chars);
                Some(string_from_chars(&inner_chars, a, b))
            }
        },
        _ => None,
    }
}

} // verus!
