//! The settings as key/value rows of the settings table: what is written for
//! a settings page, and how stored rows override the configured values.
use vstd::prelude::*;
use crate::config::{settings_from_config, AppConfig, AppState};
use crate::errors::CommandError;
use crate::models::{ImportSettings, SettingsData};
use crate::numtext::{i64_text, int_text, lemma_parse_int_text, parse_i64, parse_i64_spec};
use crate::paths::{is_joined, is_verbatim, plainly_relative, resolve_path};
use crate::text::{normalize_optional_text, normalized_text, opt_view};

verus! {

/// `SettingsData` as plain values.
pub struct SettingsView {
    pub store_name: Seq<char>,
    pub db_path: Seq<char>,
    pub backup_path: Seq<char>,
    pub auto_backup_enabled: bool,
    pub points_rule_amount: i64,
    pub legacy_jpdj: Seq<char>,
    pub default_operator: Seq<char>,
}

impl View for SettingsData {
    type V = SettingsView;

    open spec fn view(&self) -> SettingsView {
        SettingsView {
            store_name: self.store_name@,
            db_path: self.db_path@,
            backup_path: self.backup_path@,
            auto_backup_enabled: self.auto_backup_enabled,
            points_rule_amount: self.points_rule_amount,
            legacy_jpdj: self.legacy_jpdj@,
            default_operator: self.default_operator@,
        }
    }
}

pub open spec fn bool_text(b: bool) -> Seq<char> {
    if b {
        "true"@
    } else {
        "false"@
    }
}

pub open spec fn pair_views(v: Seq<(String, String)>) -> Seq<(Seq<char>, Seq<char>)> {
    v.map_values(|p: (String, String)| (p.0@, p.1@))
}

/// The rows that a settings page is stored as, in the order they are written.
pub open spec fn settings_rows(s: SettingsView) -> Seq<(Seq<char>, Seq<char>)> {
    seq![
        ("store_name"@, s.store_name),
        ("points_rule_amount"@, int_text(s.points_rule_amount as int)),
        ("auto_backup_enabled"@, bool_text(s.auto_backup_enabled)),
        ("backup_path"@, s.backup_path),
        ("legacy_jpdj"@, s.legacy_jpdj),
        ("default_operator"@, s.default_operator),
    ]
}

/// One stored row applied to the settings: a known key sets its value (the
/// points rule only where the value reads as a number, the backup flag to
/// whether the value is "true"); an unknown key changes nothing.
pub open spec fn apply_row(s: SettingsView, key: Seq<char>, value: Seq<char>) -> SettingsView {
    if key == "store_name"@ {
        SettingsView { store_name: value, ..s }
    } else if key == "points_rule_amount"@ {
        match parse_i64_spec(value) {
            Some(p) => SettingsView { points_rule_amount: p as i64, ..s },
            None => s,
        }
    } else if key == "auto_backup_enabled"@ {
        SettingsView { auto_backup_enabled: value == "true"@, ..s }
    } else if key == "backup_path"@ {
        SettingsView { backup_path: value, ..s }
    } else if key == "legacy_jpdj"@ {
        SettingsView { legacy_jpdj: value, ..s }
    } else if key == "default_operator"@ {
        SettingsView { default_operator: value, ..s }
    } else {
        s
    }
}

/// The settings after every row has been applied, in order.
pub open spec fn apply_rows(s: SettingsView, rows: Seq<(Seq<char>, Seq<char>)>) -> SettingsView
    decreases rows.len(),
{
    if rows.len() == 0 {
        s
    } else {
        let last = rows.last();
        apply_row(apply_rows(s, rows.drop_last()), last.0, last.1)
    }
}

/// The value of the last row that sets the backup path, if any row does.
pub open spec fn last_backup_row(rows: Seq<(Seq<char>, Seq<char>)>) -> Option<Seq<char>>
    decreases rows.len(),
{
    if rows.len() == 0 {
        None
    } else if rows.last().0 == "backup_path"@ {
        Some(rows.last().1)
    } else {
        last_backup_row(rows.drop_last())
    }
}

/// The backup path after the rows: the last one they set, else the one the
/// settings started with.
proof fn lemma_apply_rows_backup(s: SettingsView, rows: Seq<(Seq<char>, Seq<char>)>)
    ensures
        apply_rows(s, rows).backup_path == match last_backup_row(rows) {
            Some(v) => v,
            None => s.backup_path,
        },
    decreases rows.len(),
{
    if rows.len() > 0 {
        lemma_apply_rows_backup(s, rows.drop_last());
        reveal_strlit("store_name");
        reveal_strlit("points_rule_amount");
        reveal_strlit("auto_backup_enabled");
        reveal_strlit("backup_path");
        reveal_strlit("legacy_jpdj");
        reveal_strlit("default_operator");
        assert("store_name"@.len() != "backup_path"@.len());
        assert("points_rule_amount"@.len() != "backup_path"@.len());
        assert("auto_backup_enabled"@.len() != "backup_path"@.len());
        assert(rows.drop_last().len() < rows.len());
    }
}

/// The rows a settings page is stored as set its backup path last.
pub proof fn lemma_saved_rows_set_backup_path(saved: SettingsView)
    ensures
        last_backup_row(settings_rows(saved)) == Some(saved.backup_path),
{
    reveal_strlit("default_operator");
    reveal_strlit("legacy_jpdj");
    reveal_strlit("backup_path");
    let rows = settings_rows(saved);
    assert("default_operator"@.len() != "backup_path"@.len());
    assert("legacy_jpdj"@ != "backup_path"@) by {
        assert("legacy_jpdj"@[0] != "backup_path"@[0]);
    }
    let r5 = rows.drop_last();
    let r4 = r5.drop_last();
    assert(rows.last() == ("default_operator"@, saved.default_operator));
    assert(r5.last() == ("legacy_jpdj"@, saved.legacy_jpdj));
    assert(r4.last() == ("backup_path"@, saved.backup_path));
    assert(last_backup_row(r4) == Some(saved.backup_path));
    assert(last_backup_row(r5) == Some(saved.backup_path));
}

fn text_pair(key: &str, value: String) -> (r: (String, String))
    ensures
        r.0@ == key@,
        r.1@ == value@,
{
    (String::from_str(key), value)
}

/// The rows that the settings are stored as.
pub fn settings_pairs(s: &SettingsData) -> (r: Vec<(String, String)>)
    ensures
        pair_views(r@) == settings_rows(s@),
{
    let mut r: Vec<(String, String)> = Vec::new();
    r.push(text_pair("store_name", s.store_name.clone()));
    r.push(text_pair("points_rule_amount", i64_text(s.points_rule_amount)));
    let flag = if s.auto_backup_enabled {
        String::from_str("true")
    } else {
        String::from_str("false")
    };
    r.push(text_pair("auto_backup_enabled", flag));
    r.push(text_pair("backup_path", s.backup_path.clone()));
    r.push(text_pair("legacy_jpdj", s.legacy_jpdj.clone()));
    r.push(text_pair("default_operator", s.default_operator.clone()));
    assert(pair_views(r@) =~= settings_rows(s@));
    r
}

/// Applies one stored row to the settings.
pub fn apply_setting_pair(settings: &mut SettingsData, key: &str, value: String)
    ensures
        final(settings)@ == apply_row(old(settings)@, key@, value@),
{
    let k = String::from_str(key);
    if k == String::from_str("store_name") {
        settings.store_name = value;
    } else if k == String::from_str("points_rule_amount") {
        if let Some(p) = parse_i64(value.as_str()) {
            settings.points_rule_amount = p;
        }
    } else if k == String::from_str("auto_backup_enabled") {
        settings.auto_backup_enabled = value == String::from_str("true");
    } else if k == String::from_str("backup_path") {
        settings.backup_path = value;
    } else if k == String::from_str("legacy_jpdj") {
        settings.legacy_jpdj = value;
    } else if k == String::from_str("default_operator") {
        settings.default_operator = value;
    }
}

/// Applies the stored rows to the settings, in order.
pub fn apply_setting_pairs(settings: &mut SettingsData, rows: Vec<(String, String)>)
    ensures
        final(settings)@ == apply_rows(old(settings)@, pair_views(rows@)),
{
    let ghost start = settings@;
    let ghost all = pair_views(rows@);
    let mut i: usize = 0;
    let mut rest = rows;
    let mut taken: Vec<(String, String)> = Vec::new();
    while i < rest.len()
        invariant
            i <= rest.len(),
            pair_views(rest@) == all,
            settings@ == apply_rows(start, all.take(i as int)),
        decreases rest.len() - i,
    {
        let key = rest[i].0.clone();
        let value = rest[i].1.clone();
        apply_setting_pair(settings, key.as_str(), value);
        assert(all.take(i + 1).drop_last() =~= all.take(i as int));
        i = i + 1;
    }
    assert(all.take(all.len() as int) =~= all);
}

/// The settings as the settings page shows them: the configured values, then
/// the stored rows applied in order, and the backup path resolved against the
/// root directory. Where a row sets the backup path, the last such row's path
/// is the one resolved.
pub fn settings_with_stored(
    config: &AppConfig,
    state: &AppState,
    rows: Vec<(String, String)>,
) -> (r: SettingsData)
    ensures
        ({
            let base = SettingsView {
                store_name: config.store_name@,
                db_path: state.db_path@,
                backup_path: config.backup_path@,
                auto_backup_enabled: config.auto_backup_enabled,
                points_rule_amount: config.points_rule_amount,
                legacy_jpdj: config.legacy.jpdj@,
                default_operator: config.default_operator@,
            };
            let applied = apply_rows(base, pair_views(rows@));
            &&& r.store_name@ == applied.store_name
            &&& r.db_path@ == applied.db_path
            &&& r.auto_backup_enabled == applied.auto_backup_enabled
            &&& r.points_rule_amount == applied.points_rule_amount
            &&& r.legacy_jpdj@ == applied.legacy_jpdj
            &&& r.default_operator@ == applied.default_operator
        }),
        last_backup_row(pair_views(rows@)) matches Some(v) ==> (plainly_relative(v)
            && !is_verbatim(state.root_dir@) ==> is_joined(state.root_dir@, v, r.backup_path@)),
{
    let mut settings = settings_from_config(config, state);
    let ghost configured = settings@;
    let ghost row_views = pair_views(rows@);
    apply_setting_pairs(&mut settings, rows);
    proof {
        lemma_apply_rows_keeps_others(configured, row_views);
        lemma_apply_rows_backup(configured, row_views);
    }
    let backup_path = resolve_path(state.root_dir.as_str(), settings.backup_path.as_str());
    let r = SettingsData { backup_path, ..settings };
    proof {
        let base = SettingsView { backup_path: config.backup_path@, ..configured };
        lemma_apply_rows_backup_irrelevant(configured, base, pair_views(rows@));
    }
    r
}

/// What the rows make of every field but the backup path does not depend on
/// the backup path the settings started with.
proof fn lemma_apply_rows_backup_irrelevant(
    a: SettingsView,
    b: SettingsView,
    rows: Seq<(Seq<char>, Seq<char>)>,
)
    requires
        a.store_name == b.store_name,
        a.db_path == b.db_path,
        a.auto_backup_enabled == b.auto_backup_enabled,
        a.points_rule_amount == b.points_rule_amount,
        a.legacy_jpdj == b.legacy_jpdj,
        a.default_operator == b.default_operator,
    ensures
        apply_rows(a, rows).store_name == apply_rows(b, rows).store_name,
        apply_rows(a, rows).db_path == apply_rows(b, rows).db_path,
        apply_rows(a, rows).auto_backup_enabled == apply_rows(b, rows).auto_backup_enabled,
        apply_rows(a, rows).points_rule_amount == apply_rows(b, rows).points_rule_amount,
        apply_rows(a, rows).legacy_jpdj == apply_rows(b, rows).legacy_jpdj,
        apply_rows(a, rows).default_operator == apply_rows(b, rows).default_operator,
    decreases rows.len(),
{
    if rows.len() > 0 {
        lemma_apply_rows_backup_irrelevant(a, b, rows.drop_last());
    }
}

/// Rows never touch the database path.
proof fn lemma_apply_rows_keeps_others(s: SettingsView, rows: Seq<(Seq<char>, Seq<char>)>)
    ensures
        apply_rows(s, rows).db_path == s.db_path,
    decreases rows.len(),
{
    if rows.len() > 0 {
        lemma_apply_rows_keeps_others(s, rows.drop_last());
    }
}

/// Settings written to the settings table and read back are the settings
/// that were written, whatever the table held before; the database path is
/// not among them and stays as it was.
pub proof fn lemma_stored_settings_read_back(before: SettingsView, saved: SettingsView)
    ensures
        apply_rows(before, settings_rows(saved)) == (SettingsView { db_path: before.db_path, ..saved }),
{
    reveal_strlit("store_name");
    reveal_strlit("points_rule_amount");
    reveal_strlit("auto_backup_enabled");
    reveal_strlit("backup_path");
    reveal_strlit("legacy_jpdj");
    reveal_strlit("default_operator");
    reveal_strlit("true");
    reveal_strlit("false");
    lemma_parse_int_text(saved.points_rule_amount as int);
    let rows = settings_rows(saved);
    assert(rows.drop_last().drop_last().drop_last().drop_last().drop_last().drop_last() =~= seq![]);
    let s0 = before;
    let s1 = apply_row(s0, rows[0].0, rows[0].1);
    let s2 = apply_row(s1, rows[1].0, rows[1].1);
    let s3 = apply_row(s2, rows[2].0, rows[2].1);
    let s4 = apply_row(s3, rows[3].0, rows[3].1);
    let s5 = apply_row(s4, rows[4].0, rows[4].1);
    let s6 = apply_row(s5, rows[5].0, rows[5].1);
    assert(apply_rows(before, rows.take(0)) == s0);
    assert(rows.take(1).drop_last() =~= rows.take(0));
    assert(rows.take(2).drop_last() =~= rows.take(1));
    assert(rows.take(3).drop_last() =~= rows.take(2));
    assert(rows.take(4).drop_last() =~= rows.take(3));
    assert(rows.take(5).drop_last() =~= rows.take(4));
    assert(rows.take(6).drop_last() =~= rows.take(5));
    assert(apply_rows(before, rows.take(1)) == s1);
    assert(apply_rows(before, rows.take(2)) == s2);
    assert(apply_rows(before, rows.take(3)) == s3);
    assert(apply_rows(before, rows.take(4)) == s4);
    assert(apply_rows(before, rows.take(5)) == s5);
    assert(apply_rows(before, rows.take(6)) == s6);
    assert(rows.take(6) =~= rows);
    assert("points_rule_amount"@.len() != "store_name"@.len());
    assert("auto_backup_enabled"@.len() != "store_name"@.len());
    assert("backup_path"@ != "store_name"@) by {
        assert("backup_path"@[0] != "store_name"@[0]);
    }
    assert("legacy_jpdj"@ != "store_name"@) by {
        assert("legacy_jpdj"@[0] != "store_name"@[0]);
    }
    assert("default_operator"@.len() != "store_name"@.len());
    assert("legacy_jpdj"@ != "backup_path"@) by {
        assert("legacy_jpdj"@[0] != "backup_path"@[0]);
    }
    assert(s6.store_name == saved.store_name);
    assert(s6.db_path == before.db_path);
    assert(s6.backup_path == saved.backup_path);
    assert(s6.auto_backup_enabled == saved.auto_backup_enabled);
    assert(s6.points_rule_amount == saved.points_rule_amount);
    assert(s6.legacy_jpdj == saved.legacy_jpdj);
    assert(s6.default_operator == saved.default_operator);
}

/// A settings page must give a positive points rule.
pub fn check_points_rule(points_rule_amount: i64) -> (r: Result<(), CommandError>)
    ensures
        points_rule_amount <= 0 ==> r == Err::<(), CommandError>(CommandError::PointsRuleNotPositive),
        points_rule_amount > 0 ==> r is Ok,
{
    if points_rule_amount <= 0 {
        Err(CommandError::PointsRuleNotPositive)
    } else {
        Ok(())
    }
}

/// The rows that settings carried in a migration file are stored as: the
/// store name, the legacy value and the default operator where they are not
/// blank (trimmed), the points rule where it is given.
pub open spec fn import_settings_rows(s: ImportSettings) -> Seq<(Seq<char>, Seq<char>)> {
    let store = match normalized_text(opt_view(s.store_name)) {
        Some(v) => seq![("store_name"@, v)],
        None => seq![],
    };
    let points = match s.points_rule_amount {
        Some(p) => seq![("points_rule_amount"@, int_text(p as int))],
        None => seq![],
    };
    let jpdj = match normalized_text(opt_view(s.legacy_jpdj)) {
        Some(v) => seq![("legacy_jpdj"@, v)],
        None => seq![],
    };
    let operator = match normalized_text(opt_view(s.default_operator)) {
        Some(v) => seq![("default_operator"@, v)],
        None => seq![],
    };
    store + points + jpdj + operator
}

fn copy_opt_text(v: &Option<String>) -> (r: Option<String>)
    ensures
        opt_view(r) == opt_view(*v),
{
    match v {
        Some(s) => Some(s.clone()),
        None => None,
    }
}

/// The rows that settings carried in a migration file are stored as.
pub fn import_settings_pairs(settings: &ImportSettings) -> (r: Vec<(String, String)>)
    ensures
        pair_views(r@) == import_settings_rows(*settings),
{
    let mut r: Vec<(String, String)> = Vec::new();
    let ghost r0 = pair_views(r@);
    if let Some(v) = normalize_optional_text(copy_opt_text(&settings.store_name)) {
        r.push(text_pair("store_name", v));
    }
    let ghost r1 = pair_views(r@);
    if let Some(p) = settings.points_rule_amount {
        r.push(text_pair("points_rule_amount", i64_text(p)));
    }
    let ghost r2 = pair_views(r@);
    if let Some(v) = normalize_optional_text(copy_opt_text(&settings.legacy_jpdj)) {
        r.push(text_pair("legacy_jpdj", v));
    }
    let ghost r3 = pair_views(r@);
    if let Some(v) = normalize_optional_text(copy_opt_text(&settings.default_operator)) {
        r.push(text_pair("default_operator", v));
    }
    assert(pair_views(r@) =~= import_settings_rows(*settings));
    r
}

} // verus!
