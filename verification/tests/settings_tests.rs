use member_club::config::{
    config_from_settings, extract_jpdj, initial_config, normalize_config_paths, precheck_cache_file,
    settings_from_config, AppConfig, AppState, LegacyConfig,
};
use member_club::models::{ImportSettings, SettingsData};
use member_club::paths::{
    normalize_portable_path, path_to_config_value, pick_config_value, pick_portable_path,
    pick_resolved_path, resolve_path,
};
use member_club::settings::{
    apply_setting_pair, apply_setting_pairs, check_points_rule, import_settings_pairs,
    settings_pairs, settings_with_stored,
};
use member_club::errors::CommandError;

fn state() -> AppState {
    AppState {
        root_dir: "/srv/club".to_string(),
        db_path: "/srv/club/data/club.db".to_string(),
        import_dir: "/srv/club/data/import".to_string(),
        config_path: "/srv/club/config/app.json".to_string(),
        log_dir: "/srv/club/logs".to_string(),
    }
}

fn settings() -> SettingsData {
    SettingsData {
        store_name: "永丰文体".to_string(),
        db_path: "/srv/club/data/club.db".to_string(),
        backup_path: "data/backup".to_string(),
        auto_backup_enabled: false,
        points_rule_amount: -15,
        legacy_jpdj: "15".to_string(),
        default_operator: "管理员".to_string(),
    }
}

#[test]
fn settings_rows_in_order() {
    let pairs = settings_pairs(&settings());
    let keys: Vec<&str> = pairs.iter().map(|p| p.0.as_str()).collect();
    assert_eq!(
        keys,
        vec!["store_name", "points_rule_amount", "auto_backup_enabled", "backup_path", "legacy_jpdj", "default_operator"]
    );
    assert_eq!(pairs[1].1, "-15");
    assert_eq!(pairs[2].1, "false");
}

#[test]
fn stored_settings_read_back() {
    let saved = settings();
    let mut loaded = SettingsData {
        store_name: "x".into(),
        db_path: "keep".into(),
        backup_path: "y".into(),
        auto_backup_enabled: true,
        points_rule_amount: 1,
        legacy_jpdj: "z".into(),
        default_operator: "w".into(),
    };
    apply_setting_pairs(&mut loaded, settings_pairs(&saved));
    assert_eq!(loaded, SettingsData { db_path: "keep".into(), ..saved });
}

#[test]
fn stored_rows_override_config() {
    let mut s = settings();
    apply_setting_pair(&mut s, "points_rule_amount", "abc".to_string());
    assert_eq!(s.points_rule_amount, -15);
    apply_setting_pair(&mut s, "points_rule_amount", "20".to_string());
    assert_eq!(s.points_rule_amount, 20);
    apply_setting_pair(&mut s, "auto_backup_enabled", "TRUE".to_string());
    assert!(!s.auto_backup_enabled);
    apply_setting_pair(&mut s, "auto_backup_enabled", "true".to_string());
    assert!(s.auto_backup_enabled);
    apply_setting_pair(&mut s, "unknown", "v".to_string());
    assert_eq!(s.store_name, "永丰文体");
}

#[test]
fn loaded_settings_start_from_config() {
    let config = initial_config(Some("12".to_string()));
    let loaded = settings_with_stored(&config, &state(), vec![("store_name".into(), "新店".into())]);
    assert_eq!(loaded.store_name, "新店");
    assert_eq!(loaded.points_rule_amount, 12);
    assert_eq!(loaded.db_path, "/srv/club/data/club.db");
    assert_eq!(loaded.backup_path, "/srv/club/data/backup");
}

#[test]
fn initial_config_defaults() {
    let c = initial_config(None);
    assert_eq!(c.store_name, "永丰文体");
    assert_eq!(c.db_path, "data/club.db");
    assert_eq!(c.backup_path, "data/backup");
    assert!(c.auto_backup_enabled);
    assert_eq!(c.points_rule_amount, 10);
    assert_eq!(c.legacy.jpdj, "10");
    assert_eq!(c.default_operator, "管理员");
    let odd = initial_config(Some("abc".to_string()));
    assert_eq!(odd.points_rule_amount, 10);
    assert_eq!(odd.legacy.jpdj, "abc");
}

#[test]
fn jpdj_extraction() {
    assert_eq!(extract_jpdj("<Root><JPDJ> 20 </JPDJ></Root>"), Some("20".to_string()));
    assert_eq!(extract_jpdj("<JPDJ></JPDJ>"), None);
    assert_eq!(extract_jpdj("</JPDJ><JPDJ>5"), None);
    assert_eq!(extract_jpdj("no tags"), None);
    assert_eq!(extract_jpdj("<JPDJ>  </JPDJ>"), Some(String::new()));
    assert_eq!(extract_jpdj("中文<JPDJ>八</JPDJ>"), Some("八".to_string()));
}

#[test]
fn settings_from_config_copies_fields() {
    let config = AppConfig {
        store_name: "S".into(),
        db_path: "data/club.db".into(),
        backup_path: "/abs/backup".into(),
        auto_backup_enabled: true,
        points_rule_amount: 3,
        legacy: LegacyConfig { jpdj: "3".into() },
        default_operator: "op".into(),
    };
    let s = settings_from_config(&config, &state());
    assert_eq!(s.db_path, "/srv/club/data/club.db");
    assert_eq!(s.backup_path, "/abs/backup");
    assert_eq!(s.legacy_jpdj, "3");
}

#[test]
fn config_from_settings_keeps_paths_portable() {
    let mut s = settings();
    s.backup_path = "/srv/club/data/backup2".to_string();
    let c = config_from_settings(&state(), &s);
    assert_eq!(c.db_path, "data/club.db");
    assert_eq!(c.backup_path, "data/backup2");
    assert_eq!(c.points_rule_amount, -15);
}

#[test]
fn config_paths_normalized() {
    let mut c = initial_config(None);
    c.db_path = "/old/root/data/club.db".into();
    c.backup_path = "data\\backup".into();
    assert!(normalize_config_paths(&mut c));
    assert_eq!(c.db_path, "data/club.db");
    assert_eq!(c.backup_path, "data/backup");
    assert!(!normalize_config_paths(&mut c));
}

#[test]
fn path_choices() {
    assert_eq!(pick_resolved_path("/a", true, "/r/a".into()), "/a");
    assert_eq!(pick_resolved_path("a", false, "/r/a".into()), "/r/a");
    assert_eq!(pick_config_value("/r/a\\b", true, Some("a\\b".into())), "a/b");
    assert_eq!(pick_config_value("/x/a", true, None), "/x/a");
    assert_eq!(pick_config_value("a\\b", false, None), "a/b");
    assert_eq!(pick_portable_path("/x/data/club.db", "data/club.db", true, true), "data/club.db");
    assert_eq!(pick_portable_path("/x/other.db", "data/club.db", true, false), "/x/other.db");
    assert_eq!(pick_portable_path("d\\c.db", "data/club.db", false, false), "d/c.db");
}

#[test]
fn platform_paths() {
    assert_eq!(resolve_path("/root", "data/club.db"), "/root/data/club.db");
    assert_eq!(resolve_path("/root", "/abs/x"), "/abs/x");
    assert_eq!(resolve_path("/root/", "data"), "/root/data");
    assert_eq!(resolve_path("", "data"), "data");
    assert_eq!(path_to_config_value("/root", "/root/data/x"), "data/x");
    assert_eq!(path_to_config_value("/root", "/elsewhere/x"), "/elsewhere/x");
    assert_eq!(normalize_portable_path("/any/data/backup", "data/backup"), "data/backup");
    assert_eq!(precheck_cache_file(&state(), "B1"), "/srv/club/data/import/B1.json");
}

#[test]
fn points_rule_must_be_positive() {
    assert_eq!(check_points_rule(0), Err(CommandError::PointsRuleNotPositive));
    assert_eq!(CommandError::PointsRuleNotPositive.message(), "积分规则必须大于 0");
    assert_eq!(check_points_rule(1), Ok(()));
}

#[test]
fn import_settings_rows() {
    let s = ImportSettings {
        store_name: Some("  店 ".into()),
        points_rule_amount: Some(8),
        legacy_jpdj: Some("  ".into()),
        default_operator: None,
    };
    assert_eq!(
        import_settings_pairs(&s),
        vec![("store_name".to_string(), "店".to_string()), ("points_rule_amount".to_string(), "8".to_string())]
    );
}

#[test]
fn normalizing_twice_changes_nothing() {
    let mut c = initial_config(None);
    c.db_path = "/old/root/data/club.db".into();
    c.backup_path = "data\\backup".into();
    assert!(normalize_config_paths(&mut c));
    let once = c.clone();
    assert!(!normalize_config_paths(&mut c));
    assert_eq!(c, once);
}

#[test]
fn saved_backup_path_reads_back_resolved() {
    let config = initial_config(None);
    let mut saved = settings();
    saved.backup_path = "bk/daily".into();
    let loaded = settings_with_stored(&config, &state(), settings_pairs(&saved));
    assert_eq!(loaded.backup_path, "/srv/club/bk/daily");
    assert_eq!(loaded.store_name, saved.store_name);
    assert_eq!(loaded.points_rule_amount, saved.points_rule_amount);
}
